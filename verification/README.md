# twitch_tts

A text-to-speech bot for Twitch chat and its terminal settings screen.

- `src/` is the library, verified with Verus:
  - `texto`: character-level text operations (trim, search, prefixes, decimal numbers);
  - `config`: the settings, the Coqui model lists and the choice of language;
  - `alsa`: reading the sound cards from the output of `aplay -l`;
  - `cola`: the queue of texts waiting to be spoken;
  - `bot`: what each chat line means (PING, volume commands, messages to read),
    the steps of speaking a text (engine, gTTS fallback, playing) and the
    commands handed to the speech engines;
  - `textos`: the bilingual labels of the settings screen;
  - `editor`: the state of the settings screen and what each key does;
  - `leyes`: properties that span several functions.
- `app/` is the program: network, threads, sound programs, the settings file,
  the terminal drawing, and the volume (a fraction). Run it with `config-ui`
  as first argument for the settings screen, without arguments for the bot.
- `tests/` exercises the library on concrete values.

The sound cards are gathered in a table of 256 slots indexed by the card
number (a byte): reading it from slot 0 up gives the cards in increasing order
directly, which keeps the proof of the listing short, with no sorted map.
