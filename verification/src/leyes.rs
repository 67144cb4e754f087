use vstd::prelude::*;

use crate::alsa;
use crate::bot;
use crate::cola;
use crate::config;
use crate::config::Config;
use crate::editor;
use crate::texto;

verus! {

// ---------------------------------------------------------------------------
// Speech queue
// ---------------------------------------------------------------------------
/// Putting a text in and then taking one out: from an empty queue the text
/// comes straight back and the queue is empty again; from a non-empty queue
/// the front text comes out first and the new text waits at the back. So texts
/// come out in the order they were put in.
pub proof fn ley_cola_fifo(q: Seq<String>, x: String)
    ensures
        q.len() == 0 ==> cola::sacada(cola::metida(q, x)) == (Some(x), q),
        q.len() > 0 ==> cola::sacada(cola::metida(q, x)) == (
            cola::sacada(q).0,
            cola::metida(cola::sacada(q).1, x),
        ),
{
    assert(q.len() == 0 ==> q.push(x).drop_first() =~= q);
    assert(q.len() > 0 ==> q.push(x).drop_first() =~= q.drop_first().push(x));
}

/// Taking from an empty queue gives nothing and leaves it empty; putting in
/// makes it one longer.
pub proof fn ley_cola_vacia_y_longitud(q: Seq<String>, x: String)
    ensures
        cola::sacada(Seq::<String>::empty()) == (None::<String>, Seq::<String>::empty()),
        cola::metida(q, x).len() == q.len() + 1,
        q.len() > 0 ==> cola::sacada(q).1.len() == q.len() - 1,
{
}

// ---------------------------------------------------------------------------
// Settings
// ---------------------------------------------------------------------------
/// Once a language is chosen the program is no longer on its first run.
pub proof fn ley_idioma_deja_primera_vez(antes: Config, despues: Config, idioma: Seq<char>)
    requires
        config::idioma_aplicado(antes, despues, idioma),
        idioma.len() > 0,
    ensures
        despues.idioma@.len() > 0,
{
}

/// Both choices of the welcome screen name a language.
pub proof fn ley_idiomas_de_bienvenida(cursor: usize)
    ensures
        editor::idioma_elegido(cursor).len() == 2,
{
    reveal_strlit("es");
    reveal_strlit("en");
}

// ---------------------------------------------------------------------------
// Settings screen
// ---------------------------------------------------------------------------
/// One step forward and one step back in a ring come back to the start.
pub proof fn ley_anillo_ida_y_vuelta(i: int, n: int)
    requires
        0 <= i < n,
    ensures
        editor::anterior(editor::siguiente(i, n), n) == i,
        editor::siguiente(editor::anterior(i, n), n) == i,
        0 <= editor::siguiente(i, n) < n,
        0 <= editor::anterior(i, n) < n,
{
    if i + 1 < n {
        vstd::arithmetic::div_mod::lemma_small_mod((i + 1) as nat, n as nat);
    } else {
        vstd::arithmetic::div_mod::lemma_mod_self_0(n);
    }
    let j = editor::anterior(i, n);
    if j + 1 < n {
        vstd::arithmetic::div_mod::lemma_small_mod((j + 1) as nat, n as nat);
    } else {
        vstd::arithmetic::div_mod::lemma_mod_self_0(n);
    }
}

/// The next Coqui model, then the previous one, is the model in use again.
pub proof fn ley_coqui_ida_y_vuelta(c: Config)
    requires
        c.coqui_modelo_idx < c.coqui_modelos@.len() <= usize::MAX,
    ensures
        editor::coqui_izq(Config { coqui_modelo_idx: editor::coqui_der(c), ..c })
            == c.coqui_modelo_idx,
        editor::coqui_der(Config { coqui_modelo_idx: editor::coqui_izq(c), ..c })
            == c.coqui_modelo_idx,
{
    ley_anillo_ida_y_vuelta(c.coqui_modelo_idx as int, c.coqui_modelos@.len() as int);
}

/// The engine setting cycles through piper, coqui and gtts: a step right then
/// left, or left then right, restores it, and three steps right go round.
pub proof fn ley_motor_ciclo(m: Seq<char>)
    requires
        m == "piper"@ || m == "coqui"@ || m == "gtts"@,
    ensures
        editor::motor_izq(editor::motor_der(m)) == m,
        editor::motor_der(editor::motor_izq(m)) == m,
        editor::motor_der(editor::motor_der(editor::motor_der(m))) == m,
{
    reveal_strlit("piper");
    reveal_strlit("coqui");
    reveal_strlit("gtts");
    assert("piper"@[0] != "coqui"@[0]);
    assert("piper"@[0] != "gtts"@[0]);
    assert("coqui"@[0] != "gtts"@[0]);
}

/// Whatever the engine setting was, a step either way leaves one of the three engines.
pub proof fn ley_motor_valido(m: Seq<char>)
    ensures
        editor::motor_izq(m) == "piper"@ || editor::motor_izq(m) == "coqui"@
            || editor::motor_izq(m) == "gtts"@,
        editor::motor_der(m) == "piper"@ || editor::motor_der(m) == "coqui"@
            || editor::motor_der(m) == "gtts"@,
{
}

/// A step down then up restores the length limit from 11 to 509, and a step
/// up then down restores it from 1 to 499.
pub proof fn ley_longitud_ida_y_vuelta(n: usize)
    ensures
        10 < n < 510 ==> editor::longitud_der(editor::longitud_izq(n)) == n,
        0 < n < 500 ==> editor::longitud_izq(editor::longitud_der(n)) == n,
{
}

/// In a list of cards without repeated numbers, the position of a listed card is its own.
proof fn lema_pos_tarjeta(t: Seq<(u8, String)>, j: int, i: int)
    requires
        0 <= i <= j < t.len(),
        forall|a: int, b: int| 0 <= a < b < t.len() ==> t[a].0 != t[b].0,
    ensures
        editor::pos_tarjeta_desde(t, t[j].0, i) == j,
    decreases j - i,
{
    if i < j {
        lema_pos_tarjeta(t, j, i + 1);
    }
}

/// In a list of cards without repeated numbers, the next card then the
/// previous one is the listed card in use again, and the other way round.
pub proof fn ley_tarjeta_ida_y_vuelta(t: Seq<(u8, String)>, j: int)
    requires
        0 <= j < t.len(),
        forall|a: int, b: int| 0 <= a < b < t.len() ==> t[a].0 != t[b].0,
    ensures
        editor::tarjeta_izq(t, editor::tarjeta_der(t, t[j].0)) == t[j].0,
        editor::tarjeta_der(t, editor::tarjeta_izq(t, t[j].0)) == t[j].0,
{
    let n = t.len() as int;
    lema_pos_tarjeta(t, j, 0);
    ley_anillo_ida_y_vuelta(j, n);
    let s = editor::siguiente(j, n);
    let a = editor::anterior(j, n);
    lema_pos_tarjeta(t, s, 0);
    lema_pos_tarjeta(t, a, 0);
}

/// The text of the field under the cursor, for the fields that are typed into.
pub open spec fn texto_del_campo(a: editor::App) -> Seq<char> {
    match editor::campo(a) {
        crate::textos::Campo::Usuario => a.cfg.usuario@,
        crate::textos::Campo::Token => a.cfg.token@,
        crate::textos::Campo::Canal => a.cfg.canal@,
        crate::textos::Campo::PiperModelo => a.cfg.piper_modelo@,
        _ => seq![],
    }
}

/// Typing a character and then erasing one gives the field its text back,
/// with the cursor still on it and the other settings untouched.
pub proof fn ley_escribir_y_borrar(a: editor::App, b: editor::App, c: editor::App, ch: char)
    requires
        editor::edicion(a, b, ch),
        editor::borrado(b, c),
    ensures
        texto_del_campo(c) == texto_del_campo(a),
        c.campo_activo == a.campo_activo,
        c.cfg.idioma == a.cfg.idioma,
        c.cfg.motor_tts == a.cfg.motor_tts,
        c.cfg.coqui_modelos == a.cfg.coqui_modelos,
        c.cfg.longitud_max == a.cfg.longitud_max,
{
    match editor::campo(a) {
        crate::textos::Campo::Usuario => {
            assert(a.cfg.usuario@.push(ch).drop_last() =~= a.cfg.usuario@);
        },
        crate::textos::Campo::Token => {
            assert(a.cfg.token@.push(ch).drop_last() =~= a.cfg.token@);
        },
        crate::textos::Campo::Canal => {
            assert(a.cfg.canal@.push(ch).drop_last() =~= a.cfg.canal@);
        },
        crate::textos::Campo::PiperModelo => {
            assert(a.cfg.piper_modelo@.push(ch).drop_last() =~= a.cfg.piper_modelo@);
        },
        _ => {},
    }
}

/// After a successful check before storing, the channel begins with `#`, and
/// adding the `#` a second time changes nothing.
pub proof fn ley_canal_con_almohadilla(a: editor::App, b: editor::App)
    requires
        editor::guardado_preparado(a, b),
        editor::datos_validos(a.cfg),
    ensures
        texto::empieza_con(b.cfg.canal@, seq!['#']),
        editor::canal_con_almohadilla(b.cfg.canal@) == b.cfg.canal@,
{
    let c = a.cfg.canal@;
    if !texto::empieza_con(c, seq!['#']) {
        assert((seq!['#'] + c).subrange(0, 1) =~= seq!['#']);
    }
}

/// The hidden token shows only bullets, one per byte of the token but at most
/// 32, and none of its characters; the token shown is the token itself.
pub proof fn ley_token_oculto(token: Seq<char>)
    ensures
        editor::token_mostrado(token, true).len() <= 32,
        vstd::utf8::encode_utf8(token).len() <= usize::MAX ==> editor::token_mostrado(token, true).len()
            == if vstd::utf8::encode_utf8(token).len() < 32 {
            vstd::utf8::encode_utf8(token).len()
        } else {
            32
        },
        editor::token_mostrado(token, false) == token,
        forall|i: int|
            0 <= i < editor::token_mostrado(token, true).len() ==> #[trigger] editor::token_mostrado(
                token,
                true,
            )[i] == '•',
{
}

// ---------------------------------------------------------------------------
// Chat
// ---------------------------------------------------------------------------
/// Only the configured user (in any letter case) changes the volume.
pub proof fn ley_volumen_solo_streamer(linea: Seq<char>, c: Config)
    requires
        bot::veredicto(linea, c) is Volumen,
    ensures
        bot::mensaje_irc(linea) is Some,
        texto::minusculas((bot::mensaje_irc(linea)->0).0) == texto::minusculas(c.usuario@),
{
}

/// A message that is read aloud is within the length limit (in characters), holds
/// no link and is not a command; what is read is that message, with the
/// sender's name in front where users are announced.
pub proof fn ley_mensaje_leido(linea: Seq<char>, c: Config)
    requires
        bot::veredicto(linea, c) is Leer,
    ensures
        bot::mensaje_irc(linea) is Some,
        ({
            let t = (bot::mensaje_irc(linea)->0).1;
            let u = (bot::mensaje_irc(linea)->0).0;
            &&& t.len() <= c.longitud_max
            &&& !texto::contiene(t, seq![':', '/', '/'])
            &&& !texto::empieza_con(t, seq!['!'])
            &&& bot::veredicto(linea, c) == bot::Veredicto::Leer(
                bot::anuncio(u, t, c.anunciar_usuario, c.idioma@),
            )
        }),
{
}

/// Turning `PING` into `PONG` keeps the length of a text.
pub proof fn lema_con_pong_longitud(s: Seq<char>)
    ensures
        bot::con_pong(s).len() == s.len(),
    decreases s.len(),
{
    if s.len() > 0 {
        if texto::empieza_con(s, seq!['P', 'I', 'N', 'G']) {
            lema_con_pong_longitud(s.skip(4));
        } else {
            lema_con_pong_longitud(s.drop_first());
        }
    }
}

/// Every `PING` from the server is answered with a line that begins with
/// `PONG`, has the length of the `PING` line, and ends in `\r\n`.
pub proof fn ley_ping_pong(linea: Seq<char>, c: Config)
    requires
        texto::empieza_con(linea, seq!['P', 'I', 'N', 'G']),
    ensures
        bot::veredicto(linea, c) matches bot::Veredicto::Responder(r) && r.len() == linea.len()
            + 2 && r.take(4) == seq!['P', 'O', 'N', 'G'] && r.skip(linea.len() as int) == seq![
            '\r',
            '\n',
        ],
{
    lema_con_pong_longitud(linea);
    lema_con_pong_longitud(linea.skip(4));
    let r = bot::con_pong(linea) + seq!['\r', '\n'];
    assert(r.take(4) =~= seq!['P', 'O', 'N', 'G']);
    assert(r.skip(linea.len() as int) =~= seq!['\r', '\n']);
}

/// Speaking a text always ends in playing a file within three steps, whatever
/// the engine and whatever succeeds or fails: the configured engine's file where
/// it made one, otherwise the gTTS fallback's.
pub proof fn ley_respaldo_voz(motor: Seq<char>, ok1: bool, ok2: bool)
    ensures
        ({
            let p1 = bot::paso_voz_de(motor, None);
            let p2 = bot::paso_voz_de(motor, Some((p1, ok1)));
            let p3 = bot::paso_voz_de(motor, Some((p2, ok2)));
            &&& p3 is Reproducir
            &&& (p3 == bot::PasoVoz::Reproducir(true) <==> (p1 is Generar && ok1))
            &&& (p1 is Generar && !ok1) ==> p2 == bot::PasoVoz::Respaldo
        }),
{
}

/// Texts put between single quotes in the engine commands hold no single quote.
pub proof fn ley_sin_comillas(s: Seq<char>)
    ensures
        bot::sin_comillas(s).len() == s.len(),
        forall|i: int| 0 <= i < s.len() ==> #[trigger] bot::sin_comillas(s)[i] != '\'',
{
}

// ---------------------------------------------------------------------------
// Sound cards
// ---------------------------------------------------------------------------
/// The cards listed from `k` on have numbers from `k` up, increasing.
proof fn lema_listado(p: Seq<Option<(u8, Seq<char>)>>, k: int)
    requires
        0 <= k <= 256,
    ensures
        forall|i: int|
            0 <= i < alsa::listado(p, k).len() ==> k <= #[trigger] alsa::listado(p, k)[i].0 < 256,
        forall|i: int, j: int|
            0 <= i < j < alsa::listado(p, k).len() ==> alsa::listado(p, k)[i].0 < alsa::listado(
                p,
                k,
            )[j].0,
    decreases 256 - k,
{
    if k < 256 {
        lema_listado(p, k + 1);
        let aqui = match alsa::primer_nombre(p, k as u8) {
            Some(nombre) => seq![(k as u8, nombre)],
            None => seq![],
        };
        let l = alsa::listado(p, k);
        let r = alsa::listado(p, k + 1);
        assert(l == aqui + r);
        assert forall|i: int| 0 <= i < l.len() implies k <= #[trigger] l[i].0 < 256 by {
            if i >= aqui.len() {
                assert(l[i] == r[i - aqui.len()]);
            }
        }
        assert forall|i: int, j: int| 0 <= i < j < l.len() implies l[i].0 < l[j].0 by {
            assert(l[j] == r[j - aqui.len()]);
            if i >= aqui.len() {
                assert(l[i] == r[i - aqui.len()]);
            }
        }
    }
}

/// The cards of a listing are never none, and their numbers strictly increase,
/// so that no card number appears twice.
pub proof fn ley_tarjetas_ordenadas(texto_aplay: Seq<char>)
    ensures
        alsa::tarjetas_esperadas(texto_aplay).len() >= 1,
        forall|i: int, j: int|
            0 <= i < j < alsa::tarjetas_esperadas(texto_aplay).len() ==> alsa::tarjetas_esperadas(
                texto_aplay,
            )[i].0 < alsa::tarjetas_esperadas(texto_aplay)[j].0,
{
    lema_listado(alsa::tarjetas_por_linea(alsa::lineas(texto_aplay)), 0);
}

/// A card appears in the listing exactly where some line describes it, with
/// the name of the first such line.
pub proof fn ley_tarjeta_listada(p: Seq<Option<(u8, Seq<char>)>>, k: u8)
    ensures
        alsa::primer_nombre(p, k) matches Some(n) ==> alsa::listado(p, 0).contains((k, n)),
        alsa::primer_nombre(p, k) is None ==> forall|i: int|
            0 <= i < alsa::listado(p, 0).len() ==> #[trigger] alsa::listado(p, 0)[i].0 != k,
{
    lema_listado_contiene(p, k, 0);
}

proof fn lema_listado_contiene(p: Seq<Option<(u8, Seq<char>)>>, k: u8, desde: int)
    requires
        0 <= desde <= k,
    ensures
        alsa::primer_nombre(p, k) matches Some(n) ==> alsa::listado(p, desde).contains((k, n)),
        alsa::primer_nombre(p, k) is None ==> forall|i: int|
            0 <= i < alsa::listado(p, desde).len() ==> #[trigger] alsa::listado(p, desde)[i].0
                != k,
    decreases 256 - desde,
{
    lema_listado(p, desde);
    if desde < k {
        lema_listado_contiene(p, k, desde + 1);
        let aqui = match alsa::primer_nombre(p, desde as u8) {
            Some(nombre) => seq![(desde as u8, nombre)],
            None => seq![],
        };
        assert(alsa::listado(p, desde) == aqui + alsa::listado(p, desde + 1));
        if let Some(n) = alsa::primer_nombre(p, k) {
            let r = alsa::listado(p, desde + 1);
            let i = choose|i: int| 0 <= i < r.len() && r[i] == (k, n);
            assert(alsa::listado(p, desde)[aqui.len() + i] == (k, n));
        }
        if alsa::primer_nombre(p, k) is None {
            assert forall|i: int| 0 <= i < alsa::listado(p, desde).len() implies #[trigger] alsa::listado(p, desde)[i].0 != k by {
                if i >= aqui.len() {
                    assert(alsa::listado(p, desde)[i] == alsa::listado(p, desde + 1)[i - aqui.len()]);
                }
            }
        }
    } else {
        lema_listado(p, desde + 1);
        let aqui = match alsa::primer_nombre(p, desde as u8) {
            Some(nombre) => seq![(desde as u8, nombre)],
            None => seq![],
        };
        let l = alsa::listado(p, desde);
        let r = alsa::listado(p, desde + 1);
        assert(l == aqui + r);
        if let Some(n) = alsa::primer_nombre(p, k) {
            assert(l[0] == (k, n));
        }
        if alsa::primer_nombre(p, k) is None {
            assert forall|i: int| 0 <= i < l.len() implies #[trigger] l[i].0 != k by {
                assert(l[i] == r[i]);
            }
        }
    }
}

// ---------------------------------------------------------------------------
// Which chat messages are read aloud
// ---------------------------------------------------------------------------
/// A chat message that is not a volume command of the streamer is read aloud
/// exactly when it is within the length limit (in characters), holds no `://`
/// and does not begin with `!`: a `!` anywhere after the first character does
/// not stop it. What is read is the message itself, or, where users are
/// announced, the sender's name, ` says ` (in English) or ` dice ` (otherwise)
/// and the message. Every other such message is dropped.
pub proof fn ley_mensaje_leido_si_y_solo_si(
    usuario: Seq<char>,
    t: Seq<char>,
    c: Config,
    usuario_minus: Seq<char>,
    texto_minus: Seq<char>,
    streamer_minus: Seq<char>,
    primera_minus: Seq<char>,
)
    requires
        usuario_minus != streamer_minus || !texto::empieza_con(
            texto_minus,
            seq!['!', 'v', 'o', 'l', 'u', 'm', 'e', 'n'],
        ),
    ensures
        ({
            let v = bot::veredicto_mensaje(
                usuario,
                t,
                c,
                usuario_minus,
                texto_minus,
                streamer_minus,
                primera_minus,
            );
            let leido = if !c.anunciar_usuario {
                t
            } else if c.idioma@ == "en"@ {
                usuario + " says "@ + t
            } else {
                usuario + " dice "@ + t
            };
            let se_lee = t.len() <= c.longitud_max && (forall|i: int|
                0 <= i && i + 3 <= t.len() ==> #[trigger] t.subrange(i, i + 3) != seq![
                    ':',
                    '/',
                    '/',
                ]) && !(t.len() > 0 && t[0] == '!');
            &&& se_lee ==> v == bot::Veredicto::Leer(leido)
            &&& !se_lee ==> v == bot::Veredicto::Ignorar
        }),
{
    let enlace = seq![':', '/', '/'];
    assert(enlace.len() == 3);
    assert(t.len() > 0 ==> (texto::empieza_con(t, seq!['!']) <==> t[0] == '!')) by {
        if t.len() > 0 {
            assert(t.subrange(0, 1)[0] == t[0]);
            if t[0] == '!' {
                assert(t.subrange(0, 1) =~= seq!['!']);
            }
        }
    }
}

/// A chat line from another user than the configured one, or one that is not
/// a `!volumen` command, is read aloud exactly when its message is within the
/// length limit, holds no `://` and does not begin with `!`; a `!` anywhere
/// else in it does not stop it.
pub proof fn ley_linea_leida_si_y_solo_si(linea: Seq<char>, c: Config, u: Seq<char>, t: Seq<char>)
    requires
        !texto::empieza_con(linea, seq!['P', 'I', 'N', 'G']),
        texto::contiene(linea, "PRIVMSG"@),
        bot::mensaje_irc(linea) == Some((u, t)),
        texto::minusculas(u) != texto::minusculas(c.usuario@) || !texto::empieza_con(
            texto::minusculas(t),
            seq!['!', 'v', 'o', 'l', 'u', 'm', 'e', 'n'],
        ),
    ensures
        ({
            let se_lee = t.len() <= c.longitud_max && (forall|i: int|
                0 <= i && i + 3 <= t.len() ==> #[trigger] t.subrange(i, i + 3) != seq![
                    ':',
                    '/',
                    '/',
                ]) && !(t.len() > 0 && t[0] == '!');
            &&& se_lee ==> bot::veredicto(linea, c) == bot::Veredicto::Leer(
                bot::anuncio(u, t, c.anunciar_usuario, c.idioma@),
            )
            &&& !se_lee ==> bot::veredicto(linea, c) == bot::Veredicto::Ignorar
        }),
{
    ley_mensaje_leido_si_y_solo_si(
        u,
        t,
        c,
        texto::minusculas(u),
        texto::minusculas(t),
        texto::minusculas(c.usuario@),
        texto::minusculas(bot::primera_palabra(t)),
    );
}

// ---------------------------------------------------------------------------
// The voice the bot speaks with
// ---------------------------------------------------------------------------
/// The bot speaks with the Coqui model in use and, where that model has a
/// voice at `voz_activa`, with that voice's reference recording.
pub proof fn ley_voz_en_uso(c: Config)
    requires
        c.coqui_modelo_idx < c.coqui_modelos@.len(),
    ensures
        bot::seleccion_coqui_de(c).0 == c.coqui_modelos@[c.coqui_modelo_idx as int].modelo@,
        ({
            let m = c.coqui_modelos@[c.coqui_modelo_idx as int];
            m.voz_activa < m.voces@.len() ==> bot::seleccion_coqui_de(c).1
                == m.voces@[m.voz_activa as int].speaker_wav@
        }),
{
}

/// Enter in the voice chooser of the model in use makes the voice under the
/// cursor the one the bot speaks with, whichever voice that is.
pub proof fn ley_voz_elegida_es_la_que_habla(a: editor::App, b: editor::App, r: editor::Efecto)
    requires
        a.pantalla != editor::Pantalla::Bienvenida,
        a.modal_voces matches Some(mv) && mv.modelo_idx == a.cfg.coqui_modelo_idx
            && mv.modelo_idx < a.cfg.coqui_modelos@.len() && mv.cursor
            < a.cfg.coqui_modelos@[mv.modelo_idx as int].voces@.len(),
        editor::tras_tecla(a, b, editor::Tecla::Intro, r),
    ensures
        b.modal_voces is None,
        bot::seleccion_coqui_de(b.cfg) == (
            a.cfg.coqui_modelos@[a.cfg.coqui_modelo_idx as int].modelo@,
            a.cfg.coqui_modelos@[a.cfg.coqui_modelo_idx as int].voces@[(a.modal_voces->0).cursor as int].speaker_wav@,
        ),
{
    let mv = a.modal_voces->0;
    assert(b.cfg.coqui_modelos@[mv.modelo_idx as int].voces@ == a.cfg.coqui_modelos@[mv.modelo_idx as int].voces@);
}

// ---------------------------------------------------------------------------
// The welcome screen
// ---------------------------------------------------------------------------
/// Enter on the welcome screen applies the language under the cursor and shows
/// the settings: with the cursor on the first choice, Spanish, its Piper voice
/// and its Coqui models (the css10 model first); on the other, English, its
/// Piper voice and its Coqui models (the ljspeech model first).
pub proof fn ley_bienvenida_intro(a: editor::App, b: editor::App, r: editor::Efecto)
    requires
        a.pantalla == editor::Pantalla::Bienvenida,
        editor::tras_tecla(a, b, editor::Tecla::Intro, r),
    ensures
        b.pantalla == editor::Pantalla::Config,
        a.idioma_cursor == 0 ==> b.cfg.idioma@ == "es"@ && b.cfg.piper_modelo@
            == "./piper/es_ES-sharvard-medium.onnx"@ && b.cfg.coqui_modelos@.len() == 2
            && b.cfg.coqui_modelos@[0].nombre@ == "ES · css10 VITS"@,
        a.idioma_cursor != 0 ==> b.cfg.idioma@ == "en"@ && b.cfg.piper_modelo@
            == "./piper/en_US-lessac-medium.onnx"@ && b.cfg.coqui_modelos@.len() == 2
            && b.cfg.coqui_modelos@[0].nombre@ == "EN · ljspeech VITS"@,
{
    reveal_strlit("es");
    reveal_strlit("en");
    assert("es"@[1] != "en"@[1]);
}

/// On the welcome screen, Up then Enter chooses Spanish and Down then Enter
/// chooses English, wherever the cursor was.
pub proof fn ley_bienvenida_arriba_abajo(
    a: editor::App,
    b: editor::App,
    c: editor::App,
    r1: editor::Efecto,
    r2: editor::Efecto,
    t: editor::Tecla,
)
    requires
        a.pantalla == editor::Pantalla::Bienvenida,
        t == editor::Tecla::Arriba || t == editor::Tecla::Abajo,
        editor::tras_tecla(a, b, t, r1),
        editor::tras_tecla(b, c, editor::Tecla::Intro, r2),
    ensures
        t == editor::Tecla::Arriba ==> c.cfg.idioma@ == "es"@ && c.cfg.piper_modelo@
            == "./piper/es_ES-sharvard-medium.onnx"@,
        t == editor::Tecla::Abajo ==> c.cfg.idioma@ == "en"@ && c.cfg.piper_modelo@
            == "./piper/en_US-lessac-medium.onnx"@,
{
    ley_bienvenida_intro(b, c, r2);
}

// ---------------------------------------------------------------------------
// The voice chooser
// ---------------------------------------------------------------------------
/// In the voice chooser, Up moves the cursor to the voice before, and on the
/// first voice leaves it there; nothing else changes, and nothing is left to
/// the caller.
pub proof fn ley_voces_arriba(a: editor::App, b: editor::App, r: editor::Efecto, mv: editor::ModalVoces)
    requires
        a.pantalla != editor::Pantalla::Bienvenida,
        a.modal_voces == Some(mv),
        editor::tras_tecla(a, b, editor::Tecla::Arriba, r),
    ensures
        r == editor::Efecto::Ninguno,
        mv.cursor > 0 ==> b == (editor::App {
            modal_voces: Some(editor::ModalVoces { modelo_idx: mv.modelo_idx, cursor: (mv.cursor - 1) as usize }),
            ..a
        }),
        mv.cursor == 0 ==> b == a,
{
}

/// In the voice chooser, Down moves the cursor to the voice after, and on the
/// last voice leaves it there; nothing else changes.
pub proof fn ley_voces_abajo(a: editor::App, b: editor::App, r: editor::Efecto, mv: editor::ModalVoces)
    requires
        a.pantalla != editor::Pantalla::Bienvenida,
        a.modal_voces == Some(mv),
        mv.modelo_idx < a.cfg.coqui_modelos@.len(),
        editor::tras_tecla(a, b, editor::Tecla::Abajo, r),
    ensures
        r == editor::Efecto::Ninguno,
        mv.cursor + 1 < a.cfg.coqui_modelos@[mv.modelo_idx as int].voces@.len() ==> b == (editor::App {
            modal_voces: Some(editor::ModalVoces { modelo_idx: mv.modelo_idx, cursor: (mv.cursor + 1) as usize }),
            ..a
        }),
        mv.cursor + 1 >= a.cfg.coqui_modelos@[mv.modelo_idx as int].voces@.len() ==> b == a,
{
}

/// In the voice chooser, Down then Up, away from the last voice, and Up then
/// Down, away from the first, come back to the same state.
pub proof fn ley_voces_ida_y_vuelta(
    a: editor::App,
    b: editor::App,
    c: editor::App,
    r1: editor::Efecto,
    r2: editor::Efecto,
    mv: editor::ModalVoces,
    primero_abajo: bool,
)
    requires
        a.pantalla != editor::Pantalla::Bienvenida,
        a.modal_voces == Some(mv),
        mv.modelo_idx < a.cfg.coqui_modelos@.len(),
        mv.cursor < a.cfg.coqui_modelos@[mv.modelo_idx as int].voces@.len(),
        primero_abajo ==> mv.cursor + 1 < a.cfg.coqui_modelos@[mv.modelo_idx as int].voces@.len(),
        !primero_abajo ==> mv.cursor > 0,
        editor::tras_tecla(
            a,
            b,
            if primero_abajo {
                editor::Tecla::Abajo
            } else {
                editor::Tecla::Arriba
            },
            r1,
        ),
        editor::tras_tecla(
            b,
            c,
            if primero_abajo {
                editor::Tecla::Arriba
            } else {
                editor::Tecla::Abajo
            },
            r2,
        ),
    ensures
        c == a,
{
    if primero_abajo {
        assert(a.cfg.coqui_modelos@[mv.modelo_idx as int].voces@.len()
            == a.cfg.coqui_modelos@[mv.modelo_idx as int].voces.len());
        ley_voces_abajo(a, b, r1, mv);
        let mv2 = editor::ModalVoces { modelo_idx: mv.modelo_idx, cursor: (mv.cursor + 1) as usize };
        ley_voces_arriba(b, c, r2, mv2);
    } else {
        ley_voces_arriba(a, b, r1, mv);
        let mv2 = editor::ModalVoces { modelo_idx: mv.modelo_idx, cursor: (mv.cursor - 1) as usize };
        ley_voces_abajo(b, c, r2, mv2);
    }
}

// ---------------------------------------------------------------------------
// What the settings fields show
// ---------------------------------------------------------------------------
/// The decimal notation of a number is made of digits only and reads back as
/// that number.
pub proof fn ley_decimal_ida_y_vuelta(n: nat)
    ensures
        alsa::todas_cifras(texto::decimal(n)),
        alsa::valor_cifras(texto::decimal(n)) == n,
        texto::decimal(n).len() > 0,
    decreases n,
{
    if n < 10 {
        let d = texto::decimal(n);
        assert(d.drop_last() =~= Seq::<char>::empty());
        assert(alsa::valor_cifras(d.drop_last()) == 0);
    } else {
        ley_decimal_ida_y_vuelta(n / 10);
        let p = texto::decimal(n / 10);
        let d = texto::decimal(n);
        assert(d == p.push(texto::cifra((n % 10) as int)));
        assert(d.drop_last() =~= p);
        assert forall|i: int| 0 <= i < d.len() implies alsa::es_cifra(#[trigger] d[i]) by {
            if i < p.len() {
                assert(d[i] == p[i]);
            }
        }
    }
}

/// Each settings field shows its own setting: the user, the channel, the
/// engine and the Piper model as they are, the volume as given, the token as
/// it is while shown, the length limit in decimal digits that read back as it,
/// the sound card by number and by the name it is listed under, and the Coqui
/// model by name with the name of its voice in use.
pub proof fn ley_valor_de_cada_campo(a: editor::App, v: Seq<char>)
    ensures
        editor::valor_de(a, crate::textos::Campo::Usuario, v) == a.cfg.usuario@,
        editor::valor_de(a, crate::textos::Campo::Canal, v) == a.cfg.canal@,
        editor::valor_de(a, crate::textos::Campo::Motor, v) == a.cfg.motor_tts@,
        editor::valor_de(a, crate::textos::Campo::PiperModelo, v) == a.cfg.piper_modelo@,
        editor::valor_de(a, crate::textos::Campo::Volumen, v) == v,
        !a.token_oculto ==> editor::valor_de(a, crate::textos::Campo::Token, v) == a.cfg.token@,
        alsa::todas_cifras(editor::valor_de(a, crate::textos::Campo::LongitudMax, v)),
        alsa::valor_cifras(editor::valor_de(a, crate::textos::Campo::LongitudMax, v))
            == a.cfg.longitud_max,
        editor::valor_de(a, crate::textos::Campo::AnunciarUsuario, v) == if a.cfg.idioma@
            == "en"@ {
            if a.cfg.anunciar_usuario {
                "enabled"@
            } else {
                "disabled"@
            }
        } else {
            if a.cfg.anunciar_usuario {
                "activado"@
            } else {
                "desactivado"@
            }
        },
        ({
            let c = a.cfg;
            c.coqui_modelo_idx < c.coqui_modelos@.len() && c.coqui_modelos@[c.coqui_modelo_idx as int].voz_activa
                < c.coqui_modelos@[c.coqui_modelo_idx as int].voces@.len() ==> editor::valor_de(
                a,
                crate::textos::Campo::CoquiSelector,
                v,
            ) == c.coqui_modelos@[c.coqui_modelo_idx as int].nombre@ + "  ·  "@
                + c.coqui_modelos@[c.coqui_modelo_idx as int].voces@[c.coqui_modelos@[c.coqui_modelo_idx as int].voz_activa as int].nombre@
        }),
{
    ley_decimal_ida_y_vuelta(a.cfg.longitud_max as nat);
}

/// In a list of cards without repeated numbers, the sound card field shows
/// `card`, the card's number, and the name the card is listed under.
pub proof fn ley_valor_tarjeta(a: editor::App, v: Seq<char>, j: int)
    requires
        0 <= j < a.tarjetas_alsa@.len(),
        a.tarjetas_alsa@[j].0 == a.cfg.alsa_card,
        forall|x: int, y: int|
            0 <= x < y < a.tarjetas_alsa@.len() ==> a.tarjetas_alsa@[x].0 != a.tarjetas_alsa@[y].0,
    ensures
        ({
            let shown = editor::valor_de(a, crate::textos::Campo::AlsaCard, v);
            let d = texto::decimal(a.cfg.alsa_card as nat);
            &&& shown == "card"@ + d + "  ("@ + a.tarjetas_alsa@[j].1@ + ")"@
            &&& alsa::todas_cifras(d) && alsa::valor_cifras(d) == a.cfg.alsa_card
        }),
{
    lema_pos_tarjeta(a.tarjetas_alsa@, j, 0);
    ley_decimal_ida_y_vuelta(a.cfg.alsa_card as nat);
}

/// Escape in the voice chooser closes it and changes nothing else.
pub proof fn ley_voces_esc(a: editor::App, b: editor::App, r: editor::Efecto)
    requires
        a.pantalla != editor::Pantalla::Bienvenida,
        a.modal_voces is Some,
        editor::tras_tecla(a, b, editor::Tecla::Esc, r),
    ensures
        r == editor::Efecto::Ninguno,
        b == (editor::App { modal_voces: None, ..a }),
{
}

// ---------------------------------------------------------------------------
// Moving between fields
// ---------------------------------------------------------------------------
/// While moving between fields, Down goes to the next field and Up to the
/// previous one, staying on the last and on the first; each clears the message
/// shown and changes nothing else. So Down then Up, away from the last field,
/// comes back to the same field.
pub proof fn ley_campos_arriba_abajo(
    a: editor::App,
    b: editor::App,
    c: editor::App,
    r1: editor::Efecto,
    r2: editor::Efecto,
)
    requires
        a.pantalla == editor::Pantalla::Config,
        a.modal_voces is None,
        !a.confirmando,
        !a.modo_edicion,
        editor::tras_tecla(a, b, editor::Tecla::Abajo, r1),
        editor::tras_tecla(b, c, editor::Tecla::Arriba, r2),
    ensures
        r1 == editor::Efecto::Ninguno,
        r2 == editor::Efecto::Ninguno,
        a.campo_activo + 1 < crate::textos::NUM_CAMPOS ==> b == (editor::App {
            campo_activo: (a.campo_activo + 1) as usize,
            mensaje: None,
            ..a
        }),
        a.campo_activo + 1 < crate::textos::NUM_CAMPOS ==> c == (editor::App { mensaje: None, ..a }),
        b.campo_activo > 0 ==> c.campo_activo == b.campo_activo - 1,
{
}

// ---------------------------------------------------------------------------
// Reading a chat line
// ---------------------------------------------------------------------------
/// The spaces of two texts put together are those of each.
proof fn lema_espacios_concat(a: Seq<char>, b: Seq<char>)
    ensures
        bot::espacios(a + b) == bot::espacios(a) + bot::espacios(b),
    decreases b.len(),
{
    if b.len() == 0 {
        assert(a + b =~= a);
    } else {
        lema_espacios_concat(a, b.drop_last());
        assert((a + b).drop_last() =~= a + b.drop_last());
    }
}

/// The first pair `a b` at or after `i` is at `k` where it is there and
/// nowhere between `i` and `k`.
proof fn lema_par_primero(s: Seq<char>, a: char, b: char, i: int, k: int)
    requires
        0 <= i <= k,
        k + 1 < s.len(),
        s[k] == a && s[k + 1] == b,
        forall|j: int| i <= j < k ==> !(#[trigger] s[j] == a && s[j + 1] == b),
    ensures
        texto::busca_par_desde(s, a, b, i) == k,
    decreases k - i,
{
    if i < k {
        assert(!(s[i] == a && s[i + 1] == b));
        lema_par_primero(s, a, b, i + 1, k);
    }
}

/// A text without the pair `a b` is searched to its end.
proof fn lema_sin_par(s: Seq<char>, a: char, b: char)
    requires
        forall|j: int| 0 <= j && j + 1 < s.len() ==> !(#[trigger] s[j] == a && s[j + 1] == b),
    ensures
        texto::busca_par_desde(s, a, b, 0) == s.len(),
{
    texto::lema_busca_par_desde(s, a, b, 0);
}

/// A chat line `:<user>!<host> PRIVMSG <channel> :<text>`, as the chat server
/// sends it, gives the sender `<user>` and the message `<text>` (which may hold
/// `!` and `:` anywhere), for a user name without `:`, `!` or spaces, a host
/// without spaces, a channel without spaces or `:`, and a text that holds no
/// ` :` and has no white space at either end.
pub proof fn ley_linea_de_chat(u: Seq<char>, h: Seq<char>, ch: Seq<char>, t: Seq<char>)
    requires
        forall|i: int| 0 <= i < u.len() ==> #[trigger] u[i] != ':' && u[i] != '!' && u[i] != ' ',
        forall|i: int| 0 <= i < h.len() ==> #[trigger] h[i] != ' ',
        forall|i: int| 0 <= i < ch.len() ==> #[trigger] ch[i] != ' ' && ch[i] != ':',
        forall|i: int| 0 <= i && i + 1 < t.len() ==> !(#[trigger] t[i] == ' ' && t[i + 1] == ':'),
        t.len() > 0 ==> !texto::es_espacio(t[0]) && !texto::es_espacio(t[t.len() - 1]),
    ensures
        bot::mensaje_irc(":"@ + u + "!"@ + h + " PRIVMSG "@ + ch + " :"@ + t) == Some((u, t)),
{
    reveal_strlit(":");
    reveal_strlit("!");
    reveal_strlit(" PRIVMSG ");
    reveal_strlit(" :");
    let p = ":"@ + u + "!"@ + h + " PRIVMSG "@ + ch;
    let s = p + " :"@ + t;
    assert(s =~= ":"@ + u + "!"@ + h + " PRIVMSG "@ + ch + " :"@ + t);
    // three spaces at least
    assert(bot::espacios(" PRIVMSG "@) == 2) by {
        reveal_with_fuel(bot::espacios, 10);
    }
    assert(bot::espacios(" :"@) == 1) by {
        reveal_with_fuel(bot::espacios, 3);
    }
    lema_espacios_concat(":"@ + u + "!"@ + h, " PRIVMSG "@);
    lema_espacios_concat(":"@ + u + "!"@ + h + " PRIVMSG "@, ch);
    lema_espacios_concat(p, " :"@);
    lema_espacios_concat(p + " :"@, t);
    assert(bot::espacios(s) >= 3);
    // the separator
    let k = p.len() as int;
    let q = ":"@ + u + "!"@ + h;
    assert forall|j: int| 0 <= j < k implies !(#[trigger] s[j] == ' ' && s[j + 1] == ':') by {
        if s[j] == ' ' {
            if j < q.len() {
                if 1 <= j < 1 + u.len() {
                    assert(s[j] == u[j - 1]);
                } else if 2 + u.len() <= j {
                    assert(s[j] == h[j - 2 - u.len()]);
                }
            } else if j < q.len() + 9 {
                assert(s[j] == " PRIVMSG "@[j - q.len()]);
                if j + 1 < q.len() + 9 {
                    assert(s[j + 1] == " PRIVMSG "@[j + 1 - q.len()]);
                } else if ch.len() > 0 {
                    assert(s[j + 1] == ch[0]);
                } else {
                    assert(s[j + 1] == ' ');
                }
            } else {
                assert(s[j] == ch[j - q.len() - 9]);
            }
        }
    }
    lema_par_primero(s, ' ', ':', 0, k);
    assert(bot::busca_separador(s, 0) == k);
    // the sender
    let fin: int = 1 + u.len() as int;
    assert forall|j: int| 0 <= j < fin implies #[trigger] s[j] != '!' by {
        if j >= 1 {
            assert(s[j] == u[j - 1]);
        } else {
            assert(s[0] == ':');
        }
    }
    assert(s[fin] == '!');
    texto::lema_busca(s, '!');
    assert(texto::busca(s, '!') == fin);
    assert(s.take(fin) =~= seq![':'] + u);
    assert((seq![':'] + u).skip(1) =~= u);
    assert((seq![':'] + u).subrange(0, 1) =~= seq![':']);
    assert(texto::empieza_con(seq![':'] + u, seq![':']));
    if u.len() > 0 {
        assert(u[0] != ':');
        assert(u.subrange(0, 1)[0] == u[0]);
    }
    assert(!texto::empieza_con(u, seq![':']));
    assert(texto::quitar_prefijos(u, seq![':']) == u);
    assert(texto::quitar_prefijos(seq![':'] + u, seq![':']) == texto::quitar_prefijos(u, seq![':']));
    assert(bot::usuario_irc(s) == u);
    // the message
    let r = s.skip(k + 2);
    assert(r =~= t);
    lema_sin_par(t, ' ', ':');
    assert(r.take(bot::busca_separador(r, 0)) =~= t);
    assert(texto::salta_espacios(t, 0) == 0);
    assert(texto::retrocede_espacios(t, 0, t.len() as int) == t.len());
    assert(t.subrange(0, t.len() as int) =~= t);
    assert(bot::texto_irc(s) == t);
}

/// A chat line `:<user>!<host> PRIVMSG <channel> :<text>` that is not a
/// `!volumen` command of the configured user is read aloud exactly when its
/// text is within the length limit, holds no `://` and does not begin with
/// `!`: so `hola a todos!` from another user is read, as `<user> dice hola a
/// todos!` in Spanish where users are announced.
pub proof fn ley_chat_leido(u: Seq<char>, h: Seq<char>, ch: Seq<char>, t: Seq<char>, c: Config)
    requires
        forall|i: int| 0 <= i < u.len() ==> #[trigger] u[i] != ':' && u[i] != '!' && u[i] != ' ',
        forall|i: int| 0 <= i < h.len() ==> #[trigger] h[i] != ' ',
        forall|i: int| 0 <= i < ch.len() ==> #[trigger] ch[i] != ' ' && ch[i] != ':',
        forall|i: int| 0 <= i && i + 1 < t.len() ==> !(#[trigger] t[i] == ' ' && t[i + 1] == ':'),
        t.len() > 0 ==> !texto::es_espacio(t[0]) && !texto::es_espacio(t[t.len() - 1]),
        texto::minusculas(u) != texto::minusculas(c.usuario@) || !texto::empieza_con(
            texto::minusculas(t),
            seq!['!', 'v', 'o', 'l', 'u', 'm', 'e', 'n'],
        ),
    ensures
        ({
            let linea = ":"@ + u + "!"@ + h + " PRIVMSG "@ + ch + " :"@ + t;
            let leido = if !c.anunciar_usuario {
                t
            } else if c.idioma@ == "en"@ {
                u + " says "@ + t
            } else {
                u + " dice "@ + t
            };
            let se_lee = t.len() <= c.longitud_max && (forall|i: int|
                0 <= i && i + 3 <= t.len() ==> #[trigger] t.subrange(i, i + 3) != seq![
                    ':',
                    '/',
                    '/',
                ]) && !(t.len() > 0 && t[0] == '!');
            &&& se_lee ==> bot::veredicto(linea, c) == bot::Veredicto::Leer(leido)
            &&& !se_lee ==> bot::veredicto(linea, c) == bot::Veredicto::Ignorar
        }),
{
    reveal_strlit(":");
    reveal_strlit("!");
    reveal_strlit(" PRIVMSG ");
    reveal_strlit("PRIVMSG");
    reveal_strlit(" :");
    let linea = ":"@ + u + "!"@ + h + " PRIVMSG "@ + ch + " :"@ + t;
    ley_linea_de_chat(u, h, ch, t);
    let q = ":"@ + u + "!"@ + h;
    let w: int = q.len() as int + 1;
    assert(linea.subrange(w, w + 7) =~= "PRIVMSG"@);
    assert(texto::contiene(linea, "PRIVMSG"@));
    assert(linea.subrange(0, 4)[0] == ':');
    assert(!texto::empieza_con(linea, seq!['P', 'I', 'N', 'G']));
    ley_linea_leida_si_y_solo_si(linea, c, u, t);
}

/// A `!volumen` message of the configured user is never read aloud. With a
/// word after `!volumen` it is applied: a leading `+` of that argument raises
/// the volume, a leading `-` lowers it, and otherwise it sets the volume, by
/// the rest of the argument; with nothing after `!volumen` it is dropped.
pub proof fn ley_orden_del_streamer(
    usuario: Seq<char>,
    t: Seq<char>,
    c: Config,
    usuario_minus: Seq<char>,
    texto_minus: Seq<char>,
    streamer_minus: Seq<char>,
    primera_minus: Seq<char>,
)
    requires
        usuario_minus == streamer_minus,
        texto::empieza_con(texto_minus, seq!['!', 'v', 'o', 'l', 'u', 'm', 'e', 'n']),
    ensures
        ({
            let v = bot::veredicto_mensaje(
                usuario,
                t,
                c,
                usuario_minus,
                texto_minus,
                streamer_minus,
                primera_minus,
            );
            let tt = texto::recortar(t);
            let k = texto::busca(tt, ' ');
            let arg = tt.skip(k + 1);
            &&& !(v is Leer)
            &&& k >= tt.len() ==> v == bot::Veredicto::Ignorar
            &&& primera_minus != seq!['!', 'v', 'o', 'l', 'u', 'm', 'e', 'n'] ==> v
                == bot::Veredicto::Ignorar
            &&& (k < tt.len() && primera_minus == seq!['!', 'v', 'o', 'l', 'u', 'm', 'e', 'n'])
                ==> v == if arg.len() > 0 && arg[0] == '+' {
                bot::Veredicto::Volumen(bot::Signo::Subir, arg.drop_first())
            } else if arg.len() > 0 && arg[0] == '-' {
                bot::Veredicto::Volumen(bot::Signo::Bajar, arg.drop_first())
            } else {
                bot::Veredicto::Volumen(bot::Signo::Fijar, arg)
            }
        }),
{
}

/// Leaving the settings: `q` or Escape while moving between fields asks
/// first; then `s`, `y` or Enter leaves and any other key goes back. On the
/// welcome screen `q` or Escape leaves at once.
pub proof fn ley_salir(
    a: editor::App,
    b: editor::App,
    c: editor::App,
    r1: editor::Efecto,
    r2: editor::Efecto,
    t1: editor::Tecla,
    t2: editor::Tecla,
)
    requires
        t1 == editor::Tecla::Esc || t1 == editor::Tecla::Caracter('q', false),
        editor::tras_tecla(a, b, t1, r1),
        editor::tras_tecla(b, c, t2, r2),
        a.modal_voces is None,
        !a.confirmando,
        !a.modo_edicion,
    ensures
        a.pantalla == editor::Pantalla::Bienvenida ==> b == (editor::App { salir: true, ..a }),
        a.pantalla == editor::Pantalla::Config ==> b == (editor::App { confirmando: true, ..a }),
        a.pantalla == editor::Pantalla::Config && (t2 == editor::Tecla::Intro || t2
            == editor::Tecla::Caracter('s', false) || t2 == editor::Tecla::Caracter('y', false))
            ==> c.salir && c.cfg == a.cfg,
        a.pantalla == editor::Pantalla::Config && t2 == editor::Tecla::Abajo ==> !c.salir == !a.salir
            && !c.confirmando && c.cfg == a.cfg,
{
}

} // verus!
