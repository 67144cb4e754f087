use vstd::prelude::*;

use crate::config::Config;
use crate::config::CoquiModelo;
use crate::texto;

verus! {

broadcast use vstd::string::to_string_from_display_ensures_for_str;

// ---------------------------------------------------------------------------
// Chat lines
// ---------------------------------------------------------------------------
/// Number of `' '` in `s`.
pub open spec fn espacios(s: Seq<char>) -> nat
    decreases s.len(),
{
    if s.len() == 0 {
        0
    } else {
        espacios(s.drop_last()) + if s.last() == ' ' {
            1nat
        } else {
            0nat
        }
    }
}

/// Where the first `" :"` of `s` starts at or after `i` (`s.len()` where there is none).
pub open spec fn busca_separador(s: Seq<char>, i: int) -> int {
    texto::busca_par_desde(s, ' ', ':', i)
}

/// The sender of a chat line: what comes before the first `'!'`, without leading `':'`.
pub open spec fn usuario_irc(s: Seq<char>) -> Seq<char> {
    texto::quitar_prefijos(s.take(texto::busca(s, '!')), seq![':'])
}

/// The message of a chat line: the text between its first `" :"` and the next
/// one (or the end), trimmed.
pub open spec fn texto_irc(s: Seq<char>) -> Seq<char> {
    let r = s.skip(busca_separador(s, 0) + 2);
    texto::recortar(r.take(busca_separador(r, 0)))
}

/// Sender and message of a chat line: it needs at least three spaces and a `" :"`.
pub open spec fn mensaje_irc(s: Seq<char>) -> Option<(Seq<char>, Seq<char>)> {
    if espacios(s) < 3 || busca_separador(s, 0) >= s.len() {
        None
    } else {
        Some((usuario_irc(s), texto_irc(s)))
    }
}

/// Counts the spaces of `v`.
fn contar_espacios(v: &Vec<char>) -> (n: usize)
    ensures
        n == espacios(v@),
{
    let mut n: usize = 0;
    let mut i: usize = 0;
    while i < v.len()
        invariant
            i <= v.len(),
            n == espacios(v@.take(i as int)),
            n <= i,
        decreases v.len() - i,
    {
        if v[i] == ' ' {
            n += 1;
        }
        i += 1;
        assert(v@.take(i as int).drop_last() == v@.take(i - 1));
    }
    assert(v@.take(v.len() as int) == v@);
    n
}

/// Sender and message of a chat line of the form `:user!... PRIVMSG #channel :text`;
/// `None` where the line has fewer than three spaces or no `" :"`.
pub fn parsear_mensaje(linea: &str) -> (r: Option<(String, String)>)
    ensures
        match r {
            Some((u, t)) => mensaje_irc(linea@) == Some((u@, t@)),
            None => mensaje_irc(linea@) is None,
        },
{
    let v = texto::caracteres(linea);
    if contar_espacios(&v) < 3 {
        return None;
    }
    let k = texto::buscar_par(&v, ' ', ':');
    if k >= v.len() {
        return None;
    }
    proof {
        texto::lema_busca_par_desde(v@, ' ', ':', 0);
    }
    let fin_usuario = texto::buscar(&v, '!');
    let antes = texto::copiar(&v, 0, fin_usuario);
    assert(antes@ == v@.take(fin_usuario as int));
    let dos_puntos = vec![':'];
    assert(dos_puntos@ == seq![':']);
    let usuario = texto::quitar_prefijos_vec(&antes, &dos_puntos);
    let r = texto::copiar(&v, k + 2, v.len());
    assert(r@ == v@.skip(k + 2));
    let j = texto::buscar_par(&r, ' ', ':');
    let pieza = texto::copiar(&r, 0, j);
    assert(pieza@ == r@.take(j as int));
    let mensaje = texto::recortar_vec(&pieza);
    let u = texto::cadena_de(&usuario);
    let m = texto::cadena_de(&mensaje);
    assert(u@ == usuario_irc(linea@));
    assert(m@ == texto_irc(linea@));
    Some((u, m))
}

// ---------------------------------------------------------------------------
// Volume commands
// ---------------------------------------------------------------------------
/// How a volume command changes the volume.
#[derive(PartialEq, Eq, Structural, Clone, Copy, Debug)]
pub enum Signo {
    /// `!volumen +n`: up by `n` percent.
    Subir,
    /// `!volumen -n`: down by `n` percent.
    Bajar,
    /// `!volumen n`: to `n` percent.
    Fijar,
}

/// A volume command: the change and the text of its number.
pub struct OrdenVolumen {
    pub signo: Signo,
    pub numero: String,
}

/// `!volumen` in lower case.
pub open spec fn palabra_volumen() -> Seq<char> {
    seq!['!', 'v', 'o', 'l', 'u', 'm', 'e', 'n']
}

/// The first word of a message, after trimming (all of it where it has no space).
pub open spec fn primera_palabra(texto: Seq<char>) -> Seq<char> {
    let t = texto::recortar(texto);
    t.take(texto::busca(t, ' '))
}

/// The message, trimmed, has a space after its first word.
pub open spec fn tiene_argumento(texto: Seq<char>) -> bool {
    let t = texto::recortar(texto);
    texto::busca(t, ' ') < t.len()
}

/// All that follows the first space of the trimmed message.
pub open spec fn argumento(texto: Seq<char>) -> Seq<char> {
    let t = texto::recortar(texto);
    t.skip(texto::busca(t, ' ') + 1)
}

/// The command given by a first word already in lower case and its argument:
/// the word must be `!volumen`; a leading `+` or `-` of the argument gives the
/// direction, and the rest is the number.
pub open spec fn orden_de(primera_minus: Seq<char>, arg: Seq<char>) -> Option<(Signo, Seq<char>)> {
    if primera_minus != palabra_volumen() {
        None
    } else if arg.len() > 0 && arg[0] == '+' {
        Some((Signo::Subir, arg.drop_first()))
    } else if arg.len() > 0 && arg[0] == '-' {
        Some((Signo::Bajar, arg.drop_first()))
    } else {
        Some((Signo::Fijar, arg))
    }
}

/// The command in a message `!volumen X`: the first word, in lower case, must
/// be `!volumen`, and `X` (all after the first space) gives the change.
pub open spec fn orden_volumen_de(texto: Seq<char>) -> Option<(Signo, Seq<char>)> {
    if !tiene_argumento(texto) {
        None
    } else {
        orden_de(texto::minusculas(primera_palabra(texto)), argumento(texto))
    }
}

/// The first word of a message, after trimming.
pub fn primera_palabra_de(texto: &str) -> (r: String)
    ensures
        r@ == primera_palabra(texto@),
{
    let v = texto::caracteres(texto);
    let t = texto::recortar_vec(&v);
    let k = texto::buscar(&t, ' ');
    texto::cadena_de(&texto::copiar(&t, 0, k))
}

/// The volume command for a first word already in lower case and its argument.
pub fn orden_de_palabra(primera_minus: &str, arg: &str) -> (r: Option<OrdenVolumen>)
    ensures
        match r {
            Some(o) => orden_de(primera_minus@, arg@) == Some((o.signo, o.numero@)),
            None => orden_de(primera_minus@, arg@) is None,
        },
{
    let palabra = vec!['!', 'v', 'o', 'l', 'u', 'm', 'e', 'n'];
    let palabra_s = texto::cadena_de(&palabra);
    if !texto::iguales(primera_minus, palabra_s.as_str()) {
        return None;
    }
    let a = texto::caracteres(arg);
    if a.len() > 0 && a[0] == '+' {
        let n = texto::copiar(&a, 1, a.len());
        assert(n@ == a@.drop_first());
        Some(OrdenVolumen { signo: Signo::Subir, numero: texto::cadena_de(&n) })
    } else if a.len() > 0 && a[0] == '-' {
        let n = texto::copiar(&a, 1, a.len());
        assert(n@ == a@.drop_first());
        Some(OrdenVolumen { signo: Signo::Bajar, numero: texto::cadena_de(&n) })
    } else {
        Some(OrdenVolumen { signo: Signo::Fijar, numero: texto::cadena_de(&a) })
    }
}

/// The volume command that a chat message holds, if it holds one.
pub fn orden_volumen(texto: &str) -> (r: Option<OrdenVolumen>)
    ensures
        match r {
            Some(o) => orden_volumen_de(texto@) == Some((o.signo, o.numero@)),
            None => orden_volumen_de(texto@) is None,
        },
{
    let v = texto::caracteres(texto);
    let t = texto::recortar_vec(&v);
    let k = texto::buscar(&t, ' ');
    if k >= t.len() {
        return None;
    }
    let primera = primera_palabra_de(texto);
    let minus = primera.as_str().to_lowercase();
    let arg = texto::cadena_de(&texto::copiar(&t, k + 1, t.len()));
    assert(arg@ == argumento(texto@));
    orden_de_palabra(minus.as_str(), arg.as_str())
}

// ---------------------------------------------------------------------------
// What to do with each line from the chat server
// ---------------------------------------------------------------------------
/// What the bot does with one line from the chat server.
pub enum Decision {
    /// Send this text back to the server.
    Responder(String),
    /// Nothing.
    Ignorar,
    /// Apply this volume command.
    Volumen(OrdenVolumen),
    /// Queue this text to be read aloud.
    Leer(String),
}

/// The decision, with its texts as character sequences.
pub enum Veredicto {
    Responder(Seq<char>),
    Ignorar,
    Volumen(Signo, Seq<char>),
    Leer(Seq<char>),
}

impl View for Decision {
    type V = Veredicto;

    open spec fn view(&self) -> Veredicto {
        match self {
            Decision::Responder(t) => Veredicto::Responder(t@),
            Decision::Ignorar => Veredicto::Ignorar,
            Decision::Volumen(o) => Veredicto::Volumen(o.signo, o.numero@),
            Decision::Leer(t) => Veredicto::Leer(t@),
        }
    }
}

/// `s` with every `PING` turned into `PONG`.
pub open spec fn con_pong(s: Seq<char>) -> Seq<char>
    decreases s.len(),
{
    if s.len() == 0 {
        seq![]
    } else if texto::empieza_con(s, seq!['P', 'I', 'N', 'G']) {
        seq!['P', 'O', 'N', 'G'] + con_pong(s.skip(4))
    } else {
        seq![s[0]] + con_pong(s.drop_first())
    }
}

/// The text read aloud for a message, with or without the sender's name.
pub open spec fn anuncio(usuario: Seq<char>, texto: Seq<char>, anunciar: bool, idioma: Seq<char>) -> Seq<
    char,
> {
    if !anunciar {
        texto
    } else if idioma == "en"@ {
        usuario + " says "@ + texto
    } else {
        usuario + " dice "@ + texto
    }
}

/// A message is a volume command from the streamer: it begins, in lower case,
/// with `!volumen`, and its sender is the configured user, in lower case. The
/// texts given are already in lower case.
pub open spec fn es_orden_del_streamer(usuario_minus: Seq<char>, texto_minus: Seq<char>, streamer_minus: Seq<char>) -> bool {
    texto::empieza_con(texto_minus, palabra_volumen()) && usuario_minus == streamer_minus
}

/// A message that is not read aloud: longer than the limit (in characters),
/// with a link in it, or beginning with `!`.
pub open spec fn mensaje_descartado(texto: Seq<char>, longitud_max: usize) -> bool {
    ||| texto.len() > longitud_max
    ||| texto::contiene(texto, seq![':', '/', '/'])
    ||| texto::empieza_con(texto, seq!['!'])
}

/// What the bot does with the message `texto` from `usuario`, given the lower
/// case of the sender, of the message, of the configured user and of the
/// message's first word.
pub open spec fn veredicto_mensaje(
    usuario: Seq<char>,
    texto: Seq<char>,
    c: Config,
    usuario_minus: Seq<char>,
    texto_minus: Seq<char>,
    streamer_minus: Seq<char>,
    primera_minus: Seq<char>,
) -> Veredicto {
    if es_orden_del_streamer(usuario_minus, texto_minus, streamer_minus) {
        if !tiene_argumento(texto) {
            Veredicto::Ignorar
        } else {
            match orden_de(primera_minus, argumento(texto)) {
                Some((signo, numero)) => Veredicto::Volumen(signo, numero),
                None => Veredicto::Ignorar,
            }
        }
    } else if mensaje_descartado(texto, c.longitud_max) {
        Veredicto::Ignorar
    } else {
        Veredicto::Leer(anuncio(usuario, texto, c.anunciar_usuario, c.idioma@))
    }
}

/// What the bot does with a line from the chat server.
pub open spec fn veredicto(linea: Seq<char>, c: Config) -> Veredicto {
    if texto::empieza_con(linea, seq!['P', 'I', 'N', 'G']) {
        Veredicto::Responder(con_pong(linea) + seq!['\r', '\n'])
    } else if !texto::contiene(linea, "PRIVMSG"@) {
        Veredicto::Ignorar
    } else {
        match mensaje_irc(linea) {
            None => Veredicto::Ignorar,
            Some((u, t)) => veredicto_mensaje(
                u,
                t,
                c,
                texto::minusculas(u),
                texto::minusculas(t),
                texto::minusculas(c.usuario@),
                texto::minusculas(primera_palabra(t)),
            ),
        }
    }
}

/// `v` with every `PING` turned into `PONG`.
fn cambiar_ping(v: &Vec<char>) -> (r: Vec<char>)
    ensures
        r@ == con_pong(v@),
{
    let ping = vec!['P', 'I', 'N', 'G'];
    let mut r: Vec<char> = Vec::new();
    let mut i: usize = 0;
    assert(v@.skip(0) == v@);
    while i < v.len()
        invariant
            i <= v.len(),
            ping@ == seq!['P', 'I', 'N', 'G'],
            con_pong(v@) == r@ + con_pong(v@.skip(i as int)),
        decreases v.len() - i,
    {
        let ghost resto = v@.skip(i as int);
        if texto::coincide_en(v, i, &ping) {
            r.push('P');
            r.push('O');
            r.push('N');
            r.push('G');
            assert(resto.skip(4) == v@.skip(i + 4));
            i += 4;
        } else {
            r.push(v[i]);
            assert(resto.drop_first() == v@.skip(i + 1));
            assert(resto[0] == v@[i as int]);
            i += 1;
        }
    }
    assert(v@.skip(i as int) == Seq::<char>::empty());
    r
}

/// The text read aloud for a message.
fn texto_anuncio(usuario: &String, t: &String, anunciar: bool, idioma: &String) -> (r: String)
    ensures
        r@ == anuncio(usuario@, t@, anunciar, idioma@),
{
    if !anunciar {
        return t.clone();
    }
    let mut m = usuario.clone();
    if texto::iguales(idioma.as_str(), "en") {
        texto::agregar_str(&mut m, " says ");
    } else {
        texto::agregar_str(&mut m, " dice ");
    }
    texto::agregar_str(&mut m, t.as_str());
    m
}

/// What the bot does with the message `texto` from `usuario`, given the lower
/// case of the sender, of the message, of the configured user and of the
/// message's first word: applies the streamer's volume commands, and queues
/// the other messages that are short enough, hold no link and are not commands.
pub fn decidir_mensaje(
    usuario: &str,
    texto: &str,
    cfg: &Config,
    usuario_minus: &str,
    texto_minus: &str,
    streamer_minus: &str,
    primera_minus: &str,
) -> (r: Decision)
    ensures
        r@ == veredicto_mensaje(
            usuario@,
            texto@,
            *cfg,
            usuario_minus@,
            texto_minus@,
            streamer_minus@,
            primera_minus@,
        ),
{
    let palabra = vec!['!', 'v', 'o', 'l', 'u', 'm', 'e', 'n'];
    assert(palabra@ == palabra_volumen());
    let tm = texto::caracteres(texto_minus);
    assert(tm@.skip(0) == tm@);
    let es_orden = texto::coincide_en(&tm, 0, &palabra);
    if es_orden && texto::iguales(usuario_minus, streamer_minus) {
        let v = texto::caracteres(texto);
        let t = texto::recortar_vec(&v);
        let k = texto::buscar(&t, ' ');
        if k >= t.len() {
            return Decision::Ignorar;
        }
        let arg = texto::cadena_de(&texto::copiar(&t, k + 1, t.len()));
        assert(arg@ == argumento(texto@));
        return match orden_de_palabra(primera_minus, arg.as_str()) {
            Some(o) => Decision::Volumen(o),
            None => Decision::Ignorar,
        };
    }
    let tv = texto::caracteres(texto);
    let enlace = vec![':', '/', '/'];
    let exclamacion = vec!['!'];
    assert(enlace@ == seq![':', '/', '/']);
    assert(exclamacion@ == seq!['!']);
    assert(tv@.skip(0) == tv@);
    if tv.len() > cfg.longitud_max || texto::contiene_vec(&tv, &enlace) || texto::coincide_en(
        &tv,
        0,
        &exclamacion,
    ) {
        return Decision::Ignorar;
    }
    let u = usuario.to_string();
    let t = texto.to_string();
    Decision::Leer(texto_anuncio(&u, &t, cfg.anunciar_usuario, &cfg.idioma))
}

/// What the bot does with a line from the chat server: answers `PING`,
/// applies the streamer's volume commands, and queues the other chat messages
/// that are short enough, hold no link and are not commands.
pub fn decidir_linea(linea: &str, cfg: &Config) -> (r: Decision)
    ensures
        r@ == veredicto(linea@, *cfg),
{
    let v = texto::caracteres(linea);
    let ping = vec!['P', 'I', 'N', 'G'];
    assert(v@.skip(0) == v@);
    if texto::coincide_en(&v, 0, &ping) {
        let mut r = texto::cadena_de(&cambiar_ping(&v));
        r.push('\r');
        r.push('\n');
        assert(r@ == con_pong(linea@) + seq!['\r', '\n']);
        return Decision::Responder(r);
    }
    let privmsg = texto::caracteres("PRIVMSG");
    if !texto::contiene_vec(&v, &privmsg) {
        return Decision::Ignorar;
    }
    match parsear_mensaje(linea) {
        None => Decision::Ignorar,
        Some((usuario, t)) => {
            let u_min = usuario.as_str().to_lowercase();
            let t_min = t.as_str().to_lowercase();
            let cfg_min = cfg.usuario.as_str().to_lowercase();
            let primera = primera_palabra_de(t.as_str());
            let p_min = primera.as_str().to_lowercase();
            decidir_mensaje(
                usuario.as_str(),
                t.as_str(),
                cfg,
                u_min.as_str(),
                t_min.as_str(),
                cfg_min.as_str(),
                p_min.as_str(),
            )
        },
    }
}

// ---------------------------------------------------------------------------
// Speech engines
// ---------------------------------------------------------------------------
/// The file to which the engines write the speech.
pub open spec fn audio_tmp() -> Seq<char> {
    "/tmp/tts_output.wav"@
}

/// A speech engine tried before the fallback.
#[derive(PartialEq, Eq, Structural, Clone, Copy, Debug)]
pub enum MotorTts {
    Piper,
    Coqui,
}

/// The engine to try first for the configured engine name: `piper` and `coqui`
/// name theirs; any other name goes straight to the fallback.
pub fn primer_motor(motor: &str) -> (r: Option<MotorTts>)
    ensures
        motor@ == "piper"@ ==> r == Some(MotorTts::Piper),
        motor@ == "coqui"@ ==> r == Some(MotorTts::Coqui),
        motor@ != "piper"@ && motor@ != "coqui"@ ==> r is None,
{
    proof {
        reveal_strlit("piper");
        reveal_strlit("coqui");
        assert("coqui"@[0] != "piper"@[0]);
    }
    if texto::iguales(motor, "piper") {
        Some(MotorTts::Piper)
    } else if texto::iguales(motor, "coqui") {
        Some(MotorTts::Coqui)
    } else {
        None
    }
}

/// A step of speaking a text: make the speech with an engine, make it with
/// the gTTS fallback, or play it (`true`: the engine's file; `false`: the
/// fallback's file).
#[derive(PartialEq, Eq, Structural, Clone, Copy, Debug)]
pub enum PasoVoz {
    Generar(MotorTts),
    Respaldo,
    Reproducir(bool),
}

/// The next step of speaking a text, as `siguiente_paso_voz` gives it.
pub open spec fn paso_voz_de(motor: Seq<char>, hecho: Option<(PasoVoz, bool)>) -> PasoVoz {
    match hecho {
        None => if motor == "piper"@ {
            PasoVoz::Generar(MotorTts::Piper)
        } else if motor == "coqui"@ {
            PasoVoz::Generar(MotorTts::Coqui)
        } else {
            PasoVoz::Respaldo
        },
        Some((PasoVoz::Generar(_), ok)) => if ok {
            PasoVoz::Reproducir(true)
        } else {
            PasoVoz::Respaldo
        },
        Some((PasoVoz::Respaldo, _)) => PasoVoz::Reproducir(false),
        Some((PasoVoz::Reproducir(desde_motor), _)) => PasoVoz::Reproducir(desde_motor),
    }
}

/// The next step of speaking a text with the configured engine `motor`, given
/// the step just done and whether it succeeded (`None` at the start): the
/// configured engine first where it is `piper` or `coqui`; the gTTS fallback
/// where there is no such engine or it failed; then playing what was made.
pub fn siguiente_paso_voz(motor: &str, hecho: Option<(PasoVoz, bool)>) -> (r: PasoVoz)
    ensures
        hecho is None && motor@ == "piper"@ ==> r == PasoVoz::Generar(MotorTts::Piper),
        hecho is None && motor@ == "coqui"@ ==> r == PasoVoz::Generar(MotorTts::Coqui),
        hecho is None && motor@ != "piper"@ && motor@ != "coqui"@ ==> r == PasoVoz::Respaldo,
        hecho matches Some((PasoVoz::Generar(_), ok)) ==> r == if ok {
            PasoVoz::Reproducir(true)
        } else {
            PasoVoz::Respaldo
        },
        hecho matches Some((PasoVoz::Respaldo, _)) ==> r == PasoVoz::Reproducir(false),
        hecho matches Some((PasoVoz::Reproducir(desde_motor), _)) ==> r == PasoVoz::Reproducir(
            desde_motor,
        ),
        r == paso_voz_de(motor@, hecho),
{
    match hecho {
        None => match primer_motor(motor) {
            Some(m) => PasoVoz::Generar(m),
            None => PasoVoz::Respaldo,
        },
        Some((PasoVoz::Generar(_), ok)) => if ok {
            PasoVoz::Reproducir(true)
        } else {
            PasoVoz::Respaldo
        },
        Some((PasoVoz::Respaldo, _)) => PasoVoz::Reproducir(false),
        Some((PasoVoz::Reproducir(desde_motor), _)) => PasoVoz::Reproducir(desde_motor),
    }
}

/// `s` with each `'` turned into a space, so that it can stand between quotes.
pub open spec fn sin_comillas(s: Seq<char>) -> Seq<char> {
    s.map_values(|c: char| if c == '\'' { ' ' } else { c })
}

fn quitar_comillas(s: &str) -> (r: Vec<char>)
    ensures
        r@ == sin_comillas(s@),
{
    let v = texto::caracteres(s);
    let mut r: Vec<char> = Vec::new();
    let mut i: usize = 0;
    while i < v.len()
        invariant
            i <= v.len(),
            r@ == sin_comillas(v@.take(i as int)),
        decreases v.len() - i,
    {
        if v[i] == '\'' {
            r.push(' ');
        } else {
            r.push(v[i]);
        }
        i += 1;
        assert(sin_comillas(v@.take(i as int)) == sin_comillas(v@.take(i - 1)).push(
            sin_comillas(v@.take(i as int))[i - 1],
        ));
    }
    assert(v@.take(v.len() as int) == v@);
    r
}

/// The shell command that has Piper, installed in `dir`, speak `texto` with
/// the voice `modelo` into the speech file.
pub open spec fn comando_piper_de(dir: Seq<char>, texto: Seq<char>, modelo: Seq<char>) -> Seq<char> {
    "LD_LIBRARY_PATH=\""@ + dir + "\" echo '"@ + sin_comillas(texto) + "' | \""@ + dir
        + "/piper\" --model \""@ + modelo + "\" --output_file \""@ + audio_tmp()
        + "\" 2>/tmp/piper_err.log"@
}

/// The shell command that runs Piper on `texto`.
pub fn comando_piper(dir: &str, texto: &str, modelo: &str) -> (r: String)
    ensures
        r@ == comando_piper_de(dir@, texto@, modelo@),
{
    let mut c = "LD_LIBRARY_PATH=\"".to_string();
    texto::agregar_str(&mut c, dir);
    texto::agregar_str(&mut c, "\" echo '");
    texto::agregar(&mut c, &quitar_comillas(texto));
    texto::agregar_str(&mut c, "' | \"");
    texto::agregar_str(&mut c, dir);
    texto::agregar_str(&mut c, "/piper\" --model \"");
    texto::agregar_str(&mut c, modelo);
    texto::agregar_str(&mut c, "\" --output_file \"");
    texto::agregar_str(&mut c, "/tmp/tts_output.wav");
    texto::agregar_str(&mut c, "\" 2>/tmp/piper_err.log");
    c
}

/// The arguments of the Coqui `tts` command: text, model and output file, and
/// the reference voice where one is given.
pub open spec fn argumentos_coqui_de(texto: Seq<char>, modelo: Seq<char>, wav: Seq<char>) -> Seq<
    Seq<char>,
> {
    let base = seq![
        "--text"@,
        texto,
        "--model_name"@,
        modelo,
        "--out_path"@,
        audio_tmp(),
    ];
    if wav.len() == 0 {
        base
    } else {
        base + seq!["--speaker_wav"@, wav]
    }
}

/// The texts of a list of strings.
pub open spec fn vista_textos(v: Seq<String>) -> Seq<Seq<char>> {
    v.map_values(|s: String| s@)
}

/// The arguments with which Coqui's `tts` speaks `texto`.
pub fn argumentos_coqui(texto: &str, modelo: &str, speaker_wav: &str) -> (r: Vec<String>)
    ensures
        vista_textos(r@) == argumentos_coqui_de(texto@, modelo@, speaker_wav@),
{
    let mut args: Vec<String> = Vec::new();
    args.push("--text".to_string());
    args.push(texto.to_string());
    args.push("--model_name".to_string());
    args.push(modelo.to_string());
    args.push("--out_path".to_string());
    args.push("/tmp/tts_output.wav".to_string());
    if !speaker_wav.is_empty() {
        args.push("--speaker_wav".to_string());
        args.push(speaker_wav.to_string());
    }
    assert(vista_textos(args@) =~= argumentos_coqui_de(texto@, modelo@, speaker_wav@));
    args
}

/// The Python program that speaks `texto` in language `lang` with gTTS.
pub open spec fn script_gtts_de(texto: Seq<char>, lang: Seq<char>) -> Seq<char> {
    "from gtts import gTTS; gTTS('"@ + sin_comillas(texto) + "', lang='"@ + lang
        + "').save('/tmp/tts_fb.mp3')"@
}

/// The Python program of the gTTS fallback.
pub fn script_gtts(texto: &str, lang: &str) -> (r: String)
    ensures
        r@ == script_gtts_de(texto@, lang@),
{
    let mut c = "from gtts import gTTS; gTTS('".to_string();
    texto::agregar(&mut c, &quitar_comillas(texto));
    texto::agregar_str(&mut c, "', lang='");
    texto::agregar_str(&mut c, lang);
    texto::agregar_str(&mut c, "').save('/tmp/tts_fb.mp3')");
    c
}

/// The Coqui model and reference voice for the bot: those in use, or the
/// English ljspeech model with no voice where no model is in use.
pub open spec fn seleccion_coqui_de(c: Config) -> (Seq<char>, Seq<char>) {
    if c.coqui_modelo_idx < c.coqui_modelos@.len() {
        let m = c.coqui_modelos@[c.coqui_modelo_idx as int];
        (
            m.modelo@,
            if m.voz_activa < m.voces@.len() {
                m.voces@[m.voz_activa as int].speaker_wav@
            } else {
                seq![]
            },
        )
    } else {
        ("tts_models/en/ljspeech/vits"@, seq![])
    }
}

/// The Coqui model and reference voice that the bot speaks with: the model in
/// use and its voice at `voz_activa`.
pub fn seleccion_coqui(cfg: &Config) -> (r: (String, String))
    ensures
        (r.0@, r.1@) == seleccion_coqui_de(*cfg),
        cfg.coqui_modelo_idx < cfg.coqui_modelos@.len() ==> r.0@
            == cfg.coqui_modelos@[cfg.coqui_modelo_idx as int].modelo@,
        cfg.coqui_modelo_idx < cfg.coqui_modelos@.len() && cfg.coqui_modelos@[cfg.coqui_modelo_idx as int].voz_activa
            < cfg.coqui_modelos@[cfg.coqui_modelo_idx as int].voces@.len() ==> r.1@
            == cfg.coqui_modelos@[cfg.coqui_modelo_idx as int].voces@[cfg.coqui_modelos@[cfg.coqui_modelo_idx as int].voz_activa as int].speaker_wav@,
        cfg.coqui_modelo_idx < cfg.coqui_modelos@.len() && cfg.coqui_modelos@[cfg.coqui_modelo_idx as int].voz_activa
            >= cfg.coqui_modelos@[cfg.coqui_modelo_idx as int].voces@.len() ==> r.1@.len() == 0,
        cfg.coqui_modelo_idx >= cfg.coqui_modelos@.len() ==> r.0@ == "tts_models/en/ljspeech/vits"@
            && r.1@.len() == 0,
{
    match cfg.coqui_activo() {
        Some(m) => {
            let wav = match m.voz_actual() {
                Some(v) => v.speaker_wav.clone(),
                None => String::new(),
            };
            (m.modelo.clone(), wav)
        },
        None => ("tts_models/en/ljspeech/vits".to_string(), String::new()),
    }
}

} // verus!
