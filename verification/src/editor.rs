use vstd::prelude::*;

use crate::config;
use crate::config::Config;
use crate::config::CoquiModelo;
use crate::texto;
use crate::textos;
use crate::textos::Campo;
use crate::textos::T;

verus! {

broadcast use vstd::string::to_string_from_display_ensures_for_str;

/// The screen being shown.
#[derive(PartialEq, Eq, Structural, Clone, Copy, Debug)]
pub enum Pantalla {
    /// Choice of language, on a first run.
    Bienvenida,
    /// The settings fields.
    Config,
}

/// The voice chooser of a Coqui model: which model, and the voice under the cursor.
#[derive(PartialEq, Eq, Structural, Clone, Copy, Debug)]
pub struct ModalVoces {
    pub modelo_idx: usize,
    pub cursor: usize,
}

/// A key press, as the settings screen tells keys apart.
#[derive(PartialEq, Eq, Structural, Clone, Copy, Debug)]
pub enum Tecla {
    Arriba,
    Abajo,
    Izquierda,
    Derecha,
    Intro,
    Esc,
    Retroceso,
    Tab,
    TabAtras,
    /// A character, and whether Control was held.
    Caracter(char, bool),
    Otra,
}

/// What the program around the settings screen has to do after a key.
#[derive(PartialEq, Eq, Structural, Clone, Copy, Debug)]
pub enum Efecto {
    Ninguno,
    /// Lower the volume by one step.
    BajarVolumen,
    /// Raise the volume by one step.
    SubirVolumen,
    /// Store the settings, then report with `terminar_guardado`.
    Guardar,
}

/// The state of the settings screen.
pub struct App {
    pub cfg: Config,
    pub pantalla: Pantalla,
    /// 0 for Spanish, 1 for English, on the welcome screen.
    pub idioma_cursor: usize,
    pub campo_activo: usize,
    pub modo_edicion: bool,
    pub token_oculto: bool,
    /// The last message shown, and whether it reports an error.
    pub mensaje: Option<(String, bool)>,
    pub salir: bool,
    pub confirmando: bool,
    pub tarjetas_alsa: Vec<(u8, String)>,
    pub modal_voces: Option<ModalVoces>,
}

// ---------------------------------------------------------------------------
// Specifications
// ---------------------------------------------------------------------------
/// The settings language is English.
pub open spec fn en_ingles(a: App) -> bool {
    textos::es_ingles(a.cfg.idioma@)
}

/// The field under the cursor.
pub open spec fn campo(a: App) -> Campo {
    textos::campo_de(a.campo_activo as int)
}

/// The engine before `m` in the cycle piper, gtts, coqui.
pub open spec fn motor_izq(m: Seq<char>) -> Seq<char> {
    if m == "piper"@ {
        "gtts"@
    } else if m == "gtts"@ {
        "coqui"@
    } else {
        "piper"@
    }
}

/// The engine after `m` in the cycle piper, coqui, gtts.
pub open spec fn motor_der(m: Seq<char>) -> Seq<char> {
    if m == "piper"@ {
        "coqui"@
    } else if m == "coqui"@ {
        "gtts"@
    } else {
        "piper"@
    }
}

/// The position before `i` in a ring of `n` positions.
pub open spec fn anterior(i: int, n: int) -> int {
    if i == 0 {
        n - 1
    } else {
        i - 1
    }
}

/// The position after `i` in a ring of `n` positions.
pub open spec fn siguiente(i: int, n: int) -> int {
    (i + 1) % n
}

/// The first position at or after `i` of card `card` in the list, or its length.
pub open spec fn pos_tarjeta_desde(t: Seq<(u8, String)>, card: u8, i: int) -> int
    decreases t.len() - i,
{
    if i < 0 || i >= t.len() {
        t.len() as int
    } else if t[i].0 == card {
        i
    } else {
        pos_tarjeta_desde(t, card, i + 1)
    }
}

/// The position of card `card` in the list, or 0 where it is not listed.
pub open spec fn idx_tarjeta(t: Seq<(u8, String)>, card: u8) -> int {
    let p = pos_tarjeta_desde(t, card, 0);
    if p < t.len() {
        p
    } else {
        0
    }
}

/// The card before the configured one in the list (cycling), or the configured
/// one where the list is empty.
pub open spec fn tarjeta_izq(t: Seq<(u8, String)>, card: u8) -> u8 {
    if t.len() == 0 {
        card
    } else {
        t[anterior(idx_tarjeta(t, card), t.len() as int)].0
    }
}

/// The card after the configured one in the list (cycling).
pub open spec fn tarjeta_der(t: Seq<(u8, String)>, card: u8) -> u8 {
    if t.len() == 0 {
        card
    } else {
        t[siguiente(idx_tarjeta(t, card), t.len() as int)].0
    }
}

/// The Coqui model index one step back (cycling), unchanged with no models.
pub open spec fn coqui_izq(c: Config) -> usize {
    if c.coqui_modelos@.len() == 0 {
        c.coqui_modelo_idx
    } else {
        anterior(c.coqui_modelo_idx as int, c.coqui_modelos@.len() as int) as usize
    }
}

/// The Coqui model index one step on (cycling), unchanged with no models.
pub open spec fn coqui_der(c: Config) -> usize {
    if c.coqui_modelos@.len() == 0 {
        c.coqui_modelo_idx
    } else {
        siguiente(c.coqui_modelo_idx as int, c.coqui_modelos@.len() as int) as usize
    }
}

/// The message length limit one step down: 10 less, where it is above 10.
pub open spec fn longitud_izq(n: usize) -> usize {
    if n > 10 {
        (n - 10) as usize
    } else {
        n
    }
}

/// The message length limit one step up: 10 more, where it is below 500.
pub open spec fn longitud_der(n: usize) -> usize {
    if n < 500 {
        (n + 10) as usize
    } else {
        n
    }
}

/// `b` is `a` with the field under the cursor moved one step left, and `r` the
/// effect that is left to the caller.
pub open spec fn ajuste_izq(a: App, b: App, r: Efecto) -> bool {
    let c = a.cfg;
    match campo(a) {
        Campo::Volumen => b == a && r == Efecto::BajarVolumen,
        Campo::Motor => r == Efecto::Ninguno && b.cfg.motor_tts@ == motor_izq(c.motor_tts@) && b
            == (App { cfg: Config { motor_tts: b.cfg.motor_tts, ..c }, ..a }),
        Campo::CoquiSelector => r == Efecto::Ninguno && b == (App {
            cfg: Config { coqui_modelo_idx: coqui_izq(c), ..c },
            ..a
        }),
        Campo::LongitudMax => r == Efecto::Ninguno && b == (App {
            cfg: Config { longitud_max: longitud_izq(c.longitud_max), ..c },
            ..a
        }),
        Campo::AlsaCard => r == Efecto::Ninguno && b == (App {
            cfg: Config { alsa_card: tarjeta_izq(a.tarjetas_alsa@, c.alsa_card), ..c },
            ..a
        }),
        Campo::AnunciarUsuario => r == Efecto::Ninguno && b == (App {
            cfg: Config { anunciar_usuario: !c.anunciar_usuario, ..c },
            ..a
        }),
        _ => b == a && r == Efecto::Ninguno,
    }
}

/// `b` is `a` with the field under the cursor moved one step right, and `r` the
/// effect that is left to the caller.
pub open spec fn ajuste_der(a: App, b: App, r: Efecto) -> bool {
    let c = a.cfg;
    match campo(a) {
        Campo::Volumen => b == a && r == Efecto::SubirVolumen,
        Campo::Motor => r == Efecto::Ninguno && b.cfg.motor_tts@ == motor_der(c.motor_tts@) && b
            == (App { cfg: Config { motor_tts: b.cfg.motor_tts, ..c }, ..a }),
        Campo::CoquiSelector => r == Efecto::Ninguno && b == (App {
            cfg: Config { coqui_modelo_idx: coqui_der(c), ..c },
            ..a
        }),
        Campo::LongitudMax => r == Efecto::Ninguno && b == (App {
            cfg: Config { longitud_max: longitud_der(c.longitud_max), ..c },
            ..a
        }),
        Campo::AlsaCard => r == Efecto::Ninguno && b == (App {
            cfg: Config { alsa_card: tarjeta_der(a.tarjetas_alsa@, c.alsa_card), ..c },
            ..a
        }),
        Campo::AnunciarUsuario => r == Efecto::Ninguno && b == (App {
            cfg: Config { anunciar_usuario: !c.anunciar_usuario, ..c },
            ..a
        }),
        _ => b == a && r == Efecto::Ninguno,
    }
}

/// `b` is `a` with the character `ch` typed into the text field under the cursor.
pub open spec fn edicion(a: App, b: App, ch: char) -> bool {
    let c = a.cfg;
    match campo(a) {
        Campo::Usuario => b.cfg.usuario@ == c.usuario@.push(ch) && b == (App {
            cfg: Config { usuario: b.cfg.usuario, ..c },
            ..a
        }),
        Campo::Token => b.cfg.token@ == c.token@.push(ch) && b == (App {
            cfg: Config { token: b.cfg.token, ..c },
            ..a
        }),
        Campo::Canal => b.cfg.canal@ == c.canal@.push(ch) && b == (App {
            cfg: Config { canal: b.cfg.canal, ..c },
            ..a
        }),
        Campo::PiperModelo => b.cfg.piper_modelo@ == c.piper_modelo@.push(ch) && b == (App {
            cfg: Config { piper_modelo: b.cfg.piper_modelo, ..c },
            ..a
        }),
        _ => b == a,
    }
}

/// `s` without its last character, where it has one.
pub open spec fn sin_ultimo(s: Seq<char>) -> Seq<char> {
    if s.len() == 0 {
        s
    } else {
        s.drop_last()
    }
}

/// `b` is `a` with the last character of the text field under the cursor erased.
pub open spec fn borrado(a: App, b: App) -> bool {
    let c = a.cfg;
    match campo(a) {
        Campo::Usuario => b.cfg.usuario@ == sin_ultimo(c.usuario@) && b == (App {
            cfg: Config { usuario: b.cfg.usuario, ..c },
            ..a
        }),
        Campo::Token => b.cfg.token@ == sin_ultimo(c.token@) && b == (App {
            cfg: Config { token: b.cfg.token, ..c },
            ..a
        }),
        Campo::Canal => b.cfg.canal@ == sin_ultimo(c.canal@) && b == (App {
            cfg: Config { canal: b.cfg.canal, ..c },
            ..a
        }),
        Campo::PiperModelo => b.cfg.piper_modelo@ == sin_ultimo(c.piper_modelo@) && b == (App {
            cfg: Config { piper_modelo: b.cfg.piper_modelo, ..c },
            ..a
        }),
        _ => b == a,
    }
}

/// The language code under the cursor of the welcome screen.
pub open spec fn idioma_elegido(cursor: usize) -> Seq<char> {
    if cursor == 0 {
        "es"@
    } else {
        "en"@
    }
}

/// `b` is `a` with the language under the cursor applied and the settings shown.
pub open spec fn idioma_confirmado(a: App, b: App) -> bool {
    &&& config::idioma_aplicado(a.cfg, b.cfg, idioma_elegido(a.idioma_cursor))
    &&& b == (App { cfg: b.cfg, pantalla: Pantalla::Config, ..a })
}

/// The number of voices of model `i`, 0 where there is no such model.
pub open spec fn num_voces(c: Config, i: usize) -> nat {
    if i < c.coqui_modelos@.len() {
        c.coqui_modelos@[i as int].voces@.len()
    } else {
        0
    }
}

/// `b` is `a` with the voice chooser opened on the model in use, its cursor on
/// the voice in use, where that model exists and has voices.
pub open spec fn modal_abierto(a: App, b: App) -> bool {
    let c = a.cfg;
    if num_voces(c, c.coqui_modelo_idx) > 0 {
        b == (App {
            modal_voces: Some(
                ModalVoces {
                    modelo_idx: c.coqui_modelo_idx,
                    cursor: c.coqui_modelos@[c.coqui_modelo_idx as int].voz_activa,
                },
            ),
            ..a
        })
    } else {
        b == a
    }
}

/// `b` is `a` with the voice chooser closed and the voice under its cursor
/// made the model's voice, where the model exists.
pub open spec fn voz_confirmada(a: App, b: App) -> bool {
    match a.modal_voces {
        None => b == a,
        Some(mv) => {
            let c = a.cfg;
            if mv.modelo_idx < c.coqui_modelos@.len() {
                let m = c.coqui_modelos@[mv.modelo_idx as int];
                &&& b.cfg.coqui_modelos@ == c.coqui_modelos@.update(
                    mv.modelo_idx as int,
                    CoquiModelo { voz_activa: mv.cursor, ..m },
                )
                &&& b == (App {
                    cfg: Config { coqui_modelos: b.cfg.coqui_modelos, ..c },
                    modal_voces: None,
                    ..a
                })
            } else {
                b == (App { modal_voces: None, ..a })
            }
        },
    }
}

/// The settings may be stored: there is a user name and the token begins with `oauth:`.
pub open spec fn datos_validos(c: Config) -> bool {
    c.usuario@.len() > 0 && texto::empieza_con(c.token@, "oauth:"@)
}

/// The channel with a leading `#`, added where it is missing.
pub open spec fn canal_con_almohadilla(canal: Seq<char>) -> Seq<char> {
    if texto::empieza_con(canal, seq!['#']) {
        canal
    } else {
        seq!['#'] + canal
    }
}

/// The error shown for an empty user name.
pub open spec fn txt_err_usuario(en: bool) -> Seq<char> {
    textos::segun(en, "⚠  El campo Usuario está vacío"@, "⚠  Username field is empty"@)
}

/// The error shown for a token that does not begin with `oauth:`.
pub open spec fn txt_err_token(en: bool) -> Seq<char> {
    textos::segun(en, "⚠  El token debe empezar por oauth:"@, "⚠  Token must start with oauth:"@)
}

/// The message shown once the settings are stored.
pub open spec fn txt_guardado(en: bool) -> Seq<char> {
    textos::segun(en, "✓  Configuración guardada"@, "✓  Configuration saved"@)
}

/// The message is an error with this text.
pub open spec fn mensaje_error(m: Option<(String, bool)>, t: Seq<char>) -> bool {
    m matches Some(par) && par.0@ == t && par.1
}

/// `b` is `a` after a request to store the settings: with an error message
/// where the user name is empty or the token is wrong, or else with the
/// channel given a leading `#`, ready to be stored.
pub open spec fn guardado_preparado(a: App, b: App) -> bool {
    let c = a.cfg;
    if c.usuario@.len() == 0 {
        mensaje_error(b.mensaje, txt_err_usuario(en_ingles(a))) && b == (App {
            mensaje: b.mensaje,
            ..a
        })
    } else if !texto::empieza_con(c.token@, "oauth:"@) {
        mensaje_error(b.mensaje, txt_err_token(en_ingles(a))) && b == (App {
            mensaje: b.mensaje,
            ..a
        })
    } else {
        b.cfg.canal@ == canal_con_almohadilla(c.canal@) && b == (App {
            cfg: Config { canal: b.cfg.canal, ..c },
            ..a
        })
    }
}

/// The key moves up: the up arrow, `k` or `K`, or Shift-Tab where `con_tab`.
pub open spec fn sube(t: Tecla, con_tab: bool) -> bool {
    ||| t == Tecla::Arriba
    ||| con_tab && t == Tecla::TabAtras
    ||| (t matches Tecla::Caracter(ch, _) && (ch == 'k' || ch == 'K'))
}

/// The key moves down: the down arrow, `j` or `J`, or Tab where `con_tab`.
pub open spec fn baja(t: Tecla, con_tab: bool) -> bool {
    ||| t == Tecla::Abajo
    ||| con_tab && t == Tecla::Tab
    ||| (t matches Tecla::Caracter(ch, _) && (ch == 'j' || ch == 'J'))
}

/// The key is Enter or the space bar.
pub open spec fn elige(t: Tecla) -> bool {
    t == Tecla::Intro || t matches Tecla::Caracter(' ', _)
}

/// The key is `q` or Escape.
pub open spec fn cancela(t: Tecla) -> bool {
    t == Tecla::Esc || t matches Tecla::Caracter('q', _)
}

/// The key confirms leaving: `s`, `S`, `y`, `Y` or Enter.
pub open spec fn afirma(t: Tecla) -> bool {
    ||| t == Tecla::Intro
    ||| (t matches Tecla::Caracter(ch, _) && (ch == 's' || ch == 'S' || ch == 'y' || ch == 'Y'))
}

/// What a key does on the welcome screen.
pub open spec fn tecla_bienvenida(a: App, b: App, t: Tecla) -> bool {
    if sube(t, false) {
        b == (App { idioma_cursor: 0, ..a })
    } else if baja(t, false) {
        b == (App { idioma_cursor: 1, ..a })
    } else if elige(t) {
        idioma_confirmado(a, b)
    } else if cancela(t) {
        b == (App { salir: true, ..a })
    } else {
        b == a
    }
}

/// What a key does in the voice chooser `mv`.
pub open spec fn tecla_voces(a: App, b: App, t: Tecla, mv: ModalVoces) -> bool {
    let n = num_voces(a.cfg, mv.modelo_idx);
    if t == Tecla::Esc {
        b == (App { modal_voces: None, ..a })
    } else if t == Tecla::Intro {
        voz_confirmada(a, b)
    } else if sube(t, false) {
        b == (App {
            modal_voces: Some(
                ModalVoces {
                    cursor: if mv.cursor > 0 {
                        (mv.cursor - 1) as usize
                    } else {
                        mv.cursor
                    },
                    ..mv
                },
            ),
            ..a
        })
    } else if baja(t, false) {
        b == (App {
            modal_voces: Some(
                ModalVoces {
                    cursor: if mv.cursor + 1 < n {
                        (mv.cursor + 1) as usize
                    } else {
                        mv.cursor
                    },
                    ..mv
                },
            ),
            ..a
        })
    } else {
        b == a
    }
}

/// What a key does while asking whether to leave.
pub open spec fn tecla_salida(a: App, b: App, t: Tecla) -> bool {
    if afirma(t) {
        b == (App { salir: true, ..a })
    } else {
        b == (App { confirmando: false, ..a })
    }
}

/// What a key does while a text field is being typed into.
pub open spec fn tecla_edicion(a: App, b: App, t: Tecla) -> bool {
    match t {
        Tecla::Esc => b == (App { modo_edicion: false, ..a }),
        Tecla::Intro => b == (App { modo_edicion: false, ..a }),
        Tecla::Caracter(ch, _) => edicion(a, b, ch),
        Tecla::Retroceso => borrado(a, b),
        _ => b == a,
    }
}

/// What Enter or the space bar does on the field under the cursor: the voice
/// chooser for the Coqui selector, typing for the text fields, nothing otherwise.
pub open spec fn eleccion_campo(a: App, b: App) -> bool {
    match campo(a) {
        Campo::Volumen => b == a,
        Campo::Motor => b == a,
        Campo::LongitudMax => b == a,
        Campo::AlsaCard => b == a,
        Campo::AnunciarUsuario => b == a,
        Campo::CoquiSelector => modal_abierto(a, b),
        _ => b == (App { modo_edicion: true, ..a }),
    }
}

/// What a key does while moving between fields; `r` is the effect left to the caller.
pub open spec fn tecla_navegacion(a: App, b: App, t: Tecla, r: Efecto) -> bool {
    if sube(t, true) {
        r == Efecto::Ninguno && b == (App {
            campo_activo: if a.campo_activo > 0 {
                (a.campo_activo - 1) as usize
            } else {
                0
            },
            mensaje: None,
            ..a
        })
    } else if baja(t, true) {
        r == Efecto::Ninguno && b == (App {
            campo_activo: if a.campo_activo + 1 < textos::NUM_CAMPOS {
                (a.campo_activo + 1) as usize
            } else {
                (textos::NUM_CAMPOS - 1) as usize
            },
            mensaje: None,
            ..a
        })
    } else if t == Tecla::Izquierda {
        b.mensaje is None && ajuste_izq(a, App { mensaje: a.mensaje, ..b }, r)
    } else if t == Tecla::Derecha {
        b.mensaje is None && ajuste_der(a, App { mensaje: a.mensaje, ..b }, r)
    } else if elige(t) {
        r == Efecto::Ninguno && eleccion_campo(a, b)
    } else if (t == Tecla::Caracter('t', false) || t == Tecla::Caracter('t', true) || t
        == Tecla::Caracter('T', false) || t == Tecla::Caracter('T', true)) && campo(a)
        == Campo::Token {
        r == Efecto::Ninguno && b == (App { token_oculto: !a.token_oculto, ..a })
    } else if t == Tecla::Caracter('s', true) {
        guardado_preparado(a, b) && r == if datos_validos(a.cfg) {
            Efecto::Guardar
        } else {
            Efecto::Ninguno
        }
    } else if cancela(t) {
        r == Efecto::Ninguno && b == (App { confirmando: true, ..a })
    } else {
        r == Efecto::Ninguno && b == a
    }
}

/// What a key `t` does to the settings screen `a`, giving `b` and leaving the
/// effect `r` to the caller.
pub open spec fn tras_tecla(a: App, b: App, t: Tecla, r: Efecto) -> bool {
    if a.pantalla == Pantalla::Bienvenida {
        r == Efecto::Ninguno && tecla_bienvenida(a, b, t)
    } else if a.modal_voces is Some {
        r == Efecto::Ninguno && tecla_voces(a, b, t, a.modal_voces->0)
    } else if a.confirmando {
        r == Efecto::Ninguno && tecla_salida(a, b, t)
    } else if a.modo_edicion {
        r == Efecto::Ninguno && tecla_edicion(a, b, t)
    } else {
        tecla_navegacion(a, b, t, r)
    }
}

/// The label of the Coqui selector: the model's name, with its voice where it
/// has voices (`?` where none is chosen), or `(—)` where no model is in use.
pub open spec fn etiqueta_coqui(c: Config) -> Seq<char> {
    if c.coqui_modelo_idx < c.coqui_modelos@.len() {
        let m = c.coqui_modelos@[c.coqui_modelo_idx as int];
        if m.voces@.len() == 0 {
            m.nombre@
        } else {
            m.nombre@ + "  ·  "@ + if m.voz_activa < m.voces@.len() {
                m.voces@[m.voz_activa as int].nombre@
            } else {
                "?"@
            }
        }
    } else {
        "(—)"@
    }
}

/// `n` bullets.
pub open spec fn puntos(n: nat) -> Seq<char> {
    Seq::new(n, |i: int| '•')
}

/// How the token is shown: one bullet per byte, at most 32, while hidden.
pub open spec fn token_mostrado(token: Seq<char>, oculto: bool) -> Seq<char> {
    let b = vstd::utf8::encode_utf8(token).len() as usize;
    if oculto {
        puntos(
            if b < 32 {
                b as nat
            } else {
                32
            },
        )
    } else {
        token
    }
}

/// The name of card `card` in the list, or `?` where it is not listed.
pub open spec fn nombre_tarjeta_cfg(t: Seq<(u8, String)>, card: u8) -> Seq<char> {
    let p = pos_tarjeta_desde(t, card, 0);
    if p < t.len() {
        t[p].1@
    } else {
        "?"@
    }
}

/// The value shown for field `c`; `vol` is the text of the volume.
pub open spec fn valor_de(a: App, c: Campo, vol: Seq<char>) -> Seq<char> {
    let cfg = a.cfg;
    match c {
        Campo::Usuario => cfg.usuario@,
        Campo::Token => token_mostrado(cfg.token@, a.token_oculto),
        Campo::Canal => cfg.canal@,
        Campo::Volumen => vol,
        Campo::Motor => cfg.motor_tts@,
        Campo::PiperModelo => cfg.piper_modelo@,
        Campo::CoquiSelector => etiqueta_coqui(cfg),
        Campo::LongitudMax => texto::decimal(cfg.longitud_max as nat),
        Campo::AlsaCard => "card"@ + texto::decimal(cfg.alsa_card as nat) + "  ("@
            + nombre_tarjeta_cfg(a.tarjetas_alsa@, cfg.alsa_card) + ")"@,
        Campo::AnunciarUsuario => if cfg.anunciar_usuario {
            textos::segun(en_ingles(a), "activado"@, "enabled"@)
        } else {
            textos::segun(en_ingles(a), "desactivado"@, "disabled"@)
        },
    }
}

/// The number of bytes of `c` in UTF-8.
pub open spec fn ancho_utf8(c: char) -> nat {
    let u = c as u32;
    if u < 0x80 {
        1
    } else if u < 0x800 {
        2
    } else if u < 0x10000 {
        3
    } else {
        4
    }
}

/// The number of bytes of `s` in UTF-8.
pub open spec fn bytes_utf8(s: Seq<char>) -> nat
    decreases s.len(),
{
    if s.len() == 0 {
        0
    } else {
        bytes_utf8(s.drop_last()) + ancho_utf8(s.last())
    }
}

/// Going on from `k`, the number of leading characters of `s` that fit in 21 bytes.
pub open spec fn prefijo_que_cabe(s: Seq<char>, k: int) -> int
    decreases s.len() - k,
{
    if 0 <= k < s.len() && bytes_utf8(s.take(k + 1)) <= 21 {
        prefijo_que_cabe(s, k + 1)
    } else {
        k
    }
}

/// A value as the field list shows it: one longer than 22 bytes is cut to the
/// characters that fit in its first 21 bytes, followed by `…`.
pub open spec fn valor_truncado(s: Seq<char>) -> Seq<char> {
    if bytes_utf8(s) > 22 {
        s.take(prefijo_que_cabe(s, 0)).push('…')
    } else {
        s
    }
}

/// The cursor is on one of the fields.
pub open spec fn bien_formada(a: App) -> bool {
    a.campo_activo < textos::NUM_CAMPOS
}

// ---------------------------------------------------------------------------
// Executable state changes
// ---------------------------------------------------------------------------
/// Whether `m` is the text `lit`.
fn es_motor(m: &String, lit: &str) -> (r: bool)
    ensures
        r == (m@ == lit@),
{
    texto::iguales(m.as_str(), lit)
}

impl App {
    /// The settings screen for the stored settings `cfg` and the sound cards
    /// found: the welcome screen where no language was chosen yet.
    pub fn nueva(cfg: Config, tarjetas_alsa: Vec<(u8, String)>) -> (a: App)
        ensures
            a.cfg == cfg,
            a.tarjetas_alsa == tarjetas_alsa,
            a.pantalla == if cfg.idioma@.len() == 0 {
                Pantalla::Bienvenida
            } else {
                Pantalla::Config
            },
            a.idioma_cursor == 0,
            a.campo_activo == 0,
            !a.modo_edicion,
            a.token_oculto,
            a.mensaje is None,
            !a.salir,
            !a.confirmando,
            a.modal_voces is None,
            bien_formada(a),
    {
        let pantalla = if cfg.es_primera_vez() {
            Pantalla::Bienvenida
        } else {
            Pantalla::Config
        };
        App {
            cfg,
            pantalla,
            idioma_cursor: 0,
            campo_activo: 0,
            modo_edicion: false,
            token_oculto: true,
            mensaje: None,
            salir: false,
            confirmando: false,
            tarjetas_alsa,
            modal_voces: None,
        }
    }

    /// The settings language.
    pub fn idioma(&self) -> (r: &str)
        ensures
            r@ == self.cfg.idioma@,
    {
        self.cfg.idioma.as_str()
    }

    /// Applies the language under the cursor and shows the settings: Spanish,
    /// with its Piper voice and Coqui models, under the first choice, English
    /// under the other.
    pub fn confirmar_idioma(&mut self)
        ensures
            idioma_confirmado(*old(self), *final(self)),
            final(self).pantalla == Pantalla::Config,
            old(self).idioma_cursor == 0 ==> final(self).cfg.idioma@ == "es"@
                && final(self).cfg.piper_modelo@ == "./piper/es_ES-sharvard-medium.onnx"@
                && config::son_modelos_es(final(self).cfg.coqui_modelos@),
            old(self).idioma_cursor != 0 ==> final(self).cfg.idioma@ == "en"@
                && final(self).cfg.piper_modelo@ == "./piper/en_US-lessac-medium.onnx"@
                && config::son_modelos_en(final(self).cfg.coqui_modelos@),
    {
        proof {
            reveal_strlit("es");
            reveal_strlit("en");
            assert("es"@[1] != "en"@[1]);
        }
        let idioma = if self.idioma_cursor == 0 {
            "es"
        } else {
            "en"
        };
        self.cfg.aplicar_idioma(idioma);
        self.pantalla = Pantalla::Config;
    }

    /// The field under the cursor.
    pub fn campo_actual(&self) -> (c: Campo)
        requires
            bien_formada(*self),
        ensures
            c == campo(*self),
    {
        textos::campo_en(self.campo_activo)
    }

    /// Moves to the previous Coqui model, cycling.
    pub fn coqui_modelo_prev(&mut self)
        ensures
            *final(self) == (App {
                cfg: Config { coqui_modelo_idx: coqui_izq(old(self).cfg), ..old(self).cfg },
                ..*old(self)
            }),
    {
        if self.cfg.coqui_modelos.len() == 0 {
            return;
        }
        if self.cfg.coqui_modelo_idx == 0 {
            self.cfg.coqui_modelo_idx = self.cfg.coqui_modelos.len() - 1;
        } else {
            self.cfg.coqui_modelo_idx = self.cfg.coqui_modelo_idx - 1;
        }
    }

    /// Moves to the next Coqui model, cycling.
    pub fn coqui_modelo_next(&mut self)
        ensures
            *final(self) == (App {
                cfg: Config { coqui_modelo_idx: coqui_der(old(self).cfg), ..old(self).cfg },
                ..*old(self)
            }),
    {
        let n = self.cfg.coqui_modelos.len();
        if n == 0 {
            return;
        }
        let i = self.cfg.coqui_modelo_idx;
        let r = i % n;
        let nuevo = if r + 1 == n {
            0
        } else {
            r + 1
        };
        proof {
            lema_siguiente(i as int, n as int);
        }
        self.cfg.coqui_modelo_idx = nuevo;
    }

    /// Opens the voice chooser on the model in use, where it has voices.
    pub fn abrir_modal_voces(&mut self)
        ensures
            modal_abierto(*old(self), *final(self)),
    {
        let idx = self.cfg.coqui_modelo_idx;
        if idx < self.cfg.coqui_modelos.len() {
            let n = self.cfg.coqui_modelos[idx].voces.len();
            if n > 0 {
                let cursor = self.cfg.coqui_modelos[idx].voz_activa;
                self.modal_voces = Some(ModalVoces { modelo_idx: idx, cursor });
            }
        }
    }

    /// Closes the voice chooser, making the voice under its cursor the model's voice.
    pub fn confirmar_voz(&mut self)
        ensures
            voz_confirmada(*old(self), *final(self)),
    {
        match self.modal_voces {
            None => {},
            Some(mv) => {
                self.modal_voces = None;
                if mv.modelo_idx < self.cfg.coqui_modelos.len() {
                    let ghost antes = self.cfg.coqui_modelos@;
                    let mut modelo = self.cfg.coqui_modelos.remove(mv.modelo_idx);
                    modelo.voz_activa = mv.cursor;
                    self.cfg.coqui_modelos.insert(mv.modelo_idx, modelo);
                    assert(self.cfg.coqui_modelos@ == antes.update(
                        mv.modelo_idx as int,
                        CoquiModelo { voz_activa: mv.cursor, ..antes[mv.modelo_idx as int] },
                    ));
                }
            },
        }
    }

    /// Types `c` into the text field under the cursor.
    pub fn editar_char(&mut self, c: char)
        requires
            bien_formada(*old(self)),
        ensures
            edicion(*old(self), *final(self), c),
    {
        match self.campo_actual() {
            Campo::Usuario => self.cfg.usuario.push(c),
            Campo::Token => self.cfg.token.push(c),
            Campo::Canal => self.cfg.canal.push(c),
            Campo::PiperModelo => self.cfg.piper_modelo.push(c),
            _ => {},
        }
    }

    /// Erases the last character of the text field under the cursor.
    pub fn borrar_char(&mut self)
        requires
            bien_formada(*old(self)),
        ensures
            borrado(*old(self), *final(self)),
    {
        match self.campo_actual() {
            Campo::Usuario => {
                self.cfg.usuario.pop();
            },
            Campo::Token => {
                self.cfg.token.pop();
            },
            Campo::Canal => {
                self.cfg.canal.pop();
            },
            Campo::PiperModelo => {
                self.cfg.piper_modelo.pop();
            },
            _ => {},
        }
    }

    /// The position of the configured card in the list, or 0.
    fn indice_tarjeta(&self) -> (r: usize)
        ensures
            r == idx_tarjeta(self.tarjetas_alsa@, self.cfg.alsa_card),
            self.tarjetas_alsa@.len() > 0 ==> r < self.tarjetas_alsa@.len(),
    {
        let mut i: usize = 0;
        while i < self.tarjetas_alsa.len()
            invariant
                i <= self.tarjetas_alsa@.len(),
                pos_tarjeta_desde(self.tarjetas_alsa@, self.cfg.alsa_card, i as int)
                    == pos_tarjeta_desde(self.tarjetas_alsa@, self.cfg.alsa_card, 0),
            decreases self.tarjetas_alsa.len() - i,
        {
            if self.tarjetas_alsa[i].0 == self.cfg.alsa_card {
                return i;
            }
            i += 1;
        }
        0
    }

    /// Moves the field under the cursor one step left; the volume is left to
    /// the caller, which the result asks to lower it.
    pub fn ajustar_izq(&mut self) -> (r: Efecto)
        requires
            bien_formada(*old(self)),
        ensures
            ajuste_izq(*old(self), *final(self), r),
    {
        match self.campo_actual() {
            Campo::Volumen => Efecto::BajarVolumen,
            Campo::Motor => {
                let nuevo = if es_motor(&self.cfg.motor_tts, "piper") {
                    "gtts"
                } else if es_motor(&self.cfg.motor_tts, "gtts") {
                    "coqui"
                } else {
                    "piper"
                };
                self.cfg.motor_tts = nuevo.to_string();
                Efecto::Ninguno
            },
            Campo::CoquiSelector => {
                self.coqui_modelo_prev();
                Efecto::Ninguno
            },
            Campo::LongitudMax => {
                if self.cfg.longitud_max > 10 {
                    self.cfg.longitud_max = self.cfg.longitud_max - 10;
                }
                Efecto::Ninguno
            },
            Campo::AlsaCard => {
                if self.tarjetas_alsa.len() > 0 {
                    let idx = self.indice_tarjeta();
                    let nuevo = if idx == 0 {
                        self.tarjetas_alsa.len() - 1
                    } else {
                        idx - 1
                    };
                    self.cfg.alsa_card = self.tarjetas_alsa[nuevo].0;
                }
                Efecto::Ninguno
            },
            Campo::AnunciarUsuario => {
                self.cfg.anunciar_usuario = !self.cfg.anunciar_usuario;
                Efecto::Ninguno
            },
            _ => Efecto::Ninguno,
        }
    }

    /// Moves the field under the cursor one step right; the volume is left to
    /// the caller, which the result asks to raise it.
    pub fn ajustar_der(&mut self) -> (r: Efecto)
        requires
            bien_formada(*old(self)),
        ensures
            ajuste_der(*old(self), *final(self), r),
    {
        match self.campo_actual() {
            Campo::Volumen => Efecto::SubirVolumen,
            Campo::Motor => {
                let nuevo = if es_motor(&self.cfg.motor_tts, "piper") {
                    "coqui"
                } else if es_motor(&self.cfg.motor_tts, "coqui") {
                    "gtts"
                } else {
                    "piper"
                };
                self.cfg.motor_tts = nuevo.to_string();
                Efecto::Ninguno
            },
            Campo::CoquiSelector => {
                self.coqui_modelo_next();
                Efecto::Ninguno
            },
            Campo::LongitudMax => {
                if self.cfg.longitud_max < 500 {
                    self.cfg.longitud_max = self.cfg.longitud_max + 10;
                }
                Efecto::Ninguno
            },
            Campo::AlsaCard => {
                if self.tarjetas_alsa.len() > 0 {
                    let idx = self.indice_tarjeta();
                    let n = self.tarjetas_alsa.len();
                    let nuevo = if idx + 1 == n {
                        0
                    } else {
                        idx + 1
                    };
                    assert(nuevo == siguiente(idx as int, n as int)) by (nonlinear_arith)
                        requires
                            idx < n,
                            nuevo == if idx + 1 == n {
                                0
                            } else {
                                idx + 1
                            },
                    ;
                    self.cfg.alsa_card = self.tarjetas_alsa[nuevo].0;
                }
                Efecto::Ninguno
            },
            Campo::AnunciarUsuario => {
                self.cfg.anunciar_usuario = !self.cfg.anunciar_usuario;
                Efecto::Ninguno
            },
            _ => Efecto::Ninguno,
        }
    }

    /// Checks the settings before they are stored: an error message where the
    /// user name is empty or the token does not begin with `oauth:`; otherwise
    /// the channel gets a leading `#` and the result says to store them.
    pub fn preparar_guardado(&mut self) -> (r: bool)
        ensures
            guardado_preparado(*old(self), *final(self)),
            r == datos_validos(old(self).cfg),
    {
        if self.cfg.usuario.as_str().is_empty() {
            let t = T { es: "⚠  El campo Usuario está vacío", en: "⚠  Username field is empty" };
            self.mensaje = Some((t.get(self.cfg.idioma.as_str()).to_string(), true));
            return false;
        }
        if !texto::empieza_str(self.cfg.token.as_str(), "oauth:") {
            let t = T {
                es: "⚠  El token debe empezar por oauth:",
                en: "⚠  Token must start with oauth:",
            };
            self.mensaje = Some((t.get(self.cfg.idioma.as_str()).to_string(), true));
            return false;
        }
        proof {
            reveal_strlit("#");
            assert("#"@ =~= seq!['#']);
        }
        if !texto::empieza_str(self.cfg.canal.as_str(), "#") {
            let mut canal = "#".to_string();
            texto::agregar_str(&mut canal, self.cfg.canal.as_str());
            self.cfg.canal = canal;
        }
        true
    }

    /// The label of the Coqui selector.
    pub fn coqui_label(&self) -> (r: String)
        ensures
            r@ == etiqueta_coqui(self.cfg),
    {
        match self.cfg.coqui_activo() {
            None => "(—)".to_string(),
            Some(m) => {
                if m.voces.len() == 0 {
                    m.nombre.clone()
                } else {
                    let voz = match m.voz_actual() {
                        Some(v) => v.nombre.as_str(),
                        None => "?",
                    };
                    let mut r = m.nombre.clone();
                    texto::agregar_str(&mut r, "  ·  ");
                    texto::agregar_str(&mut r, voz);
                    r
                }
            },
        }
    }

    /// The value shown for field `c`, with `volumen` the text of the volume:
    /// each text field shows its own setting.
    pub fn valor_campo(&self, c: Campo, volumen: &str) -> (r: String)
        ensures
            r@ == valor_de(*self, c, volumen@),
            c == Campo::Usuario ==> r@ == self.cfg.usuario@,
            c == Campo::Canal ==> r@ == self.cfg.canal@,
            c == Campo::Motor ==> r@ == self.cfg.motor_tts@,
            c == Campo::PiperModelo ==> r@ == self.cfg.piper_modelo@,
            c == Campo::Volumen ==> r@ == volumen@,
            c == Campo::Token && !self.token_oculto ==> r@ == self.cfg.token@,
    {
        match c {
            Campo::Usuario => self.cfg.usuario.clone(),
            Campo::Token => {
                if self.token_oculto {
                    let b = self.cfg.token.as_str().len();
                    let n = if b < 32 {
                        b
                    } else {
                        32
                    };
                    let mut r = String::new();
                    let mut i: usize = 0;
                    while i < n
                        invariant
                            i <= n,
                            r@ == puntos(i as nat),
                        decreases n - i,
                    {
                        r.push('•');
                        i += 1;
                        assert(r@ == puntos(i as nat));
                    }
                    r
                } else {
                    self.cfg.token.clone()
                }
            },
            Campo::Canal => self.cfg.canal.clone(),
            Campo::Volumen => volumen.to_string(),
            Campo::Motor => self.cfg.motor_tts.clone(),
            Campo::PiperModelo => self.cfg.piper_modelo.clone(),
            Campo::CoquiSelector => self.coqui_label(),
            Campo::LongitudMax => {
                let mut r = String::new();
                texto::agregar_decimal(&mut r, self.cfg.longitud_max as u64);
                assert(r@ == texto::decimal(self.cfg.longitud_max as nat));
                r
            },
            Campo::AlsaCard => {
                let mut i: usize = 0;
                while i < self.tarjetas_alsa.len() && self.tarjetas_alsa[i].0 != self.cfg.alsa_card
                    invariant
                        i <= self.tarjetas_alsa@.len(),
                        pos_tarjeta_desde(self.tarjetas_alsa@, self.cfg.alsa_card, i as int)
                            == pos_tarjeta_desde(self.tarjetas_alsa@, self.cfg.alsa_card, 0),
                    decreases self.tarjetas_alsa.len() - i,
                {
                    i += 1;
                }
                let nombre = if i < self.tarjetas_alsa.len() {
                    self.tarjetas_alsa[i].1.as_str()
                } else {
                    "?"
                };
                let mut r = "card".to_string();
                texto::agregar_decimal(&mut r, self.cfg.alsa_card as u64);
                texto::agregar_str(&mut r, "  (");
                texto::agregar_str(&mut r, nombre);
                texto::agregar_str(&mut r, ")");
                r
            },
            Campo::AnunciarUsuario => {
                let t = if self.cfg.anunciar_usuario {
                    T { es: "activado", en: "enabled" }
                } else {
                    T { es: "desactivado", en: "disabled" }
                };
                t.get(self.cfg.idioma.as_str()).to_string()
            },
        }
    }

    /// Handles a key press, leaving to the caller the volume steps and the
    /// storing of the settings that the result asks for.
    pub fn tecla(&mut self, t: Tecla) -> (r: Efecto)
        requires
            bien_formada(*old(self)),
        ensures
            tras_tecla(*old(self), *final(self), t, r),
            bien_formada(*final(self)),
    {
        if self.pantalla == Pantalla::Bienvenida {
            if es_sube(t, false) {
                self.idioma_cursor = 0;
            } else if es_baja(t, false) {
                self.idioma_cursor = 1;
            } else if es_elige(t) {
                self.confirmar_idioma();
            } else if es_cancela(t) {
                self.salir = true;
            }
            return Efecto::Ninguno;
        }
        match self.modal_voces {
            Some(mv) => {
                let n = if mv.modelo_idx < self.cfg.coqui_modelos.len() {
                    self.cfg.coqui_modelos[mv.modelo_idx].voces.len()
                } else {
                    0
                };
                if t == Tecla::Esc {
                    self.modal_voces = None;
                } else if t == Tecla::Intro {
                    self.confirmar_voz();
                } else if es_sube(t, false) {
                    if mv.cursor > 0 {
                        self.modal_voces = Some(ModalVoces { cursor: mv.cursor - 1, ..mv });
                    }
                } else if es_baja(t, false) {
                    if n > 0 && mv.cursor < n - 1 {
                        self.modal_voces = Some(ModalVoces { cursor: mv.cursor + 1, ..mv });
                    }
                }
                return Efecto::Ninguno;
            },
            None => {},
        }
        if self.confirmando {
            if es_afirma(t) {
                self.salir = true;
            } else {
                self.confirmando = false;
            }
            return Efecto::Ninguno;
        }
        if self.modo_edicion {
            match t {
                Tecla::Esc => {
                    self.modo_edicion = false;
                },
                Tecla::Intro => {
                    self.modo_edicion = false;
                },
                Tecla::Caracter(c, _) => {
                    self.editar_char(c);
                },
                Tecla::Retroceso => {
                    self.borrar_char();
                },
                _ => {},
            }
            return Efecto::Ninguno;
        }
        if es_sube(t, true) {
            self.campo_activo = if self.campo_activo > 0 {
                self.campo_activo - 1
            } else {
                0
            };
            self.mensaje = None;
            Efecto::Ninguno
        } else if es_baja(t, true) {
            self.campo_activo = if self.campo_activo + 1 < textos::NUM_CAMPOS {
                self.campo_activo + 1
            } else {
                textos::NUM_CAMPOS - 1
            };
            self.mensaje = None;
            Efecto::Ninguno
        } else if t == Tecla::Izquierda {
            let r = self.ajustar_izq();
            self.mensaje = None;
            r
        } else if t == Tecla::Derecha {
            let r = self.ajustar_der();
            self.mensaje = None;
            r
        } else if es_elige(t) {
            match self.campo_actual() {
                Campo::Volumen => {},
                Campo::Motor => {},
                Campo::LongitudMax => {},
                Campo::AlsaCard => {},
                Campo::AnunciarUsuario => {},
                Campo::CoquiSelector => {
                    self.abrir_modal_voces();
                },
                _ => {
                    self.modo_edicion = true;
                },
            }
            Efecto::Ninguno
        } else if (t == Tecla::Caracter('t', false) || t == Tecla::Caracter('t', true) || t
            == Tecla::Caracter('T', false) || t == Tecla::Caracter('T', true))
            && self.campo_actual() == Campo::Token {
            self.token_oculto = !self.token_oculto;
            Efecto::Ninguno
        } else if t == Tecla::Caracter('s', true) {
            if self.preparar_guardado() {
                Efecto::Guardar
            } else {
                Efecto::Ninguno
            }
        } else if es_cancela(t) {
            self.confirmando = true;
            Efecto::Ninguno
        } else {
            Efecto::Ninguno
        }
    }

    /// Reports how storing the settings went: `None` for success, or the error's text.
    pub fn terminar_guardado(&mut self, error: Option<String>)
        ensures
            match error {
                None => final(self).mensaje matches Some(par) && par.0@ == txt_guardado(
                    en_ingles(*old(self)),
                ) && !par.1,
                Some(e) => mensaje_error(final(self).mensaje, "✗  "@ + e@),
            },
            *final(self) == (App { mensaje: final(self).mensaje, ..*old(self) }),
    {
        match error {
            None => {
                let t = T { es: "✓  Configuración guardada", en: "✓  Configuration saved" };
                self.mensaje = Some((t.get(self.cfg.idioma.as_str()).to_string(), false));
            },
            Some(e) => {
                let mut m = "✗  ".to_string();
                texto::agregar_str(&mut m, e.as_str());
                self.mensaje = Some((m, true));
            },
        }
    }
}

fn es_sube(t: Tecla, con_tab: bool) -> (r: bool)
    ensures
        r == sube(t, con_tab),
{
    match t {
        Tecla::Arriba => true,
        Tecla::TabAtras => con_tab,
        Tecla::Caracter(c, _) => c == 'k' || c == 'K',
        _ => false,
    }
}

fn es_baja(t: Tecla, con_tab: bool) -> (r: bool)
    ensures
        r == baja(t, con_tab),
{
    match t {
        Tecla::Abajo => true,
        Tecla::Tab => con_tab,
        Tecla::Caracter(c, _) => c == 'j' || c == 'J',
        _ => false,
    }
}

fn es_elige(t: Tecla) -> (r: bool)
    ensures
        r == elige(t),
{
    match t {
        Tecla::Intro => true,
        Tecla::Caracter(c, _) => c == ' ',
        _ => false,
    }
}

fn es_cancela(t: Tecla) -> (r: bool)
    ensures
        r == cancela(t),
{
    match t {
        Tecla::Esc => true,
        Tecla::Caracter(c, _) => c == 'q',
        _ => false,
    }
}

fn es_afirma(t: Tecla) -> (r: bool)
    ensures
        r == afirma(t),
{
    match t {
        Tecla::Intro => true,
        Tecla::Caracter(c, _) => c == 's' || c == 'S' || c == 'y' || c == 'Y',
        _ => false,
    }
}

/// The UTF-8 length of `c`.
fn ancho_utf8_exec(c: char) -> (n: usize)
    ensures
        n == ancho_utf8(c),
{
    let u = c as u32;
    if u < 0x80 {
        1
    } else if u < 0x800 {
        2
    } else if u < 0x10000 {
        3
    } else {
        4
    }
}

/// A prefix never has more UTF-8 bytes than the whole text.
proof fn lema_bytes_prefijo(s: Seq<char>, k: int)
    requires
        0 <= k <= s.len(),
    ensures
        bytes_utf8(s.take(k)) <= bytes_utf8(s),
    decreases s.len() - k,
{
    if k < s.len() {
        lema_bytes_prefijo(s, k + 1);
        assert(s.take(k + 1).drop_last() == s.take(k));
    }
    assert(s.take(s.len() as int) == s);
}

/// A value as the field list shows it: one longer than 22 bytes is cut to the
/// characters that fit in its first 21 bytes, followed by `…`.
pub fn truncar_valor(valor: &str) -> (r: String)
    ensures
        r@ == valor_truncado(valor@),
{
    let v = texto::caracteres(valor);
    let mut total: usize = 0;
    let mut i: usize = 0;
    while i < v.len() && total <= 22
        invariant
            i <= v.len(),
            total == bytes_utf8(v@.take(i as int)),
            total <= 26,
        decreases v.len() - i,
    {
        total = total + ancho_utf8_exec(v[i]);
        i += 1;
        assert(v@.take(i as int).drop_last() == v@.take(i - 1));
    }
    proof {
        lema_bytes_prefijo(v@, i as int);
        if total <= 22 {
            assert(v@.take(i as int) == v@);
        }
    }
    if total <= 22 {
        return valor.to_string();
    }
    let mut k: usize = 0;
    let mut usados: usize = 0;
    while k < v.len() && usados + ancho_utf8_exec(v[k]) <= 21
        invariant
            k <= v.len(),
            usados == bytes_utf8(v@.take(k as int)),
            usados <= 21,
            prefijo_que_cabe(v@, k as int) == prefijo_que_cabe(v@, 0),
        decreases v.len() - k,
    {
        assert(v@.take(k + 1).drop_last() == v@.take(k as int));
        usados = usados + ancho_utf8_exec(v[k]);
        k += 1;
    }
    if k < v.len() {
        assert(v@.take(k + 1).drop_last() == v@.take(k as int));
    }
    let mut r = texto::cadena_de(&texto::copiar(&v, 0, k));
    r.push('…');
    r
}

/// The position after `i`, computed without overflow, is the next one in the ring.
pub proof fn lema_siguiente(i: int, n: int)
    requires
        0 <= i,
        0 < n,
    ensures
        (if i % n + 1 == n {
            0
        } else {
            i % n + 1
        }) == siguiente(i, n),
{
    vstd::arithmetic::div_mod::lemma_add_mod_noop(i, 1, n);
    vstd::arithmetic::div_mod::lemma_mod_bound(i, n);
    vstd::arithmetic::div_mod::lemma_mod_bound(i + 1, n);
    if n > 1 {
        vstd::arithmetic::div_mod::lemma_small_mod(1, n as nat);
        if i % n + 1 == n {
            vstd::arithmetic::div_mod::lemma_mod_self_0(n);
        } else {
            vstd::arithmetic::div_mod::lemma_small_mod((i % n + 1) as nat, n as nat);
        }
    }
}

} // verus!
