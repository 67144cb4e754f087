use vstd::prelude::*;

use crate::texto;

verus! {

/// A text in Spanish and in English.
pub struct T<'a> {
    pub es: &'a str,
    pub en: &'a str,
}

/// The language code is English.
pub open spec fn es_ingles(idioma: Seq<char>) -> bool {
    idioma == "en"@
}

impl<'a> T<'a> {
    /// The English text for `"en"`, the Spanish one for any other language.
    pub fn get(&self, idioma: &str) -> (r: &'a str)
        ensures
            r@ == if es_ingles(idioma@) {
                self.en@
            } else {
                self.es@
            },
    {
        if texto::iguales(idioma, "en") {
            self.en
        } else {
            self.es
        }
    }
}

/// A field of the settings screen.
#[derive(PartialEq, Eq, Structural, Clone, Copy, Debug)]
pub enum Campo {
    Usuario,
    Token,
    Canal,
    Volumen,
    Motor,
    PiperModelo,
    CoquiSelector,
    LongitudMax,
    AlsaCard,
    AnunciarUsuario,
}

/// Number of fields on the settings screen.
pub const NUM_CAMPOS: usize = 10;

/// The field in position `i` of the settings screen.
pub open spec fn campo_de(i: int) -> Campo {
    if i == 0 {
        Campo::Usuario
    } else if i == 1 {
        Campo::Token
    } else if i == 2 {
        Campo::Canal
    } else if i == 3 {
        Campo::Volumen
    } else if i == 4 {
        Campo::Motor
    } else if i == 5 {
        Campo::PiperModelo
    } else if i == 6 {
        Campo::CoquiSelector
    } else if i == 7 {
        Campo::LongitudMax
    } else if i == 8 {
        Campo::AlsaCard
    } else {
        Campo::AnunciarUsuario
    }
}

/// The field in position `i` of the settings screen.
pub fn campo_en(i: usize) -> (c: Campo)
    requires
        i < NUM_CAMPOS,
    ensures
        c == campo_de(i as int),
{
    if i == 0 {
        Campo::Usuario
    } else if i == 1 {
        Campo::Token
    } else if i == 2 {
        Campo::Canal
    } else if i == 3 {
        Campo::Volumen
    } else if i == 4 {
        Campo::Motor
    } else if i == 5 {
        Campo::PiperModelo
    } else if i == 6 {
        Campo::CoquiSelector
    } else if i == 7 {
        Campo::LongitudMax
    } else if i == 8 {
        Campo::AlsaCard
    } else {
        Campo::AnunciarUsuario
    }
}

/// The one of two texts that fits the language.
pub open spec fn segun(en: bool, es_txt: Seq<char>, en_txt: Seq<char>) -> Seq<char> {
    if en {
        en_txt
    } else {
        es_txt
    }
}

/// The label of a field.
pub open spec fn nombre_campo(c: Campo, en: bool) -> Seq<char> {
    match c {
        Campo::Usuario => segun(en, "Usuario"@, "Username"@),
        Campo::Token => "Token OAuth"@,
        Campo::Canal => segun(en, "Canal"@, "Channel"@),
        Campo::Volumen => segun(en, "Volumen"@, "Volume"@),
        Campo::Motor => segun(en, "Motor TTS"@, "TTS Engine"@),
        Campo::PiperModelo => segun(en, "Modelo Piper"@, "Piper Model"@),
        Campo::CoquiSelector => segun(en, "Voz Coqui"@, "Coqui Voice"@),
        Campo::LongitudMax => segun(en, "Long. máxima"@, "Max Length"@),
        Campo::AlsaCard => segun(en, "Tarjeta audio"@, "Audio Card"@),
        Campo::AnunciarUsuario => segun(en, "Anunciar user"@, "Announce user"@),
    }
}

/// The label of a field in the language `idioma`.
pub fn nombre_campo_txt(c: Campo, idioma: &str) -> (r: &'static str)
    ensures
        r@ == nombre_campo(c, es_ingles(idioma@)),
{
    match c {
        Campo::Usuario => T { es: "Usuario", en: "Username" }.get(idioma),
        Campo::Token => "Token OAuth",
        Campo::Canal => T { es: "Canal", en: "Channel" }.get(idioma),
        Campo::Volumen => T { es: "Volumen", en: "Volume" }.get(idioma),
        Campo::Motor => T { es: "Motor TTS", en: "TTS Engine" }.get(idioma),
        Campo::PiperModelo => T { es: "Modelo Piper", en: "Piper Model" }.get(idioma),
        Campo::CoquiSelector => T { es: "Voz Coqui", en: "Coqui Voice" }.get(idioma),
        Campo::LongitudMax => T { es: "Long. máxima", en: "Max Length" }.get(idioma),
        Campo::AlsaCard => T { es: "Tarjeta audio", en: "Audio Card" }.get(idioma),
        Campo::AnunciarUsuario => T { es: "Anunciar user", en: "Announce user" }.get(idioma),
    }
}

/// The help line of a field; that of the Coqui selector depends on whether the
/// model in use has reference voices.
pub open spec fn desc_campo(c: Campo, en: bool, tiene_voces: bool) -> Seq<char> {
    match c {
        Campo::Usuario => segun(en, "Nombre de usuario del bot en Twitch"@, "Bot username on Twitch"@),
        Campo::Token => segun(
            en,
            "oauth:xxxxxxxx  —  obtenlo en twitchtokengenerator.com"@,
            "oauth:xxxxxxxx  —  get it at twitchtokengenerator.com"@,
        ),
        Campo::Canal => segun(
            en,
            "#nombre_del_canal (con la almohadilla)"@,
            "#channel_name (with the hash)"@,
        ),
        Campo::Volumen => segun(
            en,
            "← → para ajustar  |  rango 0%–200%"@,
            "← → to adjust  |  range 0%–200%"@,
        ),
        Campo::Motor => segun(
            en,
            "← → para cambiar entre piper / coqui / gtts"@,
            "← → to switch between piper / coqui / gtts"@,
        ),
        Campo::PiperModelo => segun(
            en,
            "Ruta al archivo .onnx del modelo de voz"@,
            "Path to the .onnx voice model file"@,
        ),
        Campo::CoquiSelector => if tiene_voces {
            segun(
                en,
                "← → cambiar modelo  |  Enter elegir voz"@,
                "← → change model  |  Enter choose voice"@,
            )
        } else {
            segun(
                en,
                "← → cambiar modelo  |  (modelo sin voces de referencia)"@,
                "← → change model  |  (model has no reference voices)"@,
            )
        },
        Campo::LongitudMax => segun(
            en,
            "← → para ajustar  |  máx. caracteres por mensaje"@,
            "← → to adjust  |  max characters per message"@,
        ),
        Campo::AlsaCard => segun(
            en,
            "← → para seleccionar tarjeta de sonido"@,
            "← → to select audio card"@,
        ),
        Campo::AnunciarUsuario => segun(
            en,
            "← → activar/desactivar  |  lee \"usuario dice ...\""@,
            "← → enable/disable  |  reads \"user says ...\""@,
        ),
    }
}

/// The help line of a field in the language `idioma`.
pub fn desc_campo_txt(c: Campo, idioma: &str, tiene_voces: bool) -> (r: &'static str)
    ensures
        r@ == desc_campo(c, es_ingles(idioma@), tiene_voces),
{
    match c {
        Campo::Usuario => T {
            es: "Nombre de usuario del bot en Twitch",
            en: "Bot username on Twitch",
        }.get(idioma),
        Campo::Token => T {
            es: "oauth:xxxxxxxx  —  obtenlo en twitchtokengenerator.com",
            en: "oauth:xxxxxxxx  —  get it at twitchtokengenerator.com",
        }.get(idioma),
        Campo::Canal => T {
            es: "#nombre_del_canal (con la almohadilla)",
            en: "#channel_name (with the hash)",
        }.get(idioma),
        Campo::Volumen => T {
            es: "← → para ajustar  |  rango 0%–200%",
            en: "← → to adjust  |  range 0%–200%",
        }.get(idioma),
        Campo::Motor => T {
            es: "← → para cambiar entre piper / coqui / gtts",
            en: "← → to switch between piper / coqui / gtts",
        }.get(idioma),
        Campo::PiperModelo => T {
            es: "Ruta al archivo .onnx del modelo de voz",
            en: "Path to the .onnx voice model file",
        }.get(idioma),
        Campo::CoquiSelector => if tiene_voces {
            T {
                es: "← → cambiar modelo  |  Enter elegir voz",
                en: "← → change model  |  Enter choose voice",
            }.get(idioma)
        } else {
            T {
                es: "← → cambiar modelo  |  (modelo sin voces de referencia)",
                en: "← → change model  |  (model has no reference voices)",
            }.get(idioma)
        },
        Campo::LongitudMax => T {
            es: "← → para ajustar  |  máx. caracteres por mensaje",
            en: "← → to adjust  |  max characters per message",
        }.get(idioma),
        Campo::AlsaCard => T {
            es: "← → para seleccionar tarjeta de sonido",
            en: "← → to select audio card",
        }.get(idioma),
        Campo::AnunciarUsuario => T {
            es: "← → activar/desactivar  |  lee \"usuario dice ...\"",
            en: "← → enable/disable  |  reads \"user says ...\"",
        }.get(idioma),
    }
}

} // verus!
