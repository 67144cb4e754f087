use vstd::prelude::*;

use crate::texto;

verus! {

broadcast use vstd::string::to_string_from_display_ensures_for_str;

/// A reference voice for a multi-speaker model.
#[derive(Clone, Debug)]
pub struct CoquiVoz {
    pub nombre: String,
    pub speaker_wav: String,
}

/// A Coqui TTS model, with the voices it can imitate and the one in use.
#[derive(Clone, Debug)]
pub struct CoquiModelo {
    pub nombre: String,
    pub modelo: String,
    pub voces: Vec<CoquiVoz>,
    pub voz_activa: usize,
}

impl CoquiModelo {
    /// The voice in use, where `voz_activa` names one.
    pub fn voz_actual(&self) -> (r: Option<&CoquiVoz>)
        ensures
            self.voz_activa < self.voces@.len() ==> r == Some(&self.voces@[self.voz_activa as int]),
            self.voz_activa >= self.voces@.len() ==> r is None,
    {
        if self.voz_activa < self.voces.len() {
            Some(&self.voces[self.voz_activa])
        } else {
            None
        }
    }
}

/// The voice has the given name and reference recording.
pub open spec fn voz_es(v: CoquiVoz, nombre: Seq<char>, wav: Seq<char>) -> bool {
    v.nombre@ == nombre && v.speaker_wav@ == wav
}

/// The three reference voices of XTTS-v2, in their order.
pub open spec fn voces_xtts(v: Seq<CoquiVoz>) -> bool {
    &&& v.len() == 3
    &&& voz_es(v[0], "Hannibal"@, "./voices/hannibal.wav"@)
    &&& voz_es(v[1], "Enrique"@, "./voices/enrique.wav"@)
    &&& voz_es(v[2], "Conchita"@, "./voices/conchita.wav"@)
}

/// The multilingual XTTS-v2 model with its three voices, the first one in use.
pub open spec fn es_xtts(m: CoquiModelo) -> bool {
    &&& m.nombre@ == "XTTS-v2"@
    &&& m.modelo@ == "tts_models/multilingual/multi-dataset/xtts_v2"@
    &&& voces_xtts(m.voces@)
    &&& m.voz_activa == 0
}

/// A single-voice model with the given name and model path.
pub open spec fn es_modelo_simple(m: CoquiModelo, nombre: Seq<char>, modelo: Seq<char>) -> bool {
    &&& m.nombre@ == nombre
    &&& m.modelo@ == modelo
    &&& m.voces@.len() == 0
    &&& m.voz_activa == 0
}

/// The Spanish model list: css10 VITS, then XTTS-v2.
pub open spec fn son_modelos_es(s: Seq<CoquiModelo>) -> bool {
    &&& s.len() == 2
    &&& es_modelo_simple(s[0], "ES · css10 VITS"@, "tts_models/es/css10/vits"@)
    &&& es_xtts(s[1])
}

/// The English model list: ljspeech VITS, then XTTS-v2.
pub open spec fn son_modelos_en(s: Seq<CoquiModelo>) -> bool {
    &&& s.len() == 2
    &&& es_modelo_simple(s[0], "EN · ljspeech VITS"@, "tts_models/en/ljspeech/vits"@)
    &&& es_xtts(s[1])
}

fn voces_xtts_exec() -> (v: Vec<CoquiVoz>)
    ensures
        voces_xtts(v@),
{
    vec![
        CoquiVoz {
            nombre: "Hannibal".to_string(),
            speaker_wav: "./voices/hannibal.wav".to_string(),
        },
        CoquiVoz { nombre: "Enrique".to_string(), speaker_wav: "./voices/enrique.wav".to_string() },
        CoquiVoz {
            nombre: "Conchita".to_string(),
            speaker_wav: "./voices/conchita.wav".to_string(),
        },
    ]
}

fn modelo_xtts() -> (m: CoquiModelo)
    ensures
        es_xtts(m),
{
    CoquiModelo {
        nombre: "XTTS-v2".to_string(),
        modelo: "tts_models/multilingual/multi-dataset/xtts_v2".to_string(),
        voces: voces_xtts_exec(),
        voz_activa: 0,
    }
}

/// The Coqui models offered in Spanish.
pub fn modelos_coqui_es() -> (r: Vec<CoquiModelo>)
    ensures
        son_modelos_es(r@),
{
    vec![
        CoquiModelo {
            nombre: "ES · css10 VITS".to_string(),
            modelo: "tts_models/es/css10/vits".to_string(),
            voces: vec![],
            voz_activa: 0,
        },
        modelo_xtts(),
    ]
}

/// The Coqui models offered in English.
pub fn modelos_coqui_en() -> (r: Vec<CoquiModelo>)
    ensures
        son_modelos_en(r@),
{
    vec![
        CoquiModelo {
            nombre: "EN · ljspeech VITS".to_string(),
            modelo: "tts_models/en/ljspeech/vits".to_string(),
            voces: vec![],
            voz_activa: 0,
        },
        modelo_xtts(),
    ]
}

/// The bot's settings. The playback volume, a fraction, is kept beside them
/// by the program that stores the settings.
#[derive(Clone, Debug)]
pub struct Config {
    /// `"es"` or `"en"`; empty until a language is chosen.
    pub idioma: String,
    pub usuario: String,
    pub token: String,
    pub canal: String,
    pub motor_tts: String,
    pub piper_modelo: String,
    pub coqui_modelos: Vec<CoquiModelo>,
    pub coqui_modelo_idx: usize,
    pub longitud_max: usize,
    pub alsa_card: u8,
    pub anunciar_usuario: bool,
}

/// The settings of a first run: no language, engine `piper`, messages of up to
/// 120 bytes, card 0, and users announced.
pub open spec fn es_config_inicial(c: Config) -> bool {
    &&& c.idioma@.len() == 0
    &&& c.usuario@.len() == 0
    &&& c.token@.len() == 0
    &&& c.canal@.len() == 0
    &&& c.motor_tts@ == "piper"@
    &&& c.piper_modelo@.len() == 0
    &&& c.coqui_modelos@.len() == 0
    &&& c.coqui_modelo_idx == 0
    &&& c.longitud_max == 120
    &&& c.alsa_card == 0
    &&& c.anunciar_usuario
}

/// The Piper voice used in English.
pub open spec fn piper_en() -> Seq<char> {
    "./piper/en_US-lessac-medium.onnx"@
}

/// The Piper voice used in Spanish.
pub open spec fn piper_es() -> Seq<char> {
    "./piper/es_ES-sharvard-medium.onnx"@
}

/// Everything but the language, the Piper model and the Coqui model list agree.
pub open spec fn mismos_datos_de_usuario(a: Config, b: Config) -> bool {
    &&& a.usuario == b.usuario
    &&& a.token == b.token
    &&& a.canal == b.canal
    &&& a.motor_tts == b.motor_tts
    &&& a.coqui_modelo_idx == b.coqui_modelo_idx
    &&& a.longitud_max == b.longitud_max
    &&& a.alsa_card == b.alsa_card
    &&& a.anunciar_usuario == b.anunciar_usuario
}

/// `despues` is `antes` with the language `idioma` chosen: `"en"` takes the
/// English Piper voice and Coqui models, anything else the Spanish ones.
pub open spec fn idioma_aplicado(antes: Config, despues: Config, idioma: Seq<char>) -> bool {
    &&& despues.idioma@ == idioma
    &&& idioma == "en"@ ==> despues.piper_modelo@ == piper_en() && son_modelos_en(
        despues.coqui_modelos@,
    )
    &&& idioma != "en"@ ==> despues.piper_modelo@ == piper_es() && son_modelos_es(
        despues.coqui_modelos@,
    )
    &&& mismos_datos_de_usuario(despues, antes)
}

impl Default for Config {
    fn default() -> (c: Config)
        ensures
            es_config_inicial(c),
    {
        Config {
            idioma: String::new(),
            usuario: String::new(),
            token: String::new(),
            canal: String::new(),
            motor_tts: "piper".to_string(),
            piper_modelo: String::new(),
            coqui_modelos: Vec::new(),
            coqui_modelo_idx: 0,
            longitud_max: 120,
            alsa_card: 0,
            anunciar_usuario: true,
        }
    }
}

impl Config {
    /// No language has been chosen yet.
    pub fn es_primera_vez(&self) -> (r: bool)
        ensures
            r == (self.idioma@.len() == 0),
    {
        self.idioma.as_str().is_empty()
    }

    /// Chooses the language: `"en"` takes the English Piper voice and Coqui
    /// models, anything else the Spanish ones.
    pub fn aplicar_idioma(&mut self, idioma: &str)
        ensures
            idioma_aplicado(*old(self), *final(self), idioma@),
    {
        self.idioma = idioma.to_string();
        if texto::iguales(idioma, "en") {
            self.piper_modelo = "./piper/en_US-lessac-medium.onnx".to_string();
            self.coqui_modelos = modelos_coqui_en();
        } else {
            self.piper_modelo = "./piper/es_ES-sharvard-medium.onnx".to_string();
            self.coqui_modelos = modelos_coqui_es();
        }
    }

    /// The Coqui model in use, where `coqui_modelo_idx` names one.
    pub fn coqui_activo(&self) -> (r: Option<&CoquiModelo>)
        ensures
            self.coqui_modelo_idx < self.coqui_modelos@.len() ==> r == Some(
                &self.coqui_modelos@[self.coqui_modelo_idx as int],
            ),
            self.coqui_modelo_idx >= self.coqui_modelos@.len() ==> r is None,
    {
        if self.coqui_modelo_idx < self.coqui_modelos.len() {
            Some(&self.coqui_modelos[self.coqui_modelo_idx])
        } else {
            None
        }
    }
}

impl Config {
    /// The Coqui model in use, to be changed in place, where `coqui_modelo_idx`
    /// names one; what the caller writes through it lands in the model list.
    pub fn coqui_activo_mut(&mut self) -> (r: Option<&mut CoquiModelo>)
        ensures
            old(self).coqui_modelo_idx < old(self).coqui_modelos@.len() ==> (r matches Some(m)
                && *m == old(self).coqui_modelos@[old(self).coqui_modelo_idx as int]
                && final(self).coqui_modelos@ == old(self).coqui_modelos@.update(
                old(self).coqui_modelo_idx as int,
                *final(m),
            )),
            old(self).coqui_modelo_idx >= old(self).coqui_modelos@.len() ==> r is None
                && final(self).coqui_modelos@ == old(self).coqui_modelos@,
            final(self).idioma == old(self).idioma,
            final(self).piper_modelo == old(self).piper_modelo,
            final(self).coqui_modelo_idx == old(self).coqui_modelo_idx,
            mismos_datos_de_usuario(*final(self), *old(self)),
    {
        if self.coqui_modelo_idx < self.coqui_modelos.len() {
            Some(&mut self.coqui_modelos[self.coqui_modelo_idx])
        } else {
            None
        }
    }
}

} // verus!
