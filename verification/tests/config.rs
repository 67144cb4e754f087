use twitch_tts::config::{modelos_coqui_en, modelos_coqui_es, Config, CoquiModelo, CoquiVoz};

fn modelo_con_voces(activa: usize) -> CoquiModelo {
    CoquiModelo {
        nombre: "M".to_string(),
        modelo: "m/x".to_string(),
        voces: vec![
            CoquiVoz { nombre: "A".to_string(), speaker_wav: "a.wav".to_string() },
            CoquiVoz { nombre: "B".to_string(), speaker_wav: "b.wav".to_string() },
        ],
        voz_activa: activa,
    }
}

#[test]
fn modelos_en_espanol() {
    let m = modelos_coqui_es();
    assert_eq!(m.len(), 2);
    assert_eq!(m[0].nombre, "ES · css10 VITS");
    assert_eq!(m[0].modelo, "tts_models/es/css10/vits");
    assert!(m[0].voces.is_empty());
    assert_eq!(m[0].voz_activa, 0);
    assert_eq!(m[1].nombre, "XTTS-v2");
    assert_eq!(m[1].modelo, "tts_models/multilingual/multi-dataset/xtts_v2");
    assert_eq!(m[1].voces.len(), 3);
    assert_eq!(m[1].voces[0].nombre, "Hannibal");
    assert_eq!(m[1].voces[0].speaker_wav, "./voices/hannibal.wav");
    assert_eq!(m[1].voces[1].nombre, "Enrique");
    assert_eq!(m[1].voces[1].speaker_wav, "./voices/enrique.wav");
    assert_eq!(m[1].voces[2].nombre, "Conchita");
    assert_eq!(m[1].voces[2].speaker_wav, "./voices/conchita.wav");
}

#[test]
fn modelos_en_ingles() {
    let m = modelos_coqui_en();
    assert_eq!(m.len(), 2);
    assert_eq!(m[0].nombre, "EN · ljspeech VITS");
    assert_eq!(m[0].modelo, "tts_models/en/ljspeech/vits");
    assert!(m[0].voces.is_empty());
    assert_eq!(m[1].nombre, "XTTS-v2");
    assert_eq!(m[1].voces.len(), 3);
}

#[test]
fn voz_actual_dentro_y_fuera() {
    let m = modelo_con_voces(1);
    assert_eq!(m.voz_actual().map(|v| v.nombre.clone()), Some("B".to_string()));
    let m = modelo_con_voces(2);
    assert!(m.voz_actual().is_none());
}

#[test]
fn config_inicial() {
    let c = Config::default();
    assert!(c.es_primera_vez());
    assert_eq!(c.motor_tts, "piper");
    assert_eq!(c.longitud_max, 120);
    assert_eq!(c.alsa_card, 0);
    assert!(c.anunciar_usuario);
    assert!(c.coqui_modelos.is_empty());
    assert!(c.coqui_activo().is_none());
}

#[test]
fn aplicar_idioma_ingles() {
    let mut c = Config::default();
    c.usuario = "bot".to_string();
    c.aplicar_idioma("en");
    assert!(!c.es_primera_vez());
    assert_eq!(c.idioma, "en");
    assert_eq!(c.piper_modelo, "./piper/en_US-lessac-medium.onnx");
    assert_eq!(c.coqui_modelos[0].nombre, "EN · ljspeech VITS");
    assert_eq!(c.usuario, "bot");
}

#[test]
fn aplicar_idioma_otro_es_espanol() {
    let mut c = Config::default();
    c.aplicar_idioma("fr");
    assert_eq!(c.idioma, "fr");
    assert_eq!(c.piper_modelo, "./piper/es_ES-sharvard-medium.onnx");
    assert_eq!(c.coqui_modelos[0].nombre, "ES · css10 VITS");
    c.aplicar_idioma("es");
    assert_eq!(c.piper_modelo, "./piper/es_ES-sharvard-medium.onnx");
}

#[test]
fn coqui_activo_y_su_cambio() {
    let mut c = Config::default();
    c.aplicar_idioma("es");
    c.coqui_modelo_idx = 1;
    assert_eq!(c.coqui_activo().map(|m| m.nombre.clone()), Some("XTTS-v2".to_string()));
    if let Some(m) = c.coqui_activo_mut() {
        m.voz_activa = 2;
    }
    assert_eq!(c.coqui_modelos[1].voz_activa, 2);
    c.coqui_modelo_idx = 5;
    assert!(c.coqui_activo().is_none());
    assert!(c.coqui_activo_mut().is_none());
}
