use twitch_tts::textos::{desc_campo_txt, nombre_campo_txt, Campo, T};

#[test]
fn t_elige_idioma() {
    let t = T { es: "hola", en: "hello" };
    assert_eq!(t.get("en"), "hello");
    assert_eq!(t.get("es"), "hola");
    assert_eq!(t.get(""), "hola");
    assert_eq!(t.get("EN"), "hola");
}

#[test]
fn nombres_de_campos() {
    assert_eq!(nombre_campo_txt(Campo::Usuario, "es"), "Usuario");
    assert_eq!(nombre_campo_txt(Campo::Usuario, "en"), "Username");
    assert_eq!(nombre_campo_txt(Campo::Token, "en"), "Token OAuth");
    assert_eq!(nombre_campo_txt(Campo::LongitudMax, "es"), "Long. máxima");
    assert_eq!(nombre_campo_txt(Campo::AnunciarUsuario, "en"), "Announce user");
}

#[test]
fn descripciones_de_campos() {
    assert_eq!(desc_campo_txt(Campo::Canal, "en", false), "#channel_name (with the hash)");
    assert_eq!(
        desc_campo_txt(Campo::CoquiSelector, "es", true),
        "← → cambiar modelo  |  Enter elegir voz"
    );
    assert_eq!(
        desc_campo_txt(Campo::CoquiSelector, "en", false),
        "← → change model  |  (model has no reference voices)"
    );
    assert_eq!(
        desc_campo_txt(Campo::Volumen, "es", false),
        "← → para ajustar  |  rango 0%–200%"
    );
}

#[test]
fn ayuda_del_token() {
    for idioma in ["es", "en"] {
        let d = desc_campo_txt(Campo::Token, idioma, false);
        assert!(d.starts_with("oauth:xxxxxxxx"));
        assert!(d.contains("twitchtokengenerator.com"));
    }
}
