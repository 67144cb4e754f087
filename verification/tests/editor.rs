use twitch_tts::config::Config;
use twitch_tts::editor::{truncar_valor, App, Efecto, Pantalla, Tecla};
use twitch_tts::textos::Campo;

fn app_configurada() -> App {
    let mut c = Config::default();
    c.aplicar_idioma("es");
    App::nueva(c, vec![(0, "PCH".to_string()), (2, "USB".to_string())])
}

fn ir_a(a: &mut App, campo: usize) {
    while a.campo_activo > campo {
        a.tecla(Tecla::Arriba);
    }
    while a.campo_activo < campo {
        a.tecla(Tecla::Abajo);
    }
}

#[test]
fn primera_vez_elige_idioma() {
    let mut a = App::nueva(Config::default(), vec![]);
    assert_eq!(a.pantalla, Pantalla::Bienvenida);
    assert_eq!(a.tecla(Tecla::Abajo), Efecto::Ninguno);
    assert_eq!(a.idioma_cursor, 1);
    a.tecla(Tecla::Caracter('k', false));
    assert_eq!(a.idioma_cursor, 0);
    a.tecla(Tecla::Caracter('J', false));
    a.tecla(Tecla::Intro);
    assert_eq!(a.pantalla, Pantalla::Config);
    assert_eq!(a.idioma(), "en");
    assert_eq!(a.cfg.piper_modelo, "./piper/en_US-lessac-medium.onnx");
}

#[test]
fn salir_desde_bienvenida() {
    let mut a = App::nueva(Config::default(), vec![]);
    a.tecla(Tecla::Caracter('q', false));
    assert!(a.salir);
}

#[test]
fn navegacion_entre_campos() {
    let mut a = app_configurada();
    assert_eq!(a.pantalla, Pantalla::Config);
    a.tecla(Tecla::Arriba);
    assert_eq!(a.campo_activo, 0);
    for _ in 0..20 {
        a.tecla(Tecla::Tab);
    }
    assert_eq!(a.campo_activo, 9);
    assert_eq!(a.campo_actual(), Campo::AnunciarUsuario);
    a.tecla(Tecla::TabAtras);
    assert_eq!(a.campo_actual(), Campo::AlsaCard);
}

#[test]
fn editar_usuario() {
    let mut a = app_configurada();
    a.tecla(Tecla::Intro);
    assert!(a.modo_edicion);
    a.tecla(Tecla::Caracter('b', false));
    a.tecla(Tecla::Caracter('o', false));
    a.tecla(Tecla::Caracter('t', false));
    a.tecla(Tecla::Caracter('x', false));
    a.tecla(Tecla::Retroceso);
    a.tecla(Tecla::Esc);
    assert!(!a.modo_edicion);
    assert_eq!(a.cfg.usuario, "bot");
}

#[test]
fn guardar_comprueba_usuario_y_token() {
    let mut a = app_configurada();
    assert_eq!(a.tecla(Tecla::Caracter('s', true)), Efecto::Ninguno);
    assert_eq!(a.mensaje, Some(("⚠  El campo Usuario está vacío".to_string(), true)));
    a.cfg.usuario = "bot".to_string();
    a.cfg.token = "abc".to_string();
    assert_eq!(a.tecla(Tecla::Caracter('s', true)), Efecto::Ninguno);
    assert_eq!(a.mensaje, Some(("⚠  El token debe empezar por oauth:".to_string(), true)));
    a.cfg.token = "oauth:abc".to_string();
    a.cfg.canal = "canal".to_string();
    assert_eq!(a.tecla(Tecla::Caracter('s', true)), Efecto::Guardar);
    assert_eq!(a.cfg.canal, "#canal");
    a.terminar_guardado(None);
    assert_eq!(a.mensaje, Some(("✓  Configuración guardada".to_string(), false)));
    a.terminar_guardado(Some("disco lleno".to_string()));
    assert_eq!(a.mensaje, Some(("✗  disco lleno".to_string(), true)));
    // the plain letter s does not store
    assert_eq!(a.tecla(Tecla::Caracter('s', false)), Efecto::Ninguno);
}

#[test]
fn ajustes_de_campos() {
    let mut a = app_configurada();
    ir_a(&mut a, 3);
    assert_eq!(a.tecla(Tecla::Izquierda), Efecto::BajarVolumen);
    assert_eq!(a.tecla(Tecla::Derecha), Efecto::SubirVolumen);
    ir_a(&mut a, 4);
    a.tecla(Tecla::Derecha);
    assert_eq!(a.cfg.motor_tts, "coqui");
    a.tecla(Tecla::Derecha);
    assert_eq!(a.cfg.motor_tts, "gtts");
    a.tecla(Tecla::Izquierda);
    assert_eq!(a.cfg.motor_tts, "coqui");
    ir_a(&mut a, 7);
    a.tecla(Tecla::Izquierda);
    assert_eq!(a.cfg.longitud_max, 110);
    a.cfg.longitud_max = 495;
    a.tecla(Tecla::Derecha);
    assert_eq!(a.cfg.longitud_max, 505);
    a.tecla(Tecla::Derecha);
    assert_eq!(a.cfg.longitud_max, 505);
    ir_a(&mut a, 8);
    a.tecla(Tecla::Derecha);
    assert_eq!(a.cfg.alsa_card, 2);
    a.tecla(Tecla::Derecha);
    assert_eq!(a.cfg.alsa_card, 0);
    a.tecla(Tecla::Izquierda);
    assert_eq!(a.cfg.alsa_card, 2);
    ir_a(&mut a, 9);
    a.tecla(Tecla::Izquierda);
    assert!(!a.cfg.anunciar_usuario);
}

#[test]
fn selector_y_voces_de_coqui() {
    let mut a = app_configurada();
    ir_a(&mut a, 6);
    assert_eq!(a.coqui_label(), "ES · css10 VITS");
    a.tecla(Tecla::Intro);
    assert!(a.modal_voces.is_none());
    a.tecla(Tecla::Izquierda);
    assert_eq!(a.cfg.coqui_modelo_idx, 1);
    assert_eq!(a.coqui_label(), "XTTS-v2  ·  Hannibal");
    a.tecla(Tecla::Intro);
    assert!(a.modal_voces.is_some());
    a.tecla(Tecla::Abajo);
    a.tecla(Tecla::Abajo);
    a.tecla(Tecla::Abajo);
    a.tecla(Tecla::Intro);
    assert!(a.modal_voces.is_none());
    assert_eq!(a.cfg.coqui_modelos[1].voz_activa, 2);
    assert_eq!(a.coqui_label(), "XTTS-v2  ·  Conchita");
    a.tecla(Tecla::Derecha);
    assert_eq!(a.cfg.coqui_modelo_idx, 0);
    assert_eq!(App::nueva(Config::default(), vec![]).coqui_label(), "(—)");
}

#[test]
fn valores_mostrados() {
    let mut a = app_configurada();
    a.cfg.token = "oauth:ñ".to_string();
    assert_eq!(a.valor_campo(Campo::Token, "100%"), "••••••••");
    a.tecla(Tecla::Abajo);
    a.tecla(Tecla::Caracter('T', false));
    assert_eq!(a.valor_campo(Campo::Token, "100%"), "oauth:ñ");
    assert_eq!(a.valor_campo(Campo::Volumen, "100%"), "100%");
    assert_eq!(a.valor_campo(Campo::LongitudMax, ""), "120");
    assert_eq!(a.valor_campo(Campo::AlsaCard, ""), "card0  (PCH)");
    a.cfg.alsa_card = 7;
    assert_eq!(a.valor_campo(Campo::AlsaCard, ""), "card7  (?)");
    assert_eq!(a.valor_campo(Campo::AnunciarUsuario, ""), "activado");
    assert_eq!(a.valor_campo(Campo::Motor, ""), "piper");
}

#[test]
fn confirmar_salida() {
    let mut a = app_configurada();
    a.tecla(Tecla::Esc);
    assert!(a.confirmando);
    a.tecla(Tecla::Caracter('n', false));
    assert!(!a.confirmando);
    assert!(!a.salir);
    a.tecla(Tecla::Caracter('q', false));
    a.tecla(Tecla::Caracter('Y', false));
    assert!(a.salir);
}

#[test]
fn valores_largos_se_recortan() {
    assert_eq!(truncar_valor("corto"), "corto");
    assert_eq!(truncar_valor("1234567890123456789012"), "1234567890123456789012");
    assert_eq!(truncar_valor("12345678901234567890123"), "123456789012345678901…");
    // the 21st byte falls inside `ñ`: the cut stays before it
    assert_eq!(truncar_valor("12345678901234567890ñxyz"), "12345678901234567890…");
    assert_eq!(truncar_valor("1234567890123456789ñxyz"), "1234567890123456789ñ…");
}
