use twitch_tts::bot::{
    argumentos_coqui, comando_piper, decidir_linea, decidir_mensaje, orden_de_palabra,
    orden_volumen, parsear_mensaje, primer_motor, primera_palabra_de, script_gtts,
    seleccion_coqui, siguiente_paso_voz, Decision, MotorTts, PasoVoz, Signo,
};
use twitch_tts::config::Config;

const LINEA: &str = ":alice!alice@alice.tmi.twitch.tv PRIVMSG #canal :hola mundo";

fn cfg(usuario: &str, idioma: &str) -> Config {
    let mut c = Config::default();
    c.usuario = usuario.to_string();
    c.aplicar_idioma(idioma);
    c
}

fn linea_de(usuario: &str, texto: &str) -> String {
    format!(":{u}!{u}@{u}.tmi.twitch.tv PRIVMSG #canal :{t}", u = usuario, t = texto)
}

#[test]
fn parsea_un_privmsg() {
    assert_eq!(
        parsear_mensaje(LINEA),
        Some(("alice".to_string(), "hola mundo".to_string()))
    );
}

#[test]
fn parsea_solo_hasta_el_siguiente_separador() {
    assert_eq!(
        parsear_mensaje(":bob!b@b PRIVMSG #c : uno :dos"),
        Some(("bob".to_string(), "uno".to_string()))
    );
}

#[test]
fn rechaza_lineas_cortas_o_sin_texto() {
    assert_eq!(parsear_mensaje(":a!b PRIVMSG :x"), None);
    assert_eq!(parsear_mensaje(":a!b PRIVMSG #c sin dos puntos"), None);
}

#[test]
fn ordenes_de_volumen() {
    let o = orden_volumen("!volumen 80").unwrap();
    assert_eq!((o.signo, o.numero.as_str()), (Signo::Fijar, "80"));
    let o = orden_volumen("!VOLUMEN +10").unwrap();
    assert_eq!((o.signo, o.numero.as_str()), (Signo::Subir, "10"));
    let o = orden_volumen("  !volumen -10 ").unwrap();
    assert_eq!((o.signo, o.numero.as_str()), (Signo::Bajar, "10"));
    let o = orden_volumen("!volumen 1 2").unwrap();
    assert_eq!((o.signo, o.numero.as_str()), (Signo::Fijar, "1 2"));
    assert!(orden_volumen("!volumen").is_none());
    assert!(orden_volumen("!vol 5").is_none());
}

#[test]
fn responde_pong() {
    match decidir_linea("PING :tmi.twitch.tv", &cfg("alice", "es")) {
        Decision::Responder(r) => assert_eq!(r, "PONG :tmi.twitch.tv\r\n"),
        _ => panic!("expected a reply"),
    }
}

#[test]
fn ignora_lo_que_no_es_privmsg() {
    assert!(matches!(
        decidir_linea(":tmi.twitch.tv 001 bot :Welcome, GLHF!", &cfg("alice", "es")),
        Decision::Ignorar
    ));
}

#[test]
fn lee_mensajes_con_anuncio() {
    match decidir_linea(LINEA, &cfg("streamer", "es")) {
        Decision::Leer(m) => assert_eq!(m, "alice dice hola mundo"),
        _ => panic!("expected a message"),
    }
    match decidir_linea(LINEA, &cfg("streamer", "en")) {
        Decision::Leer(m) => assert_eq!(m, "alice says hola mundo"),
        _ => panic!("expected a message"),
    }
    let mut c = cfg("streamer", "es");
    c.anunciar_usuario = false;
    match decidir_linea(LINEA, &c) {
        Decision::Leer(m) => assert_eq!(m, "hola mundo"),
        _ => panic!("expected a message"),
    }
}

#[test]
fn volumen_solo_del_streamer() {
    let l = linea_de("Streamer", "!Volumen +20");
    match decidir_linea(&l, &cfg("streamer", "es")) {
        Decision::Volumen(o) => {
            assert_eq!(o.signo, Signo::Subir);
            assert_eq!(o.numero, "20");
        }
        _ => panic!("expected a volume command"),
    }
    let l = linea_de("otro", "!volumen 200");
    assert!(matches!(decidir_linea(&l, &cfg("streamer", "es")), Decision::Ignorar));
}

#[test]
fn descarta_largos_enlaces_y_comandos() {
    let mut c = cfg("streamer", "es");
    c.longitud_max = 5;
    assert!(matches!(decidir_linea(&linea_de("a", "123456"), &c), Decision::Ignorar));
    assert!(matches!(decidir_linea(&linea_de("a", "12345"), &c), Decision::Leer(_)));
    // the limit counts characters: five characters (six bytes) pass, six do not
    assert!(matches!(decidir_linea(&linea_de("a", "1234ñ"), &c), Decision::Leer(_)));
    assert!(matches!(decidir_linea(&linea_de("a", "12345ñ"), &c), Decision::Ignorar));
    let c = cfg("streamer", "es");
    assert!(matches!(
        decidir_linea(&linea_de("a", "mira https://x.y"), &c),
        Decision::Ignorar
    ));
    assert!(matches!(decidir_linea(&linea_de("a", "!discord"), &c), Decision::Ignorar));
}

#[test]
fn comando_de_piper() {
    assert_eq!(
        comando_piper("/opt/piper", "it's", "voz.onnx"),
        "LD_LIBRARY_PATH=\"/opt/piper\" echo 'it s' | \"/opt/piper/piper\" --model \"voz.onnx\" --output_file \"/tmp/tts_output.wav\" 2>/tmp/piper_err.log"
    );
}

#[test]
fn argumentos_de_coqui() {
    assert_eq!(
        argumentos_coqui("hola", "m", ""),
        vec!["--text", "hola", "--model_name", "m", "--out_path", "/tmp/tts_output.wav"]
    );
    assert_eq!(
        argumentos_coqui("hola", "m", "v.wav"),
        vec![
            "--text",
            "hola",
            "--model_name",
            "m",
            "--out_path",
            "/tmp/tts_output.wav",
            "--speaker_wav",
            "v.wav"
        ]
    );
}

#[test]
fn programa_de_gtts() {
    assert_eq!(
        script_gtts("l'eau", "fr"),
        "from gtts import gTTS; gTTS('l eau', lang='fr').save('/tmp/tts_fb.mp3')"
    );
}

#[test]
fn motores() {
    assert_eq!(primer_motor("piper"), Some(MotorTts::Piper));
    assert_eq!(primer_motor("coqui"), Some(MotorTts::Coqui));
    assert_eq!(primer_motor("gtts"), None);
}

#[test]
fn seleccion_de_coqui() {
    let c = Config::default();
    assert_eq!(
        seleccion_coqui(&c),
        ("tts_models/en/ljspeech/vits".to_string(), String::new())
    );
    let mut c = cfg("s", "es");
    c.coqui_modelo_idx = 1;
    assert_eq!(
        seleccion_coqui(&c),
        (
            "tts_models/multilingual/multi-dataset/xtts_v2".to_string(),
            "./voices/hannibal.wav".to_string()
        )
    );
    c.coqui_modelo_idx = 0;
    assert_eq!(seleccion_coqui(&c), ("tts_models/es/css10/vits".to_string(), String::new()));
}

#[test]
fn orden_desde_la_palabra_en_minusculas() {
    let o = orden_de_palabra("!volumen", "+15").unwrap();
    assert_eq!((o.signo, o.numero.as_str()), (Signo::Subir, "15"));
    let o = orden_de_palabra("!volumen", "").unwrap();
    assert_eq!((o.signo, o.numero.as_str()), (Signo::Fijar, ""));
    assert!(orden_de_palabra("!Volumen", "15").is_none());
    assert!(orden_de_palabra("!volumenes", "15").is_none());
}

#[test]
fn primera_palabra() {
    assert_eq!(primera_palabra_de("  !Volumen  80 "), "!Volumen");
    assert_eq!(primera_palabra_de("hola"), "hola");
    assert_eq!(primera_palabra_de(""), "");
}

#[test]
fn decidir_un_mensaje_ya_en_minusculas() {
    let c = cfg("streamer", "es");
    match decidir_mensaje("Streamer", "!VOLUMEN -5", &c, "streamer", "!volumen -5", "streamer", "!volumen") {
        Decision::Volumen(o) => assert_eq!((o.signo, o.numero.as_str()), (Signo::Bajar, "5")),
        _ => panic!("expected a volume command"),
    }
    assert!(matches!(
        decidir_mensaje("otro", "!volumen 5", &c, "otro", "!volumen 5", "streamer", "!volumen"),
        Decision::Ignorar
    ));
    assert!(matches!(
        decidir_mensaje("Streamer", "!volumen", &c, "streamer", "!volumen", "streamer", "!volumen"),
        Decision::Ignorar
    ));
    match decidir_mensaje("bea", "buenas", &c, "bea", "buenas", "streamer", "buenas") {
        Decision::Leer(m) => assert_eq!(m, "bea dice buenas"),
        _ => panic!("expected a message"),
    }
}

#[test]
fn pasos_de_voz_con_respaldo() {
    assert_eq!(siguiente_paso_voz("piper", None), PasoVoz::Generar(MotorTts::Piper));
    assert_eq!(siguiente_paso_voz("coqui", None), PasoVoz::Generar(MotorTts::Coqui));
    assert_eq!(siguiente_paso_voz("gtts", None), PasoVoz::Respaldo);
    let g = PasoVoz::Generar(MotorTts::Piper);
    assert_eq!(siguiente_paso_voz("piper", Some((g, true))), PasoVoz::Reproducir(true));
    assert_eq!(siguiente_paso_voz("piper", Some((g, false))), PasoVoz::Respaldo);
    assert_eq!(siguiente_paso_voz("piper", Some((PasoVoz::Respaldo, false))), PasoVoz::Reproducir(false));
    assert_eq!(siguiente_paso_voz("piper", Some((PasoVoz::Respaldo, true))), PasoVoz::Reproducir(false));
}
