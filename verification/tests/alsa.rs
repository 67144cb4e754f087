use twitch_tts::alsa::tarjetas_de_aplay;

fn tarjetas(t: &str) -> Vec<(u8, String)> {
    tarjetas_de_aplay(t).expect("listing without reversed brackets")
}

#[test]
fn listado_tipico_de_aplay() {
    let salida = "**** List of PLAYBACK Hardware Devices ****\n\
card 0: PCH [HDA Intel PCH], device 0: ALC3246 Analog [ALC3246 Analog]\n\
  Subdevices: 1/1\n\
  Subdevice #0: subdevice #0\n\
card 0: PCH [HDA Intel PCH], device 3: HDMI 0 [HDMI 0]\n\
card 1: Generic [HD-Audio Generic], device 3: HDMI 0 [HDMI 0]\n";
    assert_eq!(
        tarjetas(salida),
        vec![(0, "HDA Intel PCH".to_string()), (1, "HD-Audio Generic".to_string())]
    );
}

#[test]
fn sin_tarjetas_da_default() {
    assert_eq!(tarjetas(""), vec![(0, "default".to_string())]);
    assert_eq!(tarjetas("nada que ver\n"), vec![(0, "default".to_string())]);
}

#[test]
fn ordena_y_se_queda_con_la_primera() {
    let salida = "card 5: X [Cinco]\ncard 2: Y [Dos]\ncard 5: Z [Otra]\n";
    assert_eq!(tarjetas(salida), vec![(2, "Dos".to_string()), (5, "Cinco".to_string())]);
}

#[test]
fn nombre_sin_corchetes_hasta_la_coma() {
    let salida = "card 3:  USB Audio , device 0\r\ncard 4:sin coma";
    assert_eq!(tarjetas(salida), vec![(3, "USB Audio".to_string()), (4, "sin coma".to_string())]);
}

#[test]
fn numeros_como_los_lee_parse() {
    let salida = "card +7: a [Siete]\ncard 300: b [Grande]\ncard -1: c [Neg]\ncard card 8: d [Ocho]\ncard : e [Vacio]";
    assert_eq!(tarjetas(salida), vec![(7, "Siete".to_string()), (8, "Ocho".to_string())]);
}

#[test]
fn corchetes_al_reves_no_da_listado() {
    assert!(tarjetas_de_aplay("card 1: a ] b [ c\n").is_none());
    // the same line with a number that does not parse is skipped
    assert_eq!(tarjetas("card x: a ] b [ c\n"), vec![(0, "default".to_string())]);
}
