use twitch_tts::cola::ColaTTS;

#[test]
fn cola_vacia_no_da_nada() {
    let mut c = ColaTTS::nueva();
    assert_eq!(c.sacar(), None);
}

#[test]
fn cola_saca_en_orden_de_llegada() {
    let mut c = ColaTTS::nueva();
    c.meter("uno".to_string());
    c.meter("dos".to_string());
    assert_eq!(c.sacar(), Some("uno".to_string()));
    c.meter("tres".to_string());
    assert_eq!(c.sacar(), Some("dos".to_string()));
    assert_eq!(c.sacar(), Some("tres".to_string()));
    assert_eq!(c.sacar(), None);
}
