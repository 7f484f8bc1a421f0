use quota_ledger::channel_info::guess_channel_info;

#[test]
fn temperature_tags_are_recognized() {
    let r = guess_channel_info("T012");
    assert_eq!(r.measure_unit, "C°");
    assert_eq!(r.name.as_deref(), Some("Temperatura"));

    let r = guess_channel_info("TSUP01");
    assert_eq!(r.measure_unit, "C°");
    assert_eq!(r.name.as_deref(), Some("T. Superfice"));

    let r = guess_channel_info("T_RUG2");
    assert_eq!(r.measure_unit, "C°");
    assert_eq!(r.name.as_deref(), Some("T. Rugiada"));
}

#[test]
fn other_known_tags_are_recognized() {
    let r = guess_channel_info("COND1");
    assert_eq!(r.measure_unit, "C°");
    assert_eq!(r.name.as_deref(), Some("T. Condensa"));

    let r = guess_channel_info("UR03");
    assert_eq!(r.measure_unit, "%");
    assert_eq!(r.name.as_deref(), Some("Umidità Relativa"));

    let r = guess_channel_info("RELAY7");
    assert_eq!(r.measure_unit, "y/n");
    assert_eq!(r.name.as_deref(), Some("Relay"));

    let r = guess_channel_info("CO2");
    assert_eq!(r.measure_unit, "PPM");
    assert_eq!(r.name.as_deref(), Some("CO2"));
}

#[test]
fn unknown_tags_become_their_own_unit() {
    let r = guess_channel_info("PRESSURE");
    assert_eq!(r.measure_unit, "PRESSURE");
    assert!(r.name.is_none());

    let r = guess_channel_info("");
    assert_eq!(r.measure_unit, "");
    assert!(r.name.is_none());
}
