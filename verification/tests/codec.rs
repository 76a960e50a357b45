use log_o_matic::Flame;

#[test]
fn wire_bytes_of_baseline_flame() {
    let f = Flame::new();
    let raw = f.wire_bytes();
    // main flame: on<<9 + yellow(3)<<8 + 100 = 0x0564, and so on per
    // channel; then the 0x0264 marker and the speed byte
    let expected: Vec<u8> = vec![
        0x05, 0x64, 0x05, 0x64, 0x03, 0x64, 0x0E, 0x64, 0x01, 0x00, 0x05, 0x64, 0x02, 0x64, 60,
    ];
    assert_eq!(raw, expected);
}

#[test]
fn wire_buffer_is_always_15_bytes() {
    let flames = [
        Flame::new(),
        Flame::summon_fire(0, 0, 0),
        Flame::summon_fire(100, 100, 100),
        Flame::summon_fire(37, 91, 4),
    ];
    for f in flames.iter() {
        assert_eq!(f.wire_bytes().len(), 15);
    }
}

#[test]
fn base64_text_of_baseline_flame() {
    let f = Flame::new();
    assert_eq!(f.to_base64(), "BWQFZANkDmQBAAVkAmQ8");
}

#[test]
fn base64_text_of_full_fire() {
    let f = Flame::summon_fire(100, 100, 100);
    assert_eq!(f.to_base64(), "BWQFZAMyDmQBAAVXAmQy");
}

#[test]
fn base64_text_is_always_20_characters() {
    let flames = [
        Flame::new(),
        Flame::summon_fire(0, 0, 0),
        Flame::summon_fire(100, 100, 100),
        Flame::summon_fire(12, 34, 56),
    ];
    for f in flames.iter() {
        assert_eq!(f.to_base64().len(), 20);
    }
}

#[test]
fn base64_text_decodes_back_to_the_wire_bytes() {
    let f = Flame::summon_fire(42, 77, 13);
    let decoded =
        base64::Engine::decode(&base64::engine::general_purpose::STANDARD, f.to_base64()).unwrap();
    assert_eq!(decoded, f.wire_bytes());
    assert_eq!(decoded.len(), 15);
}

#[test]
fn encoding_is_deterministic() {
    let a = Flame::summon_fire(60, 40, 80);
    let b = Flame::summon_fire(60, 40, 80);
    assert_eq!(a.to_base64(), b.to_base64());
    assert_eq!(a.dps_payload(), b.dps_payload());
    assert_eq!(a.to_base64(), a.to_base64());
}

#[test]
fn dps_payload_envelope() {
    let f = Flame::new();
    let payload = f.dps_payload();
    assert_eq!(payload, "{\"dps\":{\"104\":\"BWQFZANkDmQBAAVkAmQ8\"}}");
    assert_eq!(payload.len(), 38);
    assert!(payload.starts_with("{\"dps\":{\"104\":\""));
    assert!(payload.ends_with("\"}}"));
}
