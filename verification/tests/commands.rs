use log_o_matic::commands::{power_payload, preset_payload, PowerItem, PresetError};

#[test]
fn power_payload_texts() {
    assert_eq!(power_payload(PowerItem::System, true), "{\"dps\":{\"101\":true}}");
    assert_eq!(power_payload(PowerItem::System, false), "{\"dps\":{\"101\":false}}");
    assert_eq!(power_payload(PowerItem::Flame, true), "{\"dps\":{\"10\":true}}");
    assert_eq!(power_payload(PowerItem::Heater, false), "{\"dps\":{\"1\":false}}");
}

#[test]
fn preset_payload_in_range() {
    assert_eq!(preset_payload(1).unwrap(), "{\"dps\":{\"102\":1}}");
    assert_eq!(preset_payload(5).unwrap(), "{\"dps\":{\"102\":5}}");
    assert_eq!(preset_payload(9).unwrap(), "{\"dps\":{\"102\":9}}");
}

#[test]
fn preset_payload_rejects_out_of_range() {
    assert_eq!(preset_payload(0), Err(PresetError::OutOfRange));
    assert_eq!(preset_payload(10), Err(PresetError::OutOfRange));
    assert_eq!(preset_payload(255), Err(PresetError::OutOfRange));
    assert_eq!(PresetError::OutOfRange.message(), "Preset is not in range (1 to 9)");
}
