use drv260x::registers::{device_id, is_known};
use drv260x::{Effect, OperatingMode, StatusInfo, WaveformEntry};

#[test]
fn effect_entry_masks_to_seven_bits() {
    for id in 0..=255u8 {
        let e = WaveformEntry::effect(id);
        assert_eq!(e.value, id & 0x7F);
        assert!(!e.is_wait);
        assert_eq!(WaveformEntry::effect(e.value), e);
    }
    assert_eq!(WaveformEntry::effect(200).value, 72);
}

#[test]
fn wait_entry_masks_to_seven_bits() {
    for t in 0..=255u8 {
        let e = WaveformEntry::wait(t);
        assert_eq!(e.value, t & 0x7F);
        assert!(e.is_wait);
        assert_eq!(WaveformEntry::wait(e.value), e);
    }
    assert_eq!(WaveformEntry::wait(255).value, 127);
}

#[test]
fn stop_entry_is_zero() {
    let s = WaveformEntry::stop();
    assert_eq!(s.value, 0);
    assert!(!s.is_wait);
    assert_eq!(s.register_value(), 0);
}

#[test]
fn register_value_puts_wait_in_top_bit() {
    assert_eq!(WaveformEntry::wait(5).register_value(), 0x85);
    assert_eq!(WaveformEntry::effect(47).register_value(), 47);
}

#[test]
fn predefined_effects_carry_library_numbers() {
    assert_eq!(Effect::StrongClick100.id(), 1);
    assert_eq!(Effect::SharpClick100.id(), 4);
    assert_eq!(Effect::SoftBump60.id(), 8);
    assert_eq!(Effect::Buzz1_100.id(), 47);
    assert_eq!(Effect::SmoothHum5_10.id(), 123);
    let e = WaveformEntry::from(Effect::SmoothHum5_10);
    assert_eq!(e, WaveformEntry::effect_from_enum(Effect::SmoothHum5_10));
    assert_eq!(e.value, 123);
    assert!(!e.is_wait);
}

#[test]
fn device_id_check() {
    for status in 0..=255u8 {
        let id = device_id(status);
        assert_eq!(id, status >> 5);
        assert_eq!(is_known(id), [3, 4, 6, 7].contains(&id));
    }
    assert_eq!(device_id(0xE7), 7);
    assert!(!is_known(device_id(0x40)));
}

#[test]
fn mode_field_decoding() {
    assert_eq!(OperatingMode::from_register(0x47), OperatingMode::AutoCalibration);
    assert_eq!(OperatingMode::from_register(0xC0), OperatingMode::Internal);
    assert_eq!(OperatingMode::RealTimePlayback.code(), 5);
}

#[test]
fn status_decoding() {
    let s = StatusInfo::from_register(0x9C);
    assert_eq!(s.device_id, 4);
    assert!(s.illegal_address);
    assert!(s.feedback_status);
    assert!(s.diagnostic_result);
    assert!(!s.overcurrent_detected);
    assert!(!s.overtemperature_detected);
}
