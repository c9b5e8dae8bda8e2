use mcp960x::bus::{pointer_frame, word_from_be_bytes, write_frame};
use mcp960x::{Address, Register, SensorRegister, Temperature};

#[test]
fn temperature_from_0x0190_is_25_degrees() {
    let t = Temperature::from_register(word_from_be_bytes([0x01, 0x90]));
    assert_eq!(t.to_bits(), 400);
    assert_eq!(t.to_bits() as f64 / 16.0, 25.0);
    assert_eq!(t.whole_degrees(), 25);
    assert_eq!(t.fraction_sixteenths(), 0);
}

#[test]
fn temperature_negative_is_sign_extended() {
    let t = Temperature::from_register(0xff70);
    assert_eq!(t.to_bits(), -144);
    assert_eq!(t.to_bits() as f64 / 16.0, -9.0);
    let t = Temperature::from_register(0xfffc);
    assert_eq!(t.to_bits(), -4);
    assert_eq!(t.whole_degrees(), -1);
    assert_eq!(t.fraction_sixteenths(), 12);
    assert_eq!(Temperature::from_register(0x8000).to_bits(), i16::MIN);
    assert_eq!(Temperature::from_register(0x7fff).to_bits(), i16::MAX);
}

#[test]
fn temperature_register_round_trip() {
    for v in [0u16, 1, 0x0190, 0x7fff, 0x8000, 0xff70, 0xffff] {
        assert_eq!(Temperature::from_register(v).to_register(), v);
    }
    assert_eq!(Temperature::from_bits(-144).to_register(), 0xff70);
}

#[test]
fn status_0b10000001_sets_alert_1_and_burst_complete() {
    let s = SensorRegister::new(0b1000_0001);
    assert_eq!(s.alert_1(), 1);
    assert_eq!(s.alert_2(), 0);
    assert_eq!(s.alert_3(), 0);
    assert_eq!(s.alert_5(), 0);
    assert_eq!(s.in_range(), 0);
    assert_eq!(s.sc(), 0);
    assert_eq!(s.t_update(), 0);
    assert_eq!(s.burst_complete(), 1);
}

#[test]
fn status_flags_follow_bit_positions() {
    let s = SensorRegister::new(0b0111_1110);
    assert_eq!(
        [s.alert_1(), s.alert_2(), s.alert_3(), s.alert_5(), s.in_range(), s.sc(), s.t_update(), s.burst_complete()],
        [0, 1, 1, 1, 1, 1, 1, 0]
    );
}

#[test]
fn register_indices_and_addresses() {
    assert_eq!(Register::HotJunctionTemp.index(), 0x00);
    assert_eq!(Register::JunctionTempDelta.index(), 0x01);
    assert_eq!(Register::ColdJunctionTemp.index(), 0x02);
    assert_eq!(Register::Status.index(), 0x04);
    assert_eq!(Register::SensorConfiguration.index(), 0x05);
    assert_eq!(Register::DeviceConfiguration.index(), 0x06);
    assert_eq!(Register::Alert1Config.index(), 0x08);
    assert_eq!(Register::Alert4Hysteresis.index(), 0x0f);
    assert_eq!(Register::Alert1Limit.index(), 0x10);
    assert_eq!(Register::DeviceId.index(), 0x20);
    assert_eq!(Address::Addr0.value(), 0x66);
    assert_eq!(Address::Addr1.value(), 0x67);
    assert_eq!(Address::default(), Address::Addr0);
}

#[test]
fn bus_frames() {
    assert_eq!(write_frame(Register::SensorConfiguration, 0x42), [0x05, 0x42]);
    assert_eq!(pointer_frame(Register::ColdJunctionTemp), [0x02]);
    assert_eq!(word_from_be_bytes([0x12, 0x34]), 0x1234);
}
