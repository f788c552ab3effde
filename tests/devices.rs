use mb::config::{Baudrate, DefectiveRule};
use mb::error::Error;
use mb::mock::{static_response, Mock, RelayMock, TempMock, VoltageMock};
use mb::power::{float_bits_words, words_float_bits, Power, PowerData, PowerMode};
use mb::protocol::{Function, FunctionCode};
use mb::relay::{Relay, RelayData, RelayMode};
use mb::temperature::{TemperatureData, TemperatureMode};
use mb::user::{UserConfig, UserPurview};
use mb::utils::{hms_from_duration, time_from_hms};
use mb::voltage::{get_mb_state, Verify, Voltage, VoltageChannel, VoltageData, VoltageState};

fn channel(voltage: u32, current: u32) -> VoltageChannel {
    VoltageChannel { index: 0, voltage, current, state: VoltageState::NoConnected }
}

#[test]
fn voltage_decode_lengths() {
    let empty = Function::new(1, FunctionCode::ReadInputRegisters, vec![]);
    assert!(matches!(VoltageData::from_response(&empty, 0), Err(Error::DataNull)));
    let short = Function::new(1, FunctionCode::ReadInputRegisters, vec![1; 29]);
    assert!(matches!(VoltageData::from_response(&short, 0), Err(Error::DataLenError)));
    let mut words = vec![0u16; 30];
    words[0] = 12345;
    let full = Function::new(1, FunctionCode::ReadInputRegisters, words);
    let d = VoltageData::from_response(&full, 0).unwrap();
    assert_eq!(d.data[0].voltage, 12_345_000);
}

#[test]
fn threshold_boundaries() {
    let verify = Verify::default();
    assert_eq!(verify.voltage_top, 25_000_000);
    assert_eq!(get_mb_state(&channel(1_000_000, 5_000_000), &verify), VoltageState::Qualified);
    assert_eq!(get_mb_state(&channel(999_999, 5_000_000), &verify), VoltageState::UnderVoltage);
    assert_eq!(get_mb_state(&channel(0, 5_000_000), &verify), VoltageState::NoOutput);
    assert_eq!(get_mb_state(&channel(25_000_100, 5_000_000), &verify), VoltageState::OverVoltage);
    assert_eq!(get_mb_state(&channel(25_000_000, 5_000_000), &verify), VoltageState::Qualified);
}

#[test]
fn voltage_fault_wins_over_current() {
    let verify = Verify::default();
    assert_eq!(get_mb_state(&channel(30_000_000, 20_000_000), &verify), VoltageState::OverVoltage);
    assert_eq!(get_mb_state(&channel(5_000_000, 20_000_000), &verify), VoltageState::OverCurrent);
    assert_eq!(get_mb_state(&channel(5_000_000, 500_000), &verify), VoltageState::UnderCurrent);
    assert_eq!(get_mb_state(&channel(5_000_000, 0), &verify), VoltageState::NoOutput);
}

#[test]
fn channel_index_and_state_updates() {
    let mut d = VoltageData::from_words(&static_response(), 5, 3);
    d.update_channel_index(2);
    assert_eq!(d.data[0].index, 30);
    assert_eq!(d.data[14].index, 44);
    d.update_channel_state(&Verify::default());
    // channel 0: 0 V
    assert_eq!(d.data[0].state, VoltageState::NoOutput);
    // channel 1: 10 V, 10 mA
    assert_eq!(d.data[1].state, VoltageState::UnderCurrent);
}

#[test]
fn relay_bits() {
    assert_eq!(RelayData::set_bit(0, 3, true), 0b1000);
    assert_eq!(RelayData::set_bit(0xFF, 0, false), 0xFE);
    assert_eq!(RelayData::set_bit(0, 12, true), 0x80);
    let r = RelayData { time: 0, value: 0b0000_0101 };
    assert!(r.get_state(0));
    assert!(!r.get_state(1));
    assert!(r.get_state(2));
    assert!(!r.get_state(9));
}

#[test]
fn relay_requests() {
    let on = Relay::request(2, &RelayMode::ON(0b0001, 2));
    assert_eq!(on.code(), FunctionCode::WriteSingleRegister);
    assert_eq!(on.data(), vec![0, 0b0101]);
    let off = Relay::request(2, &RelayMode::OFF(0b0101, 0));
    assert_eq!(off.data(), vec![0, 0b0100]);
    let read = Relay::request(2, &RelayMode::Read);
    assert_eq!(read.code(), FunctionCode::ReadHoldingRegisters);
    assert_eq!(read.data(), vec![0, 1]);
    let empty = Function::new(2, FunctionCode::ReadHoldingRegisters, vec![]);
    assert!(matches!(RelayData::from_response(&empty, 0), Err(Error::DataNull)));
    let full = Function::new(2, FunctionCode::ReadHoldingRegisters, vec![0x21]);
    assert_eq!(RelayData::from_response(&full, 9).unwrap(), RelayData { time: 9, value: 0x21 });
}

#[test]
fn temperature_modes() {
    assert_eq!(TemperatureMode::Temp2.params(), (FunctionCode::ReadHoldingRegisters, [14, 1]));
    assert_eq!(TemperatureMode::Set2(300).params(), (FunctionCode::WriteSingleRegister, [61, 300]));
    assert_eq!(TemperatureMode::Run(2).params(), (FunctionCode::WriteSingleRegister, [63, 2]));
    assert_eq!(TemperatureMode::Run(3).params(), (FunctionCode::WriteSingleRegister, [63, 0]));
    assert_eq!(TemperatureMode::KeyA(1).params(), (FunctionCode::WriteSingleRegister, [46, 1]));
    assert_eq!(TemperatureMode::KeyB(2).params(), (FunctionCode::WriteSingleRegister, [47, 0]));
    let empty = Function::new(1, FunctionCode::ReadHoldingRegisters, vec![]);
    assert!(matches!(TemperatureData::from_response(&empty, 0), Err(Error::DataNull)));
    let full = Function::new(1, FunctionCode::ReadHoldingRegisters, vec![600]);
    assert_eq!(TemperatureData::from_response(&full, 1).unwrap().value, 600);
}

#[test]
fn power_packed_float() {
    let bits = 60.0f32.to_bits();
    assert_eq!(float_bits_words(bits), [0x4270, 0x0000]);
    assert_eq!(words_float_bits(0x4270, 0x0000), bits);
    let w = float_bits_words(12.5f32.to_bits());
    assert_eq!(f32::from_bits(words_float_bits(w[0], w[1])), 12.5);
    let req = Power::request(3, &PowerMode::SetVoltage(bits));
    assert_eq!(req.code(), FunctionCode::WriteMultipleRegisters);
    assert_eq!(req.data(), vec![0x000A, 0x4270, 0x0000]);
    assert_eq!(PowerMode::Current.params().1, vec![6, 0xC000]);
    let resp = Function::new(3, FunctionCode::ReadHoldingRegisters, vec![0x4270, 0x0000]);
    let d = PowerData::from_response(&resp, 0).unwrap();
    assert_eq!(f32::from_bits(d.value), 60.0);
    let short = Function::new(3, FunctionCode::ReadHoldingRegisters, vec![0x4270]);
    assert!(matches!(PowerData::from_response(&short, 0), Err(Error::DataNull)));
}

#[test]
fn hms_conversions() {
    assert_eq!(time_from_hms(1, 2, 3), 3723);
    assert_eq!(hms_from_duration(3723), (1, 2, 3));
    assert_eq!(hms_from_duration(59), (0, 0, 59));
}

#[test]
fn baudrates() {
    assert_eq!(Baudrate::from_value(115200), Baudrate::R115200);
    assert_eq!(Baudrate::from_value(1234), Baudrate::R9600);
    assert_eq!(Baudrate::R4800.value(), 4800);
    assert_eq!(DefectiveRule::InTime.title(), "时间段");
}

#[test]
fn user_passwords() {
    let u = UserConfig::new("a".to_string(), "pw".to_string(), vec![UserPurview::Run], 7);
    assert!(u.check_pwd("pw".to_string()));
    assert!(!u.check_pwd("px".to_string()));
    let empty = UserConfig::new("b".to_string(), String::new(), vec![], 0);
    assert!(!empty.check_pwd(String::new()));
    let root = UserConfig::default();
    assert!(root.check_pwd("9600".to_string()));
    assert_eq!(root.purview.len(), 4);
}

#[test]
fn mocks_answer_their_requests() {
    let v = VoltageMock::new(5);
    assert_eq!(v.request(), Voltage::request(5));
    assert_eq!(v.response().data(), static_response());
    let t = TempMock::new(1, TemperatureMode::Temp1);
    assert_eq!(t.response().data(), vec![600]);
    let req = Relay::request(2, &RelayMode::ONOFF(0x0F)).request_data();
    let m = RelayMock::from_request(&req).unwrap();
    assert_eq!(m.response().data(), vec![0, 0x0F]);
    let read = Relay::request(2, &RelayMode::Read).request_data();
    let r = RelayMock::from_request(&read).unwrap();
    assert_eq!(r.response().data(), vec![0]);
    let set = TempMock::from_request(&[0x01, 0x06, 0x00, 0x3C, 0x02, 0x59, 0x88, 0x9C]).unwrap();
    assert_eq!(set.response().data(), vec![0x3C, 0x259]);
}
