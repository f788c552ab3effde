use mb::error::Error;
use mb::protocol::{calculate_crc, Function, FunctionCode};
use mb::temperature::{Temperature, TemperatureMode};
use mb::transport::ResponseReader;
use mb::voltage::{Voltage, VoltageData};

#[test]
fn voltage_request_bytes() {
    let req = Voltage::request(0x01);
    assert_eq!(
        req.request_data(),
        vec![0x01, 0x04, 0x00, 0x00, 0x00, 0x1E, 0x70, 0x02]
    );
}

#[test]
fn temperature_request_bytes() {
    let req = Temperature::request(0x01, &TemperatureMode::Temp1);
    assert_eq!(
        req.request_data(),
        vec![0x01, 0x03, 0x00, 0x0A, 0x00, 0x01, 0xA4, 0x08]
    );
    let set = Temperature::request(0x01, &TemperatureMode::Set1(0x0259));
    assert_eq!(
        set.request_data(),
        vec![0x01, 0x06, 0x00, 0x3C, 0x02, 0x59, 0x88, 0x9C]
    );
}

#[test]
fn crc_of_known_frame() {
    assert_eq!(calculate_crc(&[0x01, 0x04, 0x00, 0x00, 0x00, 0x1E]), 0x0270);
    assert_eq!(calculate_crc(&[]), 0xFFFF);
}

#[test]
fn crc_trailer_matches_prefix() {
    let frames = vec![
        Function::new(7, FunctionCode::WriteMultipleRegisters, vec![1, 2, 0xABCD]),
        Function::new(0, FunctionCode::Custom(0x42), vec![]),
        Function::new(255, FunctionCode::ReadCoils, vec![0xFFFF; 40]),
    ];
    for f in frames {
        for e in [f.request_data(), f.response_data()] {
            let n = e.len();
            let crc = calculate_crc(&e[..n - 2]);
            assert_eq!(e[n - 2], (crc & 0xFF) as u8);
            assert_eq!(e[n - 1], (crc >> 8) as u8);
        }
    }
}

#[test]
fn function_code_round_trip() {
    for v in 0..=255u8 {
        assert_eq!(FunctionCode::new(v).value(), v);
    }
    let named = [
        FunctionCode::ReadCoils,
        FunctionCode::ReadDiscreteInputs,
        FunctionCode::ReadHoldingRegisters,
        FunctionCode::ReadInputRegisters,
        FunctionCode::WriteSingleCoil,
        FunctionCode::WriteSingleRegister,
        FunctionCode::WriteMultipleCoils,
        FunctionCode::WriteMultipleRegisters,
        FunctionCode::MaskWriteRegister,
        FunctionCode::ReadWriteMultipleRegisters,
    ];
    for c in named {
        assert_eq!(FunctionCode::new(c.value()), c);
    }
    assert_eq!(FunctionCode::new(0x2B), FunctionCode::Custom(0x2B));
    assert_eq!(FunctionCode::new(0x10), FunctionCode::WriteMultipleRegisters);
}

#[test]
fn response_decode_rejects_short_input() {
    for n in 0..5usize {
        let bytes = vec![0u8; n];
        assert!(matches!(Function::parse_response(&bytes), Err(Error::DataShort)));
    }
    for n in 0..4usize {
        let bytes = vec![0u8; n];
        assert!(matches!(Function::parse_request(&bytes), Err(Error::DataShort)));
    }
}

#[test]
fn response_decode_length_errors() {
    // byte count larger than the frame
    assert!(matches!(
        Function::parse_response(&[1, 3, 4, 0, 1]),
        Err(Error::DataLenError)
    ));
    // odd byte count
    assert!(matches!(
        Function::parse_response(&[1, 3, 1, 0, 1, 2]),
        Err(Error::DataLenError)
    ));
    // odd payload in a request
    assert!(matches!(
        Function::parse_request(&[1, 6, 0, 1, 2, 3, 4]),
        Err(Error::DataLenError)
    ));
}

#[test]
fn response_decode_ignores_crc() {
    let f = Function::parse_response(&[0x02, 0x03, 0x02, 0x01, 0x02, 0xDE, 0xAD]).unwrap();
    assert_eq!(f.slave(), 2);
    assert_eq!(f.code(), FunctionCode::ReadHoldingRegisters);
    assert_eq!(f.data(), vec![0x0102]);
}

#[test]
fn request_round_trip() {
    let f = Function::new(9, FunctionCode::WriteSingleRegister, vec![0x003C, 0x0259]);
    let back = Function::parse_request(&f.request_data()).unwrap();
    assert_eq!(back, f);
    let r = Function::parse_response(&f.response_data()).unwrap();
    assert_eq!(r, f);
}

#[test]
fn response_byte_count_field() {
    let f = Function::new(1, FunctionCode::ReadInputRegisters, vec![5; 30]);
    let bytes = f.response_data();
    assert_eq!(bytes.len(), 65);
    assert_eq!(bytes[2], 60);
}

#[test]
fn voltage_end_to_end() {
    let words: Vec<u16> = (0..30u16).map(|i| 1000 + i * 7).collect();
    let bytes = Function::new(0x01, FunctionCode::ReadInputRegisters, words.clone()).response_data();
    assert_eq!(bytes.len(), 65);
    assert_eq!(&bytes[..3], &[0x01, 0x04, 60]);
    let mut reader = ResponseReader::new();
    let mut more = true;
    let mut pos = 0;
    while more {
        let end = (pos + 32).min(bytes.len());
        more = reader.push_chunk(&bytes[pos..end]);
        pos = end;
    }
    assert_eq!(reader.len(), 65);
    let frame = reader.finish().unwrap();
    let data = VoltageData::from_response(&frame, 1234).unwrap();
    assert_eq!(data.slave, 1);
    assert_eq!(data.time, 1234);
    assert_eq!(data.data.len(), 15);
    for (i, ch) in data.data.iter().enumerate() {
        assert_eq!(ch.index, i);
        assert_eq!(ch.voltage, words[2 * i] as u32 * 1000);
        assert_eq!(ch.current, words[2 * i + 1] as u32 * 1000);
    }
}

#[test]
fn reader_stops_on_short_chunk() {
    let mut reader = ResponseReader::new();
    assert!(reader.push_chunk(&[0u8; 32]));
    assert!(!reader.push_chunk(&[1u8; 5]));
    assert!(!reader.push_chunk(&[]));
    assert_eq!(reader.len(), 37);
}

#[test]
fn crc_checked_decode() {
    let f = Function::new(2, FunctionCode::ReadHoldingRegisters, vec![0x0102, 0x0304]);
    let good = f.response_data();
    assert_eq!(Function::parse_response_with(&good, true).unwrap(), f);
    let mut bad = good.clone();
    let n = bad.len();
    bad[n - 1] ^= 0x01;
    assert!(matches!(Function::parse_response_with(&bad, true), Err(Error::CrcMismatch)));
    assert_eq!(Function::parse_response_with(&bad, false).unwrap(), f);
    // no room for a CRC after the payload
    assert!(matches!(
        Function::parse_response_with(&[2, 3, 2, 1, 2], true),
        Err(Error::CrcMismatch)
    ));
    assert!(matches!(Function::parse_response_with(&[2, 3], true), Err(Error::DataShort)));
}

#[test]
fn request_with_empty_payload() {
    let f = Function::parse_request(&[1, 6, 0, 1]).unwrap();
    assert_eq!(f.slave(), 1);
    assert_eq!(f.code(), FunctionCode::WriteSingleRegister);
    assert!(f.data().is_empty());
    let empty = Function::new(3, FunctionCode::ReadCoils, vec![]);
    assert_eq!(empty.request_data().len(), 4);
    assert_eq!(Function::parse_request(&empty.request_data()).unwrap(), empty);
}
