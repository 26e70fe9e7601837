use std::sync::mpsc;

use gateway::codec::DecodeError;
use gateway::codec::ModbusDataPointReader;
use gateway::codec::ModbusDataType;
use gateway::definitions::AggregatorAction;
use gateway::definitions::OneTelemetry;
use gateway::frame::crc16_compute;
use gateway::modbus::decode_group;
use gateway::modbus::handle_group_response;
use gateway::modbus::validate_slaves;
use gateway::modbus::ChannelStatus;
use gateway::modbus::ConfigError;
use gateway::modbus::GroupError;
use gateway::modbus::ModbusClientRtuConfig;
use gateway::modbus::ModbusClientTcpConfig;
use gateway::modbus::ModbusRegisterGroup;
use gateway::modbus::ModbusRtuChannel;
use gateway::modbus::data_bits_from_config;
use gateway::modbus::parity_from_config;
use gateway::modbus::stop_bits_from_config;
use gateway::modbus::ModbusSlave;
use gateway::modbus::ModbusTcpChannel;
use gateway::modbus::SerialDataBits;
use gateway::modbus::SerialParity;
use gateway::modbus::SerialStopBits;

fn slave(name: &str, id: u8) -> ModbusSlave {
    ModbusSlave {
        device_name: String::from(name),
        device_type: None,
        modbus_id: id,
        register_map: String::from("maps/m.yml"),
    }
}

fn reader(offset: usize, data_type: ModbusDataType, key: &str) -> ModbusDataPointReader {
    ModbusDataPointReader {
        data_offset: offset,
        register_count: 1,
        data_type,
        key_name: String::from(key),
    }
}

#[test]
fn valid_slave_set_passes() {
    let slaves = vec![slave("a", 1), slave("b", 247)];
    assert_eq!(validate_slaves(&slaves), Ok(()));
}

#[test]
fn unit_id_out_of_range_is_rejected() {
    let slaves = vec![slave("a", 1), slave("b", 0)];
    assert_eq!(
        validate_slaves(&slaves),
        Err(ConfigError::BadUnitId { index: 1 })
    );
    let slaves = vec![slave("a", 248)];
    assert_eq!(
        validate_slaves(&slaves),
        Err(ConfigError::BadUnitId { index: 0 })
    );
}

#[test]
fn duplicate_device_name_is_rejected() {
    let slaves = vec![slave("a", 1), slave("b", 2), slave("a", 3)];
    assert_eq!(
        validate_slaves(&slaves),
        Err(ConfigError::DuplicateDeviceName { index: 2 })
    );
}

#[test]
fn group_decode_all_readers() {
    let group = ModbusRegisterGroup {
        starting_address: 0,
        elements_count: 2,
        data_points: vec![
            reader(0, ModbusDataType::UInt16, "first"),
            reader(2, ModbusDataType::Int16, "second"),
        ],
    };
    let points = decode_group(&group, &vec![0x0007, 0xFFFE]).unwrap();
    assert_eq!(points.len(), 2);
    assert_eq!(points[0].key, "first");
    assert_eq!(points[0].value, "7");
    assert_eq!(points[1].key, "second");
    assert_eq!(points[1].value, "-2");
}

#[test]
fn group_with_reader_past_end_fails_whole_group() {
    let group = ModbusRegisterGroup {
        starting_address: 0,
        elements_count: 1,
        data_points: vec![
            reader(0, ModbusDataType::UInt16, "ok"),
            reader(2, ModbusDataType::UInt16, "past"),
        ],
    };
    assert_eq!(decode_group(&group, &vec![0x0001]), Err(DecodeError::OutOfRange));
}

#[test]
fn group_response_end_to_end() {
    // A response carrying registers 0x0102 and 0xFFFF for unit 9.
    let mut response: Vec<u8> = vec![0x09, 0x03, 0x04, 0x01, 0x02, 0xFF, 0xFF];
    let crc = crc16_compute(&response, 7);
    response.push((crc % 256) as u8);
    response.push((crc / 256) as u8);

    let group = ModbusRegisterGroup {
        starting_address: 0,
        elements_count: 2,
        data_points: vec![
            reader(0, ModbusDataType::UInt16, "u"),
            reader(2, ModbusDataType::Int16, "i"),
        ],
    };
    let points = handle_group_response(&slave("dev", 9), &group, &response).unwrap();
    assert_eq!(points[0].value, "258");
    assert_eq!(points[1].value, "-1");
}

#[test]
fn group_response_bad_frame_is_a_frame_error() {
    let response: Vec<u8> = vec![0x09, 0x03, 0x04, 0x01, 0x02, 0xFF, 0xFF, 0x00, 0x00];
    let group = ModbusRegisterGroup {
        starting_address: 0,
        elements_count: 2,
        data_points: vec![],
    };
    assert!(matches!(
        handle_group_response(&slave("dev", 9), &group, &response),
        Err(GroupError::Frame(_))
    ));
}

#[test]
fn channels_start_stopped() {
    let (tx, _rx) = mpsc::channel::<AggregatorAction>();
    let rtu = ModbusRtuChannel::new(
        ModbusClientRtuConfig {
            name: String::from("chan1"),
            port: String::from("/dev/ttyUSB0"),
            baudrate: 9600,
            parity: 'N',
            data_bits: 8,
            stop_bits: 1,
            slaves: vec![slave("a", 1)],
        },
        vec![],
        tx,
    );
    assert_eq!(rtu.status, ChannelStatus::Stopped);

    let (tx, _rx) = mpsc::channel::<AggregatorAction>();
    let tcp = ModbusTcpChannel::new(
        ModbusClientTcpConfig {
            name: String::from("chan2"),
            host: String::from("192.168.1.1"),
            port: 502,
            slaves: vec![slave("b", 2)],
        },
        vec![],
        tx,
    );
    assert_eq!(tcp.status, ChannelStatus::Stopped);
    assert_eq!(tcp.config.port, 502);
}

#[test]
fn attribute_group_applies_points_to_map() {
    let mut response: Vec<u8> = vec![0x05, 0x03, 0x02, 0x12, 0x34];
    let crc = crc16_compute(&response, 5);
    response.push((crc % 256) as u8);
    response.push((crc / 256) as u8);

    let group = ModbusRegisterGroup {
        starting_address: 0,
        elements_count: 1,
        data_points: vec![reader(0, ModbusDataType::UInt16, "serial")],
    };
    let mut attrs = gateway::definitions::KvMap::new();
    gateway::modbus::apply_attribute_group(&mut attrs, &slave("dev", 5), &group, &response)
        .unwrap();
    assert_eq!(attrs.get(&String::from("serial")), Some(&String::from("4660")));

    // A corrupted frame leaves the map untouched.
    let bad: Vec<u8> = vec![0x05, 0x03, 0x02, 0x12, 0x34, 0x00, 0x00];
    assert!(
        gateway::modbus::apply_attribute_group(&mut attrs, &slave("dev", 5), &group, &bad)
            .is_err()
    );
    assert_eq!(attrs.len(), 1);
}

#[test]
fn raw_group_helpers_mirror_the_framed_ones() {
    let group = ModbusRegisterGroup {
        starting_address: 0,
        elements_count: 1,
        data_points: vec![reader(0, ModbusDataType::UInt16, "serial")],
    };
    let mut attrs = gateway::definitions::KvMap::new();
    gateway::modbus::apply_attribute_raw(&mut attrs, &group, &vec![0x1234]).unwrap();
    assert_eq!(attrs.get(&String::from("serial")), Some(&String::from("4660")));

    let frame = gateway::modbus::timeseries_frame_from_raw(&group, &vec![0x002A], 9).unwrap();
    assert_eq!(frame.ts, 9);
    assert_eq!(frame.values.get(&String::from("serial")), Some(&String::from("42")));

    assert!(gateway::modbus::apply_attribute_raw(&mut attrs, &group, &vec![]).is_err());
    assert_eq!(attrs.len(), 1);
}

#[test]
fn timeseries_group_becomes_one_frame() {
    let mut response: Vec<u8> = vec![0x05, 0x03, 0x02, 0x00, 0x2A];
    let crc = crc16_compute(&response, 5);
    response.push((crc % 256) as u8);
    response.push((crc / 256) as u8);

    let group = ModbusRegisterGroup {
        starting_address: 0,
        elements_count: 1,
        data_points: vec![reader(0, ModbusDataType::UInt16, "power")],
    };
    let frame = gateway::modbus::timeseries_frame_from_group(
        &slave("dev", 5),
        &group,
        &response,
        1700000000000,
    )
    .unwrap();
    assert_eq!(frame.ts, 1700000000000);
    assert_eq!(frame.values.get(&String::from("power")), Some(&String::from("42")));
}

#[test]
fn serial_line_parameter_mapping() {
    assert_eq!(parity_from_config('E'), SerialParity::Even);
    assert_eq!(parity_from_config('O'), SerialParity::Odd);
    assert_eq!(parity_from_config('N'), SerialParity::NoParity);
    assert_eq!(parity_from_config('x'), SerialParity::NoParity);

    assert_eq!(data_bits_from_config(5), SerialDataBits::Five);
    assert_eq!(data_bits_from_config(6), SerialDataBits::Six);
    assert_eq!(data_bits_from_config(7), SerialDataBits::Seven);
    assert_eq!(data_bits_from_config(8), SerialDataBits::Eight);
    assert_eq!(data_bits_from_config(9), SerialDataBits::Eight);

    assert_eq!(stop_bits_from_config(1), SerialStopBits::One);
    assert_eq!(stop_bits_from_config(2), SerialStopBits::Two);
    assert_eq!(stop_bits_from_config(0), SerialStopBits::One);
}

#[test]
fn telemetry_frame_keeps_last_value_per_key() {
    let points = vec![
        gateway::definitions::DataPoint {
            key: String::from("k"),
            value: String::from("1"),
            ts: None,
        },
        gateway::definitions::DataPoint {
            key: String::from("k"),
            value: String::from("2"),
            ts: None,
        },
    ];
    let frame = OneTelemetry::from_points(44, &points);
    assert_eq!(frame.ts, 44);
    assert_eq!(frame.values.len(), 1);
    assert_eq!(frame.values.get(&String::from("k")), Some(&String::from("2")));
}
