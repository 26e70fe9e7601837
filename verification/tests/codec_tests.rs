use gateway::codec::ModbusDataPointReader;
use gateway::codec::ModbusDataType;
use gateway::codec::regs_to_bytes;
use gateway::definitions::DataPoint;

fn reader(offset: usize, count: usize, data_type: ModbusDataType, key: &str) -> ModbusDataPointReader {
    ModbusDataPointReader {
        data_offset: offset,
        register_count: count,
        data_type,
        key_name: String::from(key),
    }
}

fn parsed(r: &ModbusDataPointReader, data: Vec<u16>) -> DataPoint {
    r.parse(data).expect("reader in range")
}

#[test]
fn test_datapoint_alignment() {
    let data: Vec<u16> = vec![0x1000, 0x2000, 0x3000, 0xFFFF];
    let bytes = regs_to_bytes(&data);
    println!(
        "First: {:?}, Second: {:?}, Third: {:?}",
        &bytes[..0],
        &bytes[..],
        &bytes[bytes.len()..]
    );
}

#[test]
fn construct_float_datapoint() {
    let data: Vec<u16> = vec![0x999A, 0x4121];

    let show: f32 = 10.1;
    println!("f32 to bits: {:x}", show.to_bits());

    let structure = ModbusDataPointReader {
        data_offset: 0usize,
        register_count: 4usize,
        data_type: ModbusDataType::Float,
        key_name: String::from("TestingTimeseries"),
    };

    let ret = structure.parse(data.to_vec());

    println!("Return: {:?}", ret);
}

#[test]
fn float_decode_big_endian() {
    // 10.1 as a 32-bit float is 0x4121999A; high register first.
    let data: Vec<u16> = vec![0x4121, 0x999A];
    let point = parsed(&reader(0, 2, ModbusDataType::Float, "v"), data);
    assert_eq!(point.key, "v");
    assert_eq!(point.value, "10.1");
    assert_eq!(point.ts, None);
}

#[test]
fn double_decode_big_endian() {
    // 10.5 as a 64-bit float is 0x4025000000000000.
    let data: Vec<u16> = vec![0x4025, 0x0000, 0x0000, 0x0000];
    let point = parsed(&reader(0, 4, ModbusDataType::Double, "d"), data);
    assert_eq!(point.value, "10.5");
}

#[test]
fn unsigned_decode() {
    let point = parsed(&reader(0, 1, ModbusDataType::UInt16, "u"), vec![0x1234]);
    assert_eq!(point.value, "4660");

    let point = parsed(&reader(0, 2, ModbusDataType::UInt32, "u"), vec![0x0001, 0x0000]);
    assert_eq!(point.value, "65536");

    let point = parsed(&reader(0, 2, ModbusDataType::UInt32, "u"), vec![0xFFFF, 0xFFFF]);
    assert_eq!(point.value, "4294967295");
}

#[test]
fn signed_decode() {
    let point = parsed(&reader(0, 1, ModbusDataType::Int16, "i"), vec![0xFFFF]);
    assert_eq!(point.value, "-1");

    let point = parsed(&reader(0, 1, ModbusDataType::Int16, "i"), vec![0x8000]);
    assert_eq!(point.value, "-32768");

    let point = parsed(&reader(0, 1, ModbusDataType::Int16, "i"), vec![0x7FFF]);
    assert_eq!(point.value, "32767");

    let point = parsed(&reader(0, 2, ModbusDataType::Int32, "i"), vec![0xFFFF, 0xFFFF]);
    assert_eq!(point.value, "-1");

    let point = parsed(&reader(0, 2, ModbusDataType::Int32, "i"), vec![0x8000, 0x0000]);
    assert_eq!(point.value, "-2147483648");
}

#[test]
fn decode_at_offset() {
    // Bytes 00 01 02 03: a 16-bit read at byte offset 2 sees 0x0203.
    let point = parsed(&reader(2, 1, ModbusDataType::UInt16, "u"), vec![0x0001, 0x0203]);
    assert_eq!(point.value, "515");
}

#[test]
fn reader_past_end_fails_without_panic() {
    let r = reader(2, 2, ModbusDataType::Float, "v");
    assert!(r.parse(vec![0x0000]).is_err());

    let r = reader(0, 4, ModbusDataType::Double, "v");
    assert!(r.parse(vec![0x0000, 0x0000]).is_err());

    let r = reader(0, 1, ModbusDataType::UInt16, "v");
    assert!(r.parse(vec![]).is_err());
}
