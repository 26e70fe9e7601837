//! The Modbus channel model: register maps, slaves, endpoint configurations,
//! the per-group decode step of the poll cycle, and the config validation
//! that every slave set must pass before a poller starts.

use vstd::prelude::*;

use crate::codec::be_bytes_of_regs;
use crate::codec::decoded_text;
use crate::codec::type_width;
use crate::codec::DecodeError;
use crate::codec::ModbusDataPointReader;
use crate::definitions::AggregatorAction;
use crate::definitions::DataPoint;
use crate::definitions::KvMap;
use crate::definitions::OneTelemetry;
use crate::frame::parse_read_holdings_response;
use crate::frame::response_error;
use crate::frame::response_registers;
use crate::frame::wellformed_response;
use crate::frame::FrameError;

verus! {

/// Where a channel stands in its lifecycle.
#[derive(Debug, Clone, Copy, PartialEq, Eq, Structural)]
pub enum ChannelStatus {
    Running,
    Stopped,
    Error,
}

/// The two wire transports a Modbus channel can be configured with.
pub enum ModbusClientConfig {
    Rtu,
    Tcp,
}

/// Which half of a register map a group belongs to.
#[derive(Debug)]
pub enum ModbusRegisterMapType {
    Attributes(Vec<ModbusRegisterGroup>),
    Timeseries(Vec<ModbusRegisterGroup>),
}

/// A register map: the attributes groups and the timeseries groups of one
/// device type.  Immutable after config load.
#[derive(Debug, Clone)]
pub struct ModbusRegisterMap {
    pub attributes: Vec<ModbusRegisterGroup>,
    pub timeseries: Vec<ModbusRegisterGroup>,
}

/// A contiguous block of holding registers read by one request, and the
/// readers that extract its data points.
#[derive(Debug, Clone)]
pub struct ModbusRegisterGroup {
    pub starting_address: u16,
    pub elements_count: u16,
    pub data_points: Vec<ModbusDataPointReader>,
}

/// A Modbus unit id.
pub type ModbusSlaveId = u8;

/// A device identity: its name, optional type, unit id, and the path of its
/// register map.
#[derive(Debug, Clone, PartialEq, Eq, Hash)]
pub struct ModbusSlave {
    pub device_name: String,
    pub device_type: Option<String>,
    pub modbus_id: ModbusSlaveId,
    pub register_map: String,
}

/// A TCP endpoint: host, port and its slaves.
#[derive(Debug, Clone)]
pub struct ModbusClientTcpConfig {
    pub name: String,
    pub host: String,
    pub port: u16,
    pub slaves: Vec<ModbusSlave>,
}

/// A serial endpoint: port path, line parameters and its slaves.
#[derive(Debug, Clone)]
pub struct ModbusClientRtuConfig {
    pub name: String,
    pub port: String,
    pub baudrate: u32,
    pub parity: char,
    pub data_bits: u8,
    pub stop_bits: u8,
    pub slaves: Vec<ModbusSlave>,
}

/// Every reader of the group fits inside the byte image of the raw read.
pub open spec fn group_in_range(readers: Seq<ModbusDataPointReader>, raw: Seq<u16>) -> bool {
    forall|i: int|
        0 <= i < readers.len() ==> (#[trigger] readers[i]).data_offset + type_width(
            readers[i].data_type,
        ) <= 2 * raw.len()
}

/// The key and decimal text every reader of a group extracts from a raw
/// read.
pub open spec fn point_views(
    readers: Seq<ModbusDataPointReader>,
    raw: Seq<u16>,
) -> Seq<(Seq<char>, Seq<char>)> {
    readers.map(
        |i: int, rd: ModbusDataPointReader|
            (rd.key_name@, decoded_text(rd.data_type, be_bytes_of_regs(raw), rd.data_offset as int)),
    )
}

/// Decodes every reader of one register group against a raw read.  A single
/// reader out of range fails the whole group, as the cycle's failure rule
/// asks; no point of a failed group is emitted.
pub fn decode_group(group: &ModbusRegisterGroup, raw: &Vec<u16>) -> (r: Result<
    Vec<DataPoint>,
    DecodeError,
>)
    ensures
        group_in_range(group.data_points@, raw@) ==> (match r {
            Ok(points) => {
                &&& points@.len() == group.data_points@.len()
                &&& forall|i: int|
                    0 <= i < points@.len() ==> (#[trigger] points@[i]).key@ == point_views(
                        group.data_points@,
                        raw@,
                    )[i].0 && points@[i].value@ == point_views(group.data_points@, raw@)[i].1
                        && points@[i].ts is None
            },
            Err(_) => false,
        }),
        !group_in_range(group.data_points@, raw@) ==> r == Err::<Vec<DataPoint>, DecodeError>(
            DecodeError::OutOfRange,
        ),
{
    let n = group.data_points.len();
    let mut points: Vec<DataPoint> = Vec::new();
    let mut i: usize = 0;
    while i < n
        invariant
            n == group.data_points@.len(),
            i <= n,
            points@.len() == i,
            forall|j: int|
                0 <= j < i ==> (#[trigger] group.data_points@[j]).data_offset + type_width(
                    group.data_points@[j].data_type,
                ) <= 2 * raw@.len(),
            forall|j: int|
                0 <= j < i ==> (#[trigger] points@[j]).key@ == point_views(
                    group.data_points@,
                    raw@,
                )[j].0 && points@[j].value@ == point_views(group.data_points@, raw@)[j].1
                    && points@[j].ts is None,
        decreases n - i,
    {
        match group.data_points[i].parse(raw.clone()) {
            Ok(p) => {
                points.push(p);
            },
            Err(e) => {
                return Err(e);
            },
        }
        i += 1;
    }
    Ok(points)
}

/// Why a register group yielded no points this cycle.
#[derive(Debug, Clone, Copy, PartialEq, Eq, Structural)]
pub enum GroupError {
    /// The response frame was rejected.
    Frame(FrameError),
    /// A reader fell outside the raw read.
    Decode(DecodeError),
}

/// The whole receive half of one group read: validates the response frame
/// for this slave and decodes every reader of the group from its payload.
pub fn handle_group_response(
    slave: &ModbusSlave,
    group: &ModbusRegisterGroup,
    response: &Vec<u8>,
) -> (r: Result<Vec<DataPoint>, GroupError>)
    ensures
        wellformed_response(slave.modbus_id, response@) && group_in_range(
            group.data_points@,
            response_registers(response@),
        ) ==> (match r {
            Ok(points) => {
                &&& points@.len() == group.data_points@.len()
                &&& forall|i: int|
                    0 <= i < points@.len() ==> (#[trigger] points@[i]).key@ == point_views(
                        group.data_points@,
                        response_registers(response@),
                    )[i].0 && points@[i].value@ == point_views(
                        group.data_points@,
                        response_registers(response@),
                    )[i].1 && points@[i].ts is None
            },
            Err(_) => false,
        }),
        !wellformed_response(slave.modbus_id, response@) ==> r == Err::<Vec<DataPoint>, GroupError>(
            GroupError::Frame(response_error(slave.modbus_id, response@)),
        ),
        wellformed_response(slave.modbus_id, response@) && !group_in_range(
            group.data_points@,
            response_registers(response@),
        ) ==> r == Err::<Vec<DataPoint>, GroupError>(GroupError::Decode(DecodeError::OutOfRange)),
{
    match parse_read_holdings_response(slave.modbus_id, response) {
        Ok(raw) => {
            match decode_group(group, &raw) {
                Ok(points) => Ok(points),
                Err(e) => Err(GroupError::Decode(e)),
            }
        },
        Err(e) => Err(GroupError::Frame(e)),
    }
}

/// One attributes group of a poller whose transport already yields raw
/// registers: every reader of the group is decoded and each point's key
/// and value land in the slave's attribute map.  An out-of-range reader
/// skips the group and leaves the map untouched.
pub fn apply_attribute_raw(attrs: &mut KvMap, group: &ModbusRegisterGroup, raw: &Vec<u16>) -> (r:
    Result<(), DecodeError>)
    ensures
        group_in_range(group.data_points@, raw@) ==> r is Ok && final(attrs)@
            == crate::definitions::kv_insert_views(
            old(attrs)@,
            point_views(group.data_points@, raw@),
        ),
        !group_in_range(group.data_points@, raw@) ==> r is Err && final(attrs)@ == old(attrs)@,
{
    match decode_group(group, raw) {
        Ok(points) => {
            proof {
                crate::definitions::lemma_insert_points_views(
                    attrs@,
                    points@,
                    point_views(group.data_points@, raw@),
                );
            }
            crate::definitions::insert_points(attrs, &points);
            Ok(())
        },
        Err(e) => Err(e),
    }
}

/// One timeseries group of a poller whose transport already yields raw
/// registers: the group is decoded and its points become one telemetry
/// frame stamped with the given capture time.
pub fn timeseries_frame_from_raw(group: &ModbusRegisterGroup, raw: &Vec<u16>, ts: i64) -> (r:
    Result<OneTelemetry, DecodeError>)
    ensures
        group_in_range(group.data_points@, raw@) ==> (match r {
            Ok(frame) => frame@.ts == ts as int && frame@.values
                == crate::definitions::kv_insert_views(
                Seq::empty(),
                point_views(group.data_points@, raw@),
            ),
            Err(_) => false,
        }),
        !group_in_range(group.data_points@, raw@) ==> r is Err,
{
    match decode_group(group, raw) {
        Ok(points) => {
            proof {
                crate::definitions::lemma_insert_points_views(
                    Seq::empty(),
                    points@,
                    point_views(group.data_points@, raw@),
                );
            }
            Ok(OneTelemetry::from_points(ts, &points))
        },
        Err(e) => Err(e),
    }
}

/// One attributes group of the poll cycle, end to end: the response frame
/// is validated for this slave, every reader of the group is decoded, and
/// each point's key and value land in the slave's attribute map.  A
/// rejected frame or an out-of-range reader skips the group and leaves the
/// map untouched.
pub fn apply_attribute_group(
    attrs: &mut KvMap,
    slave: &ModbusSlave,
    group: &ModbusRegisterGroup,
    response: &Vec<u8>,
) -> (r: Result<(), GroupError>)
    ensures
        wellformed_response(slave.modbus_id, response@) && group_in_range(
            group.data_points@,
            response_registers(response@),
        ) ==> r is Ok && final(attrs)@ == crate::definitions::kv_insert_views(
            old(attrs)@,
            point_views(group.data_points@, response_registers(response@)),
        ),
        !(wellformed_response(slave.modbus_id, response@) && group_in_range(
            group.data_points@,
            response_registers(response@),
        )) ==> r is Err && final(attrs)@ == old(attrs)@,
{
    match handle_group_response(slave, group, response) {
        Ok(points) => {
            proof {
                crate::definitions::lemma_insert_points_views(
                    attrs@,
                    points@,
                    point_views(group.data_points@, response_registers(response@)),
                );
            }
            crate::definitions::insert_points(attrs, &points);
            Ok(())
        },
        Err(e) => Err(e),
    }
}

/// One timeseries group of the poll cycle, end to end: the response frame
/// is validated, the group is decoded, and the points become one telemetry
/// frame stamped with the given capture time.  A rejected frame or an
/// out-of-range reader yields no frame.
pub fn timeseries_frame_from_group(
    slave: &ModbusSlave,
    group: &ModbusRegisterGroup,
    response: &Vec<u8>,
    ts: i64,
) -> (r: Result<OneTelemetry, GroupError>)
    ensures
        wellformed_response(slave.modbus_id, response@) && group_in_range(
            group.data_points@,
            response_registers(response@),
        ) ==> (match r {
            Ok(frame) => frame@.ts == ts as int && frame@.values
                == crate::definitions::kv_insert_views(
                Seq::empty(),
                point_views(group.data_points@, response_registers(response@)),
            ),
            Err(_) => false,
        }),
        !(wellformed_response(slave.modbus_id, response@) && group_in_range(
            group.data_points@,
            response_registers(response@),
        )) ==> r is Err,
{
    match handle_group_response(slave, group, response) {
        Ok(points) => {
            proof {
                crate::definitions::lemma_insert_points_views(
                    Seq::empty(),
                    points@,
                    point_views(group.data_points@, response_registers(response@)),
                );
            }
            Ok(OneTelemetry::from_points(ts, &points))
        },
        Err(e) => Err(e),
    }
}

/// Why a slave set was rejected at startup.
#[derive(Debug, Clone, Copy, PartialEq, Eq, Structural)]
pub enum ConfigError {
    /// The slave at this position has a unit id outside 1..=247.
    BadUnitId { index: usize },
    /// The slave at this position repeats an earlier slave's device name.
    DuplicateDeviceName { index: usize },
}

/// Every unit id lies in 1..=247 and no two slaves share a device name.
pub open spec fn slaves_valid(slaves: Seq<ModbusSlave>) -> bool {
    &&& forall|i: int|
        0 <= i < slaves.len() ==> 1 <= (#[trigger] slaves[i]).modbus_id <= 247
    &&& forall|i: int, j: int|
        0 <= i < j < slaves.len() ==> (#[trigger] slaves[i]).device_name@ != (
        #[trigger] slaves[j]).device_name@
}

/// Validates a channel's slave set before any poller starts: unit ids must
/// lie in 1..=247 and device names must be unique, the first offending
/// slave is named.
pub fn validate_slaves(slaves: &Vec<ModbusSlave>) -> (r: Result<(), ConfigError>)
    ensures
        r is Ok <==> slaves_valid(slaves@),
        match r {
            Ok(_) => true,
            Err(ConfigError::BadUnitId { index }) => {
                &&& index < slaves@.len()
                &&& !(1 <= slaves@[index as int].modbus_id <= 247)
            },
            Err(ConfigError::DuplicateDeviceName { index }) => {
                &&& index < slaves@.len()
                &&& exists|j: int|
                    0 <= j < index && (#[trigger] slaves@[j]).device_name@ == slaves@[index as int].device_name@
            },
        },
{
    let n = slaves.len();
    let mut i: usize = 0;
    while i < n
        invariant
            n == slaves@.len(),
            i <= n,
            forall|k: int| 0 <= k < i ==> 1 <= (#[trigger] slaves@[k]).modbus_id <= 247,
            forall|k: int, j: int|
                0 <= j < k < i ==> (#[trigger] slaves@[j]).device_name@ != (
                #[trigger] slaves@[k]).device_name@,
        decreases n - i,
    {
        let id = slaves[i].modbus_id;
        if id < 1 || id > 247 {
            return Err(ConfigError::BadUnitId { index: i });
        }
        let mut j: usize = 0;
        while j < i
            invariant
                n == slaves@.len(),
                i < n,
                j <= i,
                forall|k: int|
                    0 <= k < j ==> (#[trigger] slaves@[k]).device_name@ != slaves@[i as int].device_name@,
            decreases i - j,
        {
            if slaves[j].device_name == slaves[i].device_name {
                return Err(ConfigError::DuplicateDeviceName { index: i });
            }
            j += 1;
        }
        i += 1;
    }
    Ok(())
}

/// The parity of a serial line.
#[derive(Debug, Clone, Copy, PartialEq, Eq, Structural)]
pub enum SerialParity {
    Even,
    Odd,
    NoParity,
}

/// The data bits of a serial line.
#[derive(Debug, Clone, Copy, PartialEq, Eq, Structural)]
pub enum SerialDataBits {
    Five,
    Six,
    Seven,
    Eight,
}

/// The stop bits of a serial line.
#[derive(Debug, Clone, Copy, PartialEq, Eq, Structural)]
pub enum SerialStopBits {
    One,
    Two,
}

/// Maps the configured parity character onto the line parity: E and O
/// stand for even and odd; anything else falls back to no parity, which
/// the edge logs as a warning.
pub fn parity_from_config(parity: char) -> (r: SerialParity)
    ensures
        r == (if parity == 'E' {
            SerialParity::Even
        } else if parity == 'O' {
            SerialParity::Odd
        } else {
            SerialParity::NoParity
        }),
{
    match parity {
        'E' => SerialParity::Even,
        'O' => SerialParity::Odd,
        _ => SerialParity::NoParity,
    }
}

/// Maps the configured data-bit count onto the line width: 5 to 8 stand
/// for themselves; an illegal count falls back to eight bits, which the
/// edge logs as a warning.
pub fn data_bits_from_config(data_bits: u8) -> (r: SerialDataBits)
    ensures
        r == (if data_bits == 5 {
            SerialDataBits::Five
        } else if data_bits == 6 {
            SerialDataBits::Six
        } else if data_bits == 7 {
            SerialDataBits::Seven
        } else {
            SerialDataBits::Eight
        }),
{
    match data_bits {
        5 => SerialDataBits::Five,
        6 => SerialDataBits::Six,
        7 => SerialDataBits::Seven,
        _ => SerialDataBits::Eight,
    }
}

/// Maps the configured stop-bit count onto the line setting: two stands
/// for itself; anything else falls back to one stop bit.
pub fn stop_bits_from_config(stop_bits: u8) -> (r: SerialStopBits)
    ensures
        r == (if stop_bits == 2 {
            SerialStopBits::Two
        } else {
            SerialStopBits::One
        }),
{
    match stop_bits {
        2 => SerialStopBits::Two,
        _ => SerialStopBits::One,
    }
}

/// A serial Modbus channel: its endpoint configuration, each slave paired
/// with its register map, and the sending end of the aggregator's queue.
#[derive(Debug)]
pub struct ModbusRtuChannel {
    pub config: ModbusClientRtuConfig,
    pub status: ChannelStatus,
    pub register_maps: Vec<(ModbusSlave, ModbusRegisterMap)>,
    pub aggregator_tx: std::sync::mpsc::Sender<AggregatorAction>,
}

impl ModbusRtuChannel {
    /// Builds the channel in the stopped state.
    pub fn new(
        config: ModbusClientRtuConfig,
        register_maps: Vec<(ModbusSlave, ModbusRegisterMap)>,
        aggregator_tx: std::sync::mpsc::Sender<AggregatorAction>,
    ) -> (r: Self)
        ensures
            r.config == config,
            r.register_maps == register_maps,
            r.aggregator_tx == aggregator_tx,
            r.status is Stopped,
    {
        Self { config, register_maps, aggregator_tx, status: ChannelStatus::Stopped }
    }
}

/// A TCP Modbus channel: its endpoint configuration, each slave paired with
/// its register map, and the sending end of the aggregator's queue.
pub struct ModbusTcpChannel {
    pub config: ModbusClientTcpConfig,
    pub status: ChannelStatus,
    pub register_maps: Vec<(ModbusSlave, ModbusRegisterMap)>,
    pub aggregator_tx: std::sync::mpsc::Sender<AggregatorAction>,
}

impl ModbusTcpChannel {
    /// Builds the channel in the stopped state.
    pub fn new(
        config: ModbusClientTcpConfig,
        register_maps: Vec<(ModbusSlave, ModbusRegisterMap)>,
        aggregator_tx: std::sync::mpsc::Sender<AggregatorAction>,
    ) -> (r: Self)
        ensures
            r.config == config,
            r.register_maps == register_maps,
            r.aggregator_tx == aggregator_tx,
            r.status is Stopped,
    {
        Self { config, status: ChannelStatus::Stopped, register_maps, aggregator_tx }
    }
}

} // verus!
