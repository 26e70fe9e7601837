//! The gateway's data model: key/value maps with insertion order, data
//! points, telemetry frames, the typed actions carried by the worker queues,
//! and the configuration records parsed once at startup.

use vstd::prelude::*;

verus! {

/// One typed scalar extracted from a register block, already rendered as its
/// decimal text, with an optional capture timestamp in milliseconds.
#[derive(Debug, Clone, PartialEq)]
pub struct DataPoint {
    pub key: String,
    pub value: String,
    pub ts: Option<i64>,
}

/// A key/value map that keeps insertion order and holds at most one entry per
/// key; inserting an existing key replaces the value in place.
#[derive(Debug, Clone)]
pub struct KvMap {
    pub pairs: Vec<(String, String)>,
}

impl View for KvMap {
    type V = Seq<(Seq<char>, Seq<char>)>;

    open spec fn view(&self) -> Seq<(Seq<char>, Seq<char>)> {
        self.pairs@.map(|i: int, p: (String, String)| (p.0@, p.1@))
    }
}

/// Map insertion: the first entry with the key is replaced in place;
/// otherwise the pair is appended.
pub open spec fn kv_insert(
    m: Seq<(Seq<char>, Seq<char>)>,
    k: Seq<char>,
    v: Seq<char>,
) -> Seq<(Seq<char>, Seq<char>)>
    decreases m.len(),
{
    if m.len() == 0 {
        seq![(k, v)]
    } else if m[0].0 == k {
        seq![(k, v)] + m.drop_first()
    } else {
        seq![m[0]] + kv_insert(m.drop_first(), k, v)
    }
}

/// Map lookup: the value of the first entry with the key, if any.
pub open spec fn kv_get(m: Seq<(Seq<char>, Seq<char>)>, k: Seq<char>) -> Option<Seq<char>>
    decreases m.len(),
{
    if m.len() == 0 {
        None
    } else if m[0].0 == k {
        Some(m[0].1)
    } else {
        kv_get(m.drop_first(), k)
    }
}

proof fn lemma_kv_insert_found(
    m: Seq<(Seq<char>, Seq<char>)>,
    k: Seq<char>,
    v: Seq<char>,
    i: int,
)
    requires
        0 <= i < m.len(),
        m[i].0 == k,
        forall|j: int| 0 <= j < i ==> (#[trigger] m[j]).0 != k,
    ensures
        kv_insert(m, k, v) =~= m.update(i, (k, v)),
    decreases i,
{
    if i == 0 {
        assert(kv_insert(m, k, v) =~= m.update(0, (k, v)));
    } else {
        assert(m[0].0 != k);
        assert(m.drop_first()[i - 1].0 == k);
        assert(forall|j: int|
            0 <= j < i - 1 ==> (#[trigger] m.drop_first()[j]).0 == m[j + 1].0);
        lemma_kv_insert_found(m.drop_first(), k, v, i - 1);
        assert(kv_insert(m, k, v) =~= seq![m[0]] + m.drop_first().update(i - 1, (k, v)));
        assert(seq![m[0]] + m.drop_first().update(i - 1, (k, v)) =~= m.update(i, (k, v)));
    }
}

proof fn lemma_kv_get_found(m: Seq<(Seq<char>, Seq<char>)>, k: Seq<char>, i: int)
    requires
        0 <= i < m.len(),
        m[i].0 == k,
        forall|j: int| 0 <= j < i ==> (#[trigger] m[j]).0 != k,
    ensures
        kv_get(m, k) == Some(m[i].1),
    decreases i,
{
    if i == 0 {
    } else {
        assert(m[0].0 != k);
        assert(m.drop_first()[i - 1].0 == k);
        assert(forall|j: int|
            0 <= j < i - 1 ==> (#[trigger] m.drop_first()[j]).0 == m[j + 1].0);
        lemma_kv_get_found(m.drop_first(), k, i - 1);
    }
}

proof fn lemma_kv_get_absent(m: Seq<(Seq<char>, Seq<char>)>, k: Seq<char>)
    requires
        forall|j: int| 0 <= j < m.len() ==> (#[trigger] m[j]).0 != k,
    ensures
        kv_get(m, k) is None,
    decreases m.len(),
{
    if m.len() == 0 {
    } else {
        assert(m[0].0 != k);
        assert(forall|j: int|
            0 <= j < m.drop_first().len() ==> (#[trigger] m.drop_first()[j]).0 == m[j + 1].0);
        lemma_kv_get_absent(m.drop_first(), k);
    }
}

proof fn lemma_kv_insert_absent(m: Seq<(Seq<char>, Seq<char>)>, k: Seq<char>, v: Seq<char>)
    requires
        forall|j: int| 0 <= j < m.len() ==> (#[trigger] m[j]).0 != k,
    ensures
        kv_insert(m, k, v) =~= m.push((k, v)),
    decreases m.len(),
{
    if m.len() == 0 {
        assert(kv_insert(m, k, v) =~= m.push((k, v)));
    } else {
        assert(m[0].0 != k);
        assert(forall|j: int|
            0 <= j < m.drop_first().len() ==> (#[trigger] m.drop_first()[j]).0 == m[j + 1].0);
        lemma_kv_insert_absent(m.drop_first(), k, v);
        assert(kv_insert(m, k, v) =~= seq![m[0]] + m.drop_first().push((k, v)));
        assert(seq![m[0]] + m.drop_first().push((k, v)) =~= m.push((k, v)));
    }
}

impl KvMap {
    /// An empty map.
    pub fn new() -> (r: KvMap)
        ensures
            r@ =~= Seq::<(Seq<char>, Seq<char>)>::empty(),
    {
        KvMap { pairs: Vec::new() }
    }

    /// The number of entries.
    pub fn len(&self) -> (r: usize)
        ensures
            r == self@.len(),
    {
        self.pairs.len()
    }

    /// Inserts the pair; an existing entry with the same key is replaced in
    /// place, keeping its position.
    pub fn insert(&mut self, k: String, v: String)
        ensures
            final(self)@ =~= kv_insert(old(self)@, k@, v@),
    {
        let n = self.pairs.len();
        let mut i: usize = 0;
        while i < n
            invariant
                n == self.pairs.len(),
                i <= n,
                *self == *old(self),
                forall|j: int| 0 <= j < i ==> (#[trigger] self.pairs@[j]).0@ != k@,
            decreases n - i,
        {
            if self.pairs[i].0 == k {
                proof {
                    lemma_kv_insert_found(self@, k@, v@, i as int);
                }
                self.pairs[i] = (k, v);
                proof {
                    assert(final(self)@ =~= kv_insert(old(self)@, k@, v@));
                }
                return ;
            }
            i += 1;
        }
        proof {
            assert(forall|j: int| 0 <= j < self@.len() ==> (#[trigger] self@[j]).0 != k@);
            lemma_kv_insert_absent(self@, k@, v@);
        }
        self.pairs.push((k, v));
        proof {
            assert(final(self)@ =~= kv_insert(old(self)@, k@, v@));
        }
    }

    /// Looks the key up.
    pub fn get(&self, k: &String) -> (r: Option<&String>)
        ensures
            match r {
                Some(v) => kv_get(self@, k@) == Some(v@),
                None => kv_get(self@, k@) is None,
            },
    {
        let n = self.pairs.len();
        let mut i: usize = 0;
        while i < n
            invariant
                n == self.pairs.len(),
                i <= n,
                forall|j: int| 0 <= j < i ==> (#[trigger] self@[j]).0 != k@,
            decreases n - i,
        {
            if self.pairs[i].0 == *k {
                proof {
                    lemma_kv_get_found(self@, k@, i as int);
                }
                return Some(&self.pairs[i].1);
            }
            i += 1;
        }
        proof {
            lemma_kv_get_absent(self@, k@);
        }
        None
    }
}

/// One telemetry frame: the capture timestamp in milliseconds and the values
/// sampled in that cycle, keyed by data point name.
#[derive(Debug, Clone)]
pub struct OneTelemetry {
    pub ts: i64,
    pub values: KvMap,
}

/// The mathematical content of a telemetry frame.
pub struct TelemetryView {
    pub ts: int,
    pub values: Seq<(Seq<char>, Seq<char>)>,
}

impl View for OneTelemetry {
    type V = TelemetryView;

    open spec fn view(&self) -> TelemetryView {
        TelemetryView { ts: self.ts as int, values: self.values@ }
    }
}

/// Inserting a sequence of data points into a map, one after the other.
pub open spec fn kv_insert_points(
    m: Seq<(Seq<char>, Seq<char>)>,
    points: Seq<DataPoint>,
) -> Seq<(Seq<char>, Seq<char>)>
    decreases points.len(),
{
    if points.len() == 0 {
        m
    } else {
        kv_insert_points(kv_insert(m, points[0].key@, points[0].value@), points.drop_first())
    }
}

/// Inserting a sequence of key/value pairs into a map, one after the
/// other.
pub open spec fn kv_insert_views(
    m: Seq<(Seq<char>, Seq<char>)>,
    views: Seq<(Seq<char>, Seq<char>)>,
) -> Seq<(Seq<char>, Seq<char>)>
    decreases views.len(),
{
    if views.len() == 0 {
        m
    } else {
        kv_insert_views(kv_insert(m, views[0].0, views[0].1), views.drop_first())
    }
}

/// Inserting data points is inserting their keys and values: the map only
/// ever sees each point's key and value text.
pub proof fn lemma_insert_points_views(
    m: Seq<(Seq<char>, Seq<char>)>,
    points: Seq<DataPoint>,
    views: Seq<(Seq<char>, Seq<char>)>,
)
    requires
        points.len() == views.len(),
        forall|i: int|
            0 <= i < points.len() ==> (#[trigger] points[i]).key@ == views[i].0
                && points[i].value@ == views[i].1,
    ensures
        kv_insert_points(m, points) == kv_insert_views(m, views),
    decreases points.len(),
{
    if points.len() > 0 {
        assert(forall|i: int|
            0 <= i < points.drop_first().len() ==> (#[trigger] points.drop_first()[i])
                == points[i + 1]);
        assert(forall|i: int|
            0 <= i < views.drop_first().len() ==> (#[trigger] views.drop_first()[i]) == views[i
                + 1]);
        lemma_insert_points_views(
            kv_insert(m, points[0].key@, points[0].value@),
            points.drop_first(),
            views.drop_first(),
        );
    }
}

/// Inserts every data point's key and value into the map, in order.
pub fn insert_points(m: &mut KvMap, points: &Vec<DataPoint>)
    ensures
        final(m)@ =~= kv_insert_points(old(m)@, points@),
{
    let n = points.len();
    let mut i: usize = 0;
    proof {
        assert(points@.skip(0) =~= points@);
    }
    while i < n
        invariant
            n == points@.len(),
            i <= n,
            kv_insert_points(old(m)@, points@) == kv_insert_points(m@, points@.skip(i as int)),
        decreases n - i,
    {
        proof {
            assert(points@.skip(i as int)[0] == points@[i as int]);
            assert(points@.skip(i as int).drop_first() =~= points@.skip(i as int + 1));
        }
        m.insert(points[i].key.clone(), points[i].value.clone());
        i += 1;
    }
    proof {
        assert(kv_insert_points(m@, points@.skip(n as int)) == m@);
    }
}

impl OneTelemetry {
    /// Builds one frame from the data points decoded in a cycle, stamped with
    /// the given capture time.
    pub fn from_points(ts: i64, points: &Vec<DataPoint>) -> (r: OneTelemetry)
        ensures
            r@.ts == ts as int,
            r@.values =~= kv_insert_points(Seq::empty(), points@),
    {
        let mut values = KvMap::new();
        insert_points(&mut values, points);
        OneTelemetry { ts, values }
    }
}

/// An attributes batch: the device name and the slow-changing facts read from
/// its attributes register groups.
pub type AttributeMessage = (String, KvMap);

/// A timeseries batch: the device name and the frames sampled this cycle.
pub type TimeseriesMessage = (String, Vec<OneTelemetry>);

/// The command-line surface: the path of the root configuration file.
#[derive(Debug, Clone)]
pub struct MainArguments {
    pub root_config: String,
}

/// The root configuration record, parsed once before any worker starts.
#[derive(Debug, Clone)]
pub struct MainConfig {
    pub name: String,
    pub log_config: String,
    pub channels: Vec<ChannelDefinition>,
    pub storage: Storage,
    pub mqtt: MqttConfig,
}

/// The local store selection and its management policies.
#[derive(Debug, Clone)]
pub enum Storage {
    Sqlite {
        data_folder: String,
        size_management: StorageSizeManagement,
        backup_management: StorageBackupManagement,
    },
}

/// The retention policy: a cron schedule for the check and the window in
/// hours that rows are kept for.
#[derive(Debug, Clone)]
pub enum StorageSizeManagement {
    FixedWindow { messages_ttl_check: String, messages_ttl: i32 },
}

/// The backup policy: the folder, the cron schedule, and the hours a backup
/// file is kept for.
#[derive(Debug, Clone)]
pub enum StorageBackupManagement {
    Local { backup_folder: String, backup_interval: String, backup_ttl: i32 },
}

/// The kind of a configured channel.
#[derive(Debug, Clone, PartialEq, Eq)]
pub enum ChannelType {
    ModbusTcp,
    ModbusRtu,
}

/// One channel entry of the root configuration: its kind and the path of its
/// own configuration file.
#[derive(Debug, Clone)]
pub struct ChannelDefinition {
    pub channel_type: ChannelType,
    pub file: String,
}

/// The broker session settings.
#[derive(Debug, Clone)]
pub struct MqttConfig {
    pub client_id: Option<String>,
    pub host: String,
    pub port: u16,
    pub qos: u8,
    pub tb_token: Option<String>,
}

/// A command for the transport worker: publish one already rendered envelope.
#[derive(Debug, Clone)]
pub enum TransportAction {
    SendTimeseries(String),
    SendAttributes(String),
}

/// A command for the aggregator: one slave's batch of both message halves.
#[derive(Debug)]
pub enum AggregatorAction {
    SendBoth(AttributeMessage, TimeseriesMessage),
}

} // verus!
