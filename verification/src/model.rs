//! The data model: the metric families the service serves, the per-family
//! plain-value records handed in by the host metrics provider, the snapshot
//! that aggregates the last-observed values of every family, and the ghost
//! model each of those is reasoned about through.
//!
//! Fractional readings (CPU usage, temperatures, load averages) are carried
//! as integers counted in hundredths, so their ranges are plain arithmetic
//! facts.

use vstd::prelude::*;

verus! {

/// The metric families the service can serve, one per route.
#[derive(Clone, Copy, PartialEq, Eq, Structural, Debug)]
pub enum MetricFamily {
    Cpus,
    Disks,
    Memory,
    Networks,
    Temperatures,
    Users,
    LoadAverage,
    BootTime,
    OsInfo,
}

/// One logical CPU: usage in hundredths of a percent, frequency in MHz.
#[derive(Clone, Copy, PartialEq, Eq, Structural, Debug)]
pub struct CpuEntry {
    pub percent_hundredths: u64,
    pub frequency: u64,
}

impl CpuEntry {
    /// Usage is at most 100% and the frequency is positive.
    pub open spec fn wf(self) -> bool {
        self.percent_hundredths <= 10000 && self.frequency >= 1
    }
}

/// Memory and swap counters, in bytes.
#[derive(Clone, Copy, PartialEq, Eq, Structural, Debug)]
pub struct MemoryCounters {
    pub available_memory: u64,
    pub free_memory: u64,
    pub free_swap: u64,
    pub total_memory: u64,
    pub total_swap: u64,
    pub used_memory: u64,
    pub used_swap: u64,
}

impl MemoryCounters {
    /// No derived counter exceeds the total: available, used, and even
    /// free and used together fit below the total memory.
    pub open spec fn wf(self) -> bool {
        &&& self.available_memory <= self.total_memory
        &&& self.used_memory <= self.total_memory
        &&& self.free_memory + self.used_memory <= self.total_memory
    }
}

/// Load averages over one, five and fifteen minutes, in hundredths.
#[derive(Clone, Copy, PartialEq, Eq, Structural, Debug)]
pub struct LoadPoints {
    pub one: u64,
    pub five: u64,
    pub fifteen: u64,
}

/// One mounted disk: its device name, file system, and sizes in bytes.
#[derive(Debug)]
pub struct DiskEntry {
    pub device_name: String,
    pub file_system: String,
    pub total_space: u64,
    pub available_space: u64,
}

/// The ghost shape of a `DiskEntry`.
#[verifier::ext_equal]
pub ghost struct DiskModel {
    pub device_name: Seq<char>,
    pub file_system: Seq<char>,
    pub total_space: u64,
    pub available_space: u64,
}

impl DiskModel {
    /// The space still available never exceeds the disk's size.
    pub open spec fn wf(self) -> bool {
        self.available_space <= self.total_space
    }
}

impl View for DiskEntry {
    type V = DiskModel;

    open spec fn view(&self) -> DiskModel {
        DiskModel {
            device_name: self.device_name@,
            file_system: self.file_system@,
            total_space: self.total_space,
            available_space: self.available_space,
        }
    }
}

/// One network interface with its transfer counters, in bytes.
#[derive(Debug)]
pub struct NetworkEntry {
    pub interface_name: String,
    pub data_received: u64,
    pub data_transmitted: u64,
}

/// The ghost shape of a `NetworkEntry`.
#[verifier::ext_equal]
pub ghost struct NetworkModel {
    pub interface_name: Seq<char>,
    pub data_received: u64,
    pub data_transmitted: u64,
}

impl View for NetworkEntry {
    type V = NetworkModel;

    open spec fn view(&self) -> NetworkModel {
        NetworkModel {
            interface_name: self.interface_name@,
            data_received: self.data_received,
            data_transmitted: self.data_transmitted,
        }
    }
}

/// One thermal sensor reading: its label and the temperature in
/// hundredths of a degree. The label may be empty as handed in by the
/// provider; such readings are dropped on refresh.
#[derive(Debug)]
pub struct TemperatureEntry {
    pub name: String,
    pub temp_hundredths: i64,
}

/// The ghost shape of a `TemperatureEntry`.
#[verifier::ext_equal]
pub ghost struct TemperatureModel {
    pub name: Seq<char>,
    pub temp_hundredths: i64,
}

impl TemperatureModel {
    /// The reading is renderable (its negation does not overflow).
    pub open spec fn wf(self) -> bool {
        self.temp_hundredths > i64::MIN
    }

    /// A reading worth serving carries a sensor label.
    pub open spec fn named(self) -> bool {
        self.name.len() > 0
    }
}

impl View for TemperatureEntry {
    type V = TemperatureModel;

    open spec fn view(&self) -> TemperatureModel {
        TemperatureModel { name: self.name@, temp_hundredths: self.temp_hundredths }
    }
}

/// One logged-in user and the groups it belongs to.
#[derive(Debug)]
pub struct UserEntry {
    pub name: String,
    pub groups: Vec<String>,
}

/// The ghost shape of a `UserEntry`.
#[verifier::ext_equal]
pub ghost struct UserModel {
    pub name: Seq<char>,
    pub groups: Seq<Seq<char>>,
}

impl View for UserEntry {
    type V = UserModel;

    open spec fn view(&self) -> UserModel {
        UserModel {
            name: self.name@,
            groups: self.groups@.map_values(|g: String| g@),
        }
    }
}

/// The host's identity strings as served: every field present, with the
/// placeholder already substituted where the provider had nothing.
#[derive(Debug)]
pub struct OsIdentity {
    pub kernel_version: String,
    pub os_version: String,
    pub long_os_version: String,
    pub distribution_id: String,
    pub host_name: String,
}

/// The ghost shape of an `OsIdentity`.
#[verifier::ext_equal]
pub ghost struct OsModel {
    pub kernel_version: Seq<char>,
    pub os_version: Seq<char>,
    pub long_os_version: Seq<char>,
    pub distribution_id: Seq<char>,
    pub host_name: Seq<char>,
}

impl View for OsIdentity {
    type V = OsModel;

    open spec fn view(&self) -> OsModel {
        OsModel {
            kernel_version: self.kernel_version@,
            os_version: self.os_version@,
            long_os_version: self.long_os_version@,
            distribution_id: self.distribution_id@,
            host_name: self.host_name@,
        }
    }
}

/// The host's identity strings as the provider reports them: absent ones
/// are `None` and get a placeholder on refresh.
#[derive(Debug)]
pub struct OsReport {
    pub kernel_version: Option<String>,
    pub os_version: Option<String>,
    pub long_os_version: Option<String>,
    pub distribution_id: String,
    pub host_name: Option<String>,
}

/// The placeholder for an identity string the provider could not supply.
pub open spec fn or_placeholder(o: Option<String>) -> Seq<char> {
    match o {
        Option::Some(s) => s@,
        Option::None => "N/A"@,
    }
}

/// What an `OsReport` becomes once placeholders are substituted.
pub open spec fn os_identity_of(r: OsReport) -> OsModel {
    OsModel {
        kernel_version: or_placeholder(r.kernel_version),
        os_version: or_placeholder(r.os_version),
        long_os_version: or_placeholder(r.long_os_version),
        distribution_id: r.distribution_id@,
        host_name: or_placeholder(r.host_name),
    }
}

/// The last-observed state of the host across all metric families.
pub struct HostSnapshot {
    pub cpus: Vec<CpuEntry>,
    pub disks: Vec<DiskEntry>,
    pub memory: MemoryCounters,
    pub networks: Vec<NetworkEntry>,
    pub temperatures: Vec<TemperatureEntry>,
    pub users: Vec<UserEntry>,
    pub load_average: LoadPoints,
    pub boot_time: u64,
    pub os_info: OsIdentity,
}

/// The ghost shape of a `HostSnapshot`.
#[verifier::ext_equal]
pub ghost struct SnapshotModel {
    pub cpus: Seq<CpuEntry>,
    pub disks: Seq<DiskModel>,
    pub memory: MemoryCounters,
    pub networks: Seq<NetworkModel>,
    pub temperatures: Seq<TemperatureModel>,
    pub users: Seq<UserModel>,
    pub load_average: LoadPoints,
    pub boot_time: u64,
    pub os_info: OsModel,
}

impl View for HostSnapshot {
    type V = SnapshotModel;

    open spec fn view(&self) -> SnapshotModel {
        SnapshotModel {
            cpus: self.cpus@,
            disks: self.disks@.map_values(|d: DiskEntry| d@),
            memory: self.memory,
            networks: self.networks@.map_values(|n: NetworkEntry| n@),
            temperatures: self.temperatures@.map_values(|t: TemperatureEntry| t@),
            users: self.users@.map_values(|u: UserEntry| u@),
            load_average: self.load_average,
            boot_time: self.boot_time,
            os_info: self.os_info@,
        }
    }
}

impl SnapshotModel {
    /// Every family's invariant at once: CPU and memory bounds, disk
    /// bounds, and served temperature readings that are named and
    /// renderable.
    pub open spec fn wf(self) -> bool {
        &&& forall|i: int| 0 <= i < self.cpus.len() ==> (#[trigger] self.cpus[i]).wf()
        &&& forall|i: int| 0 <= i < self.disks.len() ==> (#[trigger] self.disks[i]).wf()
        &&& self.memory.wf()
        &&& forall|i: int|
            0 <= i < self.temperatures.len() ==> (#[trigger] self.temperatures[i]).wf()
                && self.temperatures[i].named()
    }
}

/// The values one refresh hands the snapshot: the refreshed family
/// together with its new contents.
pub enum FamilyData {
    Cpus(Vec<CpuEntry>),
    Disks(Vec<DiskEntry>),
    Memory(MemoryCounters),
    Networks(Vec<NetworkEntry>),
    Temperatures(Vec<TemperatureEntry>),
    Users(Vec<UserEntry>),
    LoadAverage(LoadPoints),
    BootTime(u64),
    OsInfo(OsReport),
}

impl FamilyData {
    /// The family this data refreshes.
    pub open spec fn family(self) -> MetricFamily {
        match self {
            FamilyData::Cpus(_) => MetricFamily::Cpus,
            FamilyData::Disks(_) => MetricFamily::Disks,
            FamilyData::Memory(_) => MetricFamily::Memory,
            FamilyData::Networks(_) => MetricFamily::Networks,
            FamilyData::Temperatures(_) => MetricFamily::Temperatures,
            FamilyData::Users(_) => MetricFamily::Users,
            FamilyData::LoadAverage(_) => MetricFamily::LoadAverage,
            FamilyData::BootTime(_) => MetricFamily::BootTime,
            FamilyData::OsInfo(_) => MetricFamily::OsInfo,
        }
    }

    /// What the provider owes of each family's values: CPU and memory
    /// bounds, disk bounds, and renderable temperature readings. Labels
    /// may still be empty here; the refresh drops those readings.
    pub open spec fn wf(self) -> bool {
        match self {
            FamilyData::Cpus(v) => forall|i: int| 0 <= i < v@.len() ==> (#[trigger] v@[i]).wf(),
            FamilyData::Disks(v) => forall|i: int| 0 <= i < v@.len() ==> (#[trigger] v@[i])@.wf(),
            FamilyData::Memory(m) => m.wf(),
            FamilyData::Temperatures(v) => forall|i: int|
                0 <= i < v@.len() ==> (#[trigger] v@[i])@.wf(),
            _ => true,
        }
    }
}

/// A reading the refresh keeps: one that carries a sensor label.
pub open spec fn keeps_reading(t: TemperatureModel) -> bool {
    t.named()
}

/// The readings the refresh keeps, in order: those that carry a label.
pub open spec fn temp_keep_filter(s: Seq<TemperatureModel>) -> Seq<TemperatureModel> {
    s.filter(|t: TemperatureModel| keeps_reading(t))
}

/// The snapshot model after one refresh: the refreshed family's values
/// are replaced (temperature readings without a label are dropped), and
/// every other family keeps its previous values.
pub open spec fn apply_refresh(m: SnapshotModel, d: FamilyData) -> SnapshotModel {
    match d {
        FamilyData::Cpus(v) => SnapshotModel { cpus: v@, ..m },
        FamilyData::Disks(v) => SnapshotModel {
            disks: v@.map_values(|e: DiskEntry| e@),
            ..m
        },
        FamilyData::Memory(c) => SnapshotModel { memory: c, ..m },
        FamilyData::Networks(v) => SnapshotModel {
            networks: v@.map_values(|e: NetworkEntry| e@),
            ..m
        },
        FamilyData::Temperatures(v) => SnapshotModel {
            temperatures: temp_keep_filter(v@.map_values(|e: TemperatureEntry| e@)),
            ..m
        },
        FamilyData::Users(v) => SnapshotModel {
            users: v@.map_values(|e: UserEntry| e@),
            ..m
        },
        FamilyData::LoadAverage(l) => SnapshotModel { load_average: l, ..m },
        FamilyData::BootTime(b) => SnapshotModel { boot_time: b, ..m },
        FamilyData::OsInfo(r) => SnapshotModel { os_info: os_identity_of(r), ..m },
    }
}

} // verus!
