//! Snapshots of the machine as plain values, and the checks made on them.
//! Reading the machine is left to the caller; what is decided from the
//! numbers is decided here.

use vstd::prelude::*;
use vstd::string::StringExecFns;
use crate::decimal::{decimal_digits, push_decimal};

verus! {

/// The operating system as the machine describes it.
#[derive(Debug, Clone)]
pub struct OsInfo {
    pub name: String,
    pub version: String,
    pub architecture: String,
    pub hostname: String,
    pub uptime: u64,
}

/// The traffic counters of one network interface.
#[derive(Debug, Clone)]
pub struct NetworkInterface {
    pub name: String,
    pub bytes_received: u64,
    pub bytes_transmitted: u64,
    pub packets_received: u64,
    pub packets_transmitted: u64,
    pub errors_received: u64,
    pub errors_transmitted: u64,
}

/// The network interfaces with the traffic summed over them.
#[derive(Debug, Clone)]
pub struct NetworkInfo {
    pub interfaces: Vec<NetworkInterface>,
    pub total_bytes_received: u64,
    pub total_bytes_transmitted: u64,
}

/// One requirement, what the machine has of it, and whether that is enough.
#[derive(Debug, Clone)]
pub struct RequirementCheck {
    pub name: String,
    pub required: String,
    pub actual: String,
    pub passed: bool,
}

/// The requirements checked, each under its key, in the order in which
/// they were checked; no key occurs twice.
#[derive(Debug, Clone)]
pub struct SystemRequirementsCheck {
    pub meets_requirements: bool,
    pub checks: Vec<(String, RequirementCheck)>,
}

/// The least memory the application needs, in GB.
pub const MIN_RAM_GB: u64 = 2;

/// The least free space the application needs on some disk, in GB.
pub const MIN_DISK_GB: u64 = 1;

/// The bytes in one GB.
pub const BYTES_PER_GB: u64 = 0x4000_0000;

/// A name as reported, or `Unknown` where the machine reports none.
pub open spec fn name_or_unknown(name: Option<String>) -> Seq<char> {
    match name {
        Some(n) => n@,
        None => "Unknown"@,
    }
}

fn or_unknown(name: Option<String>) -> (text: String)
    ensures
        text@ == name_or_unknown(name),
{
    match name {
        Some(n) => n,
        None => String::from_str("Unknown"),
    }
}

/// The description of the operating system from what the machine reports.
pub fn get_os_info(
    name: Option<String>,
    version: Option<String>,
    architecture: String,
    hostname: Option<String>,
    uptime: u64,
) -> (info: OsInfo)
    ensures
        info.name@ == name_or_unknown(name),
        info.version@ == name_or_unknown(version),
        info.architecture == architecture,
        info.hostname@ == name_or_unknown(hostname),
        info.uptime == uptime,
{
    OsInfo {
        name: or_unknown(name),
        version: or_unknown(version),
        architecture,
        hostname: or_unknown(hostname),
        uptime,
    }
}

/// The bytes received over all of `interfaces`.
pub open spec fn total_received(interfaces: Seq<NetworkInterface>) -> nat
    decreases interfaces.len(),
{
    if interfaces.len() == 0 {
        0
    } else {
        total_received(interfaces.drop_last()) + interfaces.last().bytes_received as nat
    }
}

/// The bytes transmitted over all of `interfaces`.
pub open spec fn total_transmitted(interfaces: Seq<NetworkInterface>) -> nat
    decreases interfaces.len(),
{
    if interfaces.len() == 0 {
        0
    } else {
        total_transmitted(interfaces.drop_last()) + interfaces.last().bytes_transmitted as nat
    }
}

/// The network snapshot of the given interfaces, with the traffic summed
/// over them. `None` when a sum does not fit the counter.
pub fn get_network_info(interfaces: Vec<NetworkInterface>) -> (info: Option<NetworkInfo>)
    ensures
        match info {
            Some(n) => {
                &&& n.interfaces == interfaces
                &&& n.total_bytes_received == total_received(interfaces@)
                &&& n.total_bytes_transmitted == total_transmitted(interfaces@)
            },
            None => total_received(interfaces@) > u64::MAX || total_transmitted(interfaces@)
                > u64::MAX,
        },
{
    let mut received: u64 = 0;
    let mut transmitted: u64 = 0;
    let mut i: usize = 0;
    while i < interfaces.len()
        invariant
            i <= interfaces.len(),
            received == total_received(interfaces@.take(i as int)),
            transmitted == total_transmitted(interfaces@.take(i as int)),
        decreases interfaces.len() - i,
    {
        proof {
            assert(interfaces@.take(i + 1).drop_last() =~= interfaces@.take(i as int));
            lemma_totals_grow(interfaces@, i + 1);
        }
        let r = interfaces[i].bytes_received;
        let t = interfaces[i].bytes_transmitted;
        if r > u64::MAX - received || t > u64::MAX - transmitted {
            return None;
        }
        received = received + r;
        transmitted = transmitted + t;
        i = i + 1;
    }
    assert(interfaces@.take(interfaces@.len() as int) =~= interfaces@);
    Some(
        NetworkInfo {
            interfaces,
            total_bytes_received: received,
            total_bytes_transmitted: transmitted,
        },
    )
}

proof fn lemma_totals_grow(interfaces: Seq<NetworkInterface>, k: int)
    requires
        0 <= k <= interfaces.len(),
    ensures
        total_received(interfaces.take(k)) <= total_received(interfaces),
        total_transmitted(interfaces.take(k)) <= total_transmitted(interfaces),
    decreases interfaces.len(),
{
    if k == interfaces.len() {
        assert(interfaces.take(k) =~= interfaces);
    } else {
        lemma_totals_grow(interfaces.drop_last(), k);
        assert(interfaces.drop_last().take(k) =~= interfaces.take(k));
    }
}

/// The largest of `values`, zero when there is none.
pub open spec fn largest(values: Seq<u64>) -> u64
    decreases values.len(),
{
    if values.len() == 0 {
        0
    } else if values.last() >= largest(values.drop_last()) {
        values.last()
    } else {
        largest(values.drop_last())
    }
}

/// An amount in whole GB as text.
pub open spec fn gb_text(gb: u64) -> Seq<char> {
    decimal_digits(gb as nat) + " GB"@
}

fn gb_string(gb: u64) -> (text: String)
    ensures
        text@ == gb_text(gb),
{
    let mut text = String::new();
    push_decimal(&mut text, gb);
    text.append(" GB");
    assert(text@ =~= gb_text(gb));
    text
}

/// Whole GB of memory in `total_memory_bytes`.
pub open spec fn ram_gb(total_memory_bytes: u64) -> u64 {
    total_memory_bytes / BYTES_PER_GB
}

/// Whole GB free on the disk with the most free space.
pub open spec fn disk_gb(disk_available_bytes: Seq<u64>) -> u64 {
    largest(disk_available_bytes) / BYTES_PER_GB
}

/// One entry of the result, as plain values.
pub open spec fn check_matches(
    entry: (String, RequirementCheck),
    key: Seq<char>,
    name: Seq<char>,
    required: u64,
    actual: u64,
) -> bool {
    &&& entry.0@ == key
    &&& entry.1.name@ == name
    &&& entry.1.required@ == gb_text(required)
    &&& entry.1.actual@ == gb_text(actual)
    &&& entry.1.passed == (actual >= required)
}

/// Checks the machine against what the application needs: the memory in
/// whole GB, and the free space in whole GB on the disk that has the most.
/// Both are reported, memory first; the machine meets the requirements when
/// both pass.
pub fn check_system_requirements(
    total_memory_bytes: u64,
    disk_available_bytes: &Vec<u64>,
) -> (result: SystemRequirementsCheck)
    ensures
        result.meets_requirements == (ram_gb(total_memory_bytes) >= MIN_RAM_GB && disk_gb(
            disk_available_bytes@,
        ) >= MIN_DISK_GB),
        result.checks@.len() == 2,
        check_matches(
            result.checks@[0],
            "memory"@,
            "Minimum RAM"@,
            MIN_RAM_GB,
            ram_gb(total_memory_bytes),
        ),
        check_matches(
            result.checks@[1],
            "disk"@,
            "Available Disk Space"@,
            MIN_DISK_GB,
            disk_gb(disk_available_bytes@),
        ),
{
    let ram = total_memory_bytes / BYTES_PER_GB;
    let ram_ok = ram >= MIN_RAM_GB;
    let mut most: u64 = 0;
    let mut i: usize = 0;
    while i < disk_available_bytes.len()
        invariant
            i <= disk_available_bytes.len(),
            most == largest(disk_available_bytes@.take(i as int)),
        decreases disk_available_bytes.len() - i,
    {
        proof {
            assert(disk_available_bytes@.take(i + 1).drop_last() =~= disk_available_bytes@.take(
                i as int,
            ));
        }
        if disk_available_bytes[i] >= most {
            most = disk_available_bytes[i];
        }
        i = i + 1;
    }
    assert(disk_available_bytes@.take(disk_available_bytes@.len() as int)
        =~= disk_available_bytes@);
    let disk = most / BYTES_PER_GB;
    let disk_ok = disk >= MIN_DISK_GB;
    let mut checks: Vec<(String, RequirementCheck)> = Vec::new();
    checks.push(
        (
            String::from_str("memory"),
            RequirementCheck {
                name: String::from_str("Minimum RAM"),
                required: gb_string(MIN_RAM_GB),
                actual: gb_string(ram),
                passed: ram_ok,
            },
        ),
    );
    checks.push(
        (
            String::from_str("disk"),
            RequirementCheck {
                name: String::from_str("Available Disk Space"),
                required: gb_string(MIN_DISK_GB),
                actual: gb_string(disk),
                passed: disk_ok,
            },
        ),
    );
    SystemRequirementsCheck { meets_requirements: ram_ok && disk_ok, checks }
}

} // verus!
