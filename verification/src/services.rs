//! Snapshot records and the metrics service that reads them off a host handle.

use crate::process::{
    count_running, lemma_running_count_is_multiplicity, running_count, ProcessState,
};
use sysinfo::{ProcessExt, ProcessStatus, ProcessorExt, System, SystemExt};
use vstd::multiset::Multiset;
use vstd::prelude::*;

verus! {

/// Why the static identity of the host could not be established at startup.
#[derive(Debug, Clone, Copy, PartialEq, Eq, Structural)]
pub enum StartupError {
    /// The host name could not be resolved.
    MissingHostIdentity,
    /// The number of physical cores could not be determined.
    MissingTopology,
}

impl StartupError {
    /// The diagnostic shown when startup is abandoned.
    pub open spec fn diagnostic(self) -> Seq<char> {
        match self {
            StartupError::MissingHostIdentity => "host name cannot be resolved"@,
            StartupError::MissingTopology => "physical core count cannot be determined"@,
        }
    }

    /// The diagnostic shown when startup is abandoned.
    pub fn message(&self) -> (text: &'static str)
        ensures
            text@ == self.diagnostic(),
    {
        match self {
            StartupError::MissingHostIdentity => "host name cannot be resolved",
            StartupError::MissingTopology => "physical core count cannot be determined",
        }
    }
}

/// Identity of the host, read once at startup and never changed afterwards.
#[derive(Debug, Clone)]
pub struct SystemInfoStaticData {
    pub processor_name: String,
    pub computer_name: String,
    pub cpu_count: usize,
    pub total_memory: u64,
}

/// The startup failure that a pair of host answers amounts to, if any. A
/// missing host name is reported before a missing core count; a core count of
/// zero counts as undetermined.
pub open spec fn startup_failure(
    host_known: bool,
    core_count: Option<usize>,
) -> Option<StartupError> {
    if !host_known {
        Some(StartupError::MissingHostIdentity)
    } else if core_count is None || core_count == Some(0usize) {
        Some(StartupError::MissingTopology)
    } else {
        None
    }
}

impl SystemInfoStaticData {
    /// A static snapshot names at least one physical core.
    pub open spec fn wf(&self) -> bool {
        self.cpu_count >= 1
    }

    /// Builds the static snapshot from what the host answered, or says which
    /// answer was missing.
    pub fn from_host(
        processor_name: String,
        host_name: Option<String>,
        core_count: Option<usize>,
        total_memory: u64,
    ) -> (r: Result<SystemInfoStaticData, StartupError>)
        ensures
            r is Err <==> startup_failure(host_name is Some, core_count) is Some,
            r is Err ==> Some(r->Err_0) == startup_failure(host_name is Some, core_count),
            r is Ok ==> r->Ok_0.wf() && r->Ok_0.processor_name == processor_name
                && Some(r->Ok_0.computer_name) == host_name && Some(r->Ok_0.cpu_count)
                == core_count && r->Ok_0.total_memory == total_memory,
    {
        match host_name {
            None => Err(StartupError::MissingHostIdentity),
            Some(computer_name) => match core_count {
                None => Err(StartupError::MissingTopology),
                Some(cpu_count) => {
                    if cpu_count == 0 {
                        Err(StartupError::MissingTopology)
                    } else {
                        Ok(
                            SystemInfoStaticData {
                                processor_name,
                                computer_name,
                                cpu_count,
                                total_memory,
                            },
                        )
                    }
                },
            },
        }
    }
}

/// One periodic sample of the host. The one-minute load average is carried as
/// its IEEE-754 double-precision bit pattern, so that a sample is a plain
/// value that compares field by field.
#[derive(Debug, Clone, Copy, PartialEq, Eq, Structural)]
pub struct SystemInfoDynamicData {
    pub cpu_usage_bits: u64,
    pub memory_usage_percentage: u64,
    pub page_memory_usage_percentage: u64,
    pub total_tasks_count: usize,
    pub running_tasks_count: usize,
    pub uptime: u64,
}

impl SystemInfoDynamicData {
    /// The running processes are among the counted ones.
    pub open spec fn wf(&self) -> bool {
        self.running_tasks_count <= self.total_tasks_count
    }

    /// The sample that one set of host readings and one process table give.
    pub open spec fn sample_of(
        cpu_usage_bits: u64,
        memory_used: u64,
        swap_used: u64,
        states: Seq<ProcessState>,
        uptime: u64,
    ) -> SystemInfoDynamicData {
        SystemInfoDynamicData {
            cpu_usage_bits,
            memory_usage_percentage: memory_used,
            page_memory_usage_percentage: swap_used,
            total_tasks_count: states.len() as usize,
            running_tasks_count: running_count(states) as usize,
            uptime,
        }
    }

    /// Builds a sample from host readings taken in one acquisition cycle: the
    /// table's length is the total process count, its running entries the
    /// running count. An empty table gives zero for both.
    pub fn from_sample(
        cpu_usage_bits: u64,
        memory_used: u64,
        swap_used: u64,
        states: &Vec<ProcessState>,
        uptime: u64,
    ) -> (d: SystemInfoDynamicData)
        ensures
            d == Self::sample_of(cpu_usage_bits, memory_used, swap_used, states@, uptime),
            d.total_tasks_count == states@.len(),
            d.running_tasks_count == running_count(states@),
            d.wf(),
            states@.len() == 0 ==> d.total_tasks_count == 0 && d.running_tasks_count == 0,
    {
        SystemInfoDynamicData {
            cpu_usage_bits,
            memory_usage_percentage: memory_used,
            page_memory_usage_percentage: swap_used,
            total_tasks_count: states.len(),
            running_tasks_count: count_running(states),
            uptime,
        }
    }
}

/// The swap in use, given the swap installed and the swap free: their
/// difference, and zero where the host reports more free than installed.
pub open spec fn swap_in_use(total: u64, free: u64) -> u64 {
    if free > total {
        0
    } else {
        (total - free) as u64
    }
}

/// Computes the swap in use from the two figures that the host keeps. A host
/// that reports more free than installed gives a degraded reading of zero.
pub fn used_swap(total: u64, free: u64) -> (used: u64)
    ensures
        used == swap_in_use(total, free),
{
    if free > total {
        0
    } else {
        total - free
    }
}

#[verifier::external_type_specification]
#[verifier::external_body]
pub struct ExSystem(System);

/// The states of the entries of the process table that a host handle holds:
/// the table is kept in the handle and changes only when it is refreshed.
pub uninterp spec fn process_table_held(system: System) -> Multiset<ProcessState>;

/// The installed memory that a host handle holds, kept in the handle at its
/// last refresh.
pub uninterp spec fn total_memory_held(system: System) -> u64;

/// The installed swap that a host handle holds, kept in the handle at its
/// last refresh.
pub uninterp spec fn total_swap_held(system: System) -> u64;

/// The free swap that a host handle holds, kept in the handle at its last
/// refresh.
pub uninterp spec fn free_swap_held(system: System) -> u64;

/// The brand string of the primary processor that a host handle holds, kept
/// in the handle since it was opened.
pub uninterp spec fn processor_brand_held(system: System) -> Seq<char>;

/// `SystemExt::physical_core_count`: the host's answer at the call, which may
/// be absent or zero.
#[verifier::external_body]
fn host_physical_core_count(system: &System) -> (count: Option<usize>) {
    system.physical_core_count()
}

/// `SystemExt::global_processor_info` and, on it, `ProcessorExt::brand`: the
/// brand string of the primary processor that the handle holds, copied out.
#[verifier::external_body]
fn host_processor_brand(system: &System) -> (brand: String)
    ensures
        brand@ == processor_brand_held(*system),
{
    system.global_processor_info().brand().to_string()
}

/// `SystemExt::host_name`: the host's name at the call, absent where it
/// cannot be read.
#[verifier::external_body]
fn host_name(system: &System) -> (name: Option<String>) {
    system.host_name()
}

/// `SystemExt::total_memory`: the installed memory that the handle holds.
#[verifier::external_body]
fn host_total_memory(system: &System) -> (amount: u64)
    ensures
        amount == total_memory_held(*system),
{
    system.total_memory()
}

/// `SystemExt::total_swap`: the installed swap that the handle holds.
#[verifier::external_body]
fn host_total_swap(system: &System) -> (amount: u64)
    ensures
        amount == total_swap_held(*system),
{
    system.total_swap()
}

/// `SystemExt::free_swap`: the free swap that the handle holds.
#[verifier::external_body]
fn host_free_swap(system: &System) -> (amount: u64)
    ensures
        amount == free_swap_held(*system),
{
    system.free_swap()
}

/// `SystemExt::uptime`: whole seconds since boot, read from the host at the
/// call; zero where the host does not tell.
#[verifier::external_body]
fn host_uptime(system: &System) -> (seconds: u64) {
    system.uptime()
}

/// `SystemExt::processes` and, on each entry, `ProcessExt::status`: the
/// states of the entries of the process table that the handle holds, variant
/// for variant, in no particular order.
#[verifier::external_body]
fn host_process_states(system: &System) -> (states: Vec<ProcessState>)
    ensures
        states@.to_multiset() == process_table_held(*system),
{
    system.processes().values().map(|process| match process.status() {
        ProcessStatus::Idle => ProcessState::Idle,
        ProcessStatus::Run => ProcessState::Run,
        ProcessStatus::Sleep => ProcessState::Sleep,
        ProcessStatus::Stop => ProcessState::Stop,
        ProcessStatus::Zombie => ProcessState::Zombie,
        ProcessStatus::Tracing => ProcessState::Tracing,
        ProcessStatus::Dead => ProcessState::Dead,
        ProcessStatus::Wakekill => ProcessState::Wakekill,
        ProcessStatus::Waking => ProcessState::Waking,
        ProcessStatus::Parked => ProcessState::Parked,
        ProcessStatus::LockBlocked => ProcessState::LockBlocked,
        ProcessStatus::Unknown(code) => ProcessState::Unknown(code),
    }).collect()
}

/// What a host handle holds between two refreshes, as far as snapshots read
/// it. The process table is a multiset: its entries come in no order.
pub struct HostReadings {
    pub processes: Multiset<ProcessState>,
    pub total_memory: u64,
    pub total_swap: u64,
    pub free_swap: u64,
    pub processor_brand: Seq<char>,
}

impl HostReadings {
    /// The readings that a host handle holds.
    pub open spec fn of(system: System) -> HostReadings {
        HostReadings {
            processes: process_table_held(system),
            total_memory: total_memory_held(system),
            total_swap: total_swap_held(system),
            free_swap: free_swap_held(system),
            processor_brand: processor_brand_held(system),
        }
    }

    /// The swap in use under these readings.
    pub open spec fn used_swap(self) -> u64 {
        swap_in_use(self.total_swap, self.free_swap)
    }

    /// The dynamic snapshot that these readings give, together with the three
    /// figures that are read from the host at the moment of the snapshot.
    pub open spec fn snapshot(
        self,
        cpu_usage_bits: u64,
        memory_used: u64,
        uptime: u64,
    ) -> SystemInfoDynamicData {
        SystemInfoDynamicData {
            cpu_usage_bits,
            memory_usage_percentage: memory_used,
            page_memory_usage_percentage: self.used_swap(),
            total_tasks_count: self.processes.len() as usize,
            running_tasks_count: self.processes.count(ProcessState::Run) as usize,
            uptime,
        }
    }
}

/// The metrics source: owns the handle on the host and turns its readings
/// into snapshots. Opening and refreshing the handle are the caller's: both
/// go to the operating system, and the service takes the handle as it is.
pub struct SystemDataService {
    system: System,
}

impl View for SystemDataService {
    type V = HostReadings;

    closed spec fn view(&self) -> HostReadings {
        HostReadings::of(self.system)
    }
}

impl SystemDataService {
    /// A metrics source over a host handle that the caller has opened.
    pub fn new(system: System) -> (service: SystemDataService)
        ensures
            service@ == HostReadings::of(system),
    {
        SystemDataService { system }
    }

    /// Gives the handle back, unchanged, for the caller to refresh it.
    pub fn into_handle(self) -> (system: System)
        ensures
            HostReadings::of(system) == self@,
    {
        self.system
    }

    /// The number of physical cores, where the host can tell.
    pub fn cpu_count(&self) -> (count: Option<usize>) {
        host_physical_core_count(&self.system)
    }

    /// The static snapshot of the host. Fails where the host name or the core
    /// count is missing; a snapshot that is returned names at least one core,
    /// and shows the processor brand and the installed memory that the
    /// service holds.
    pub fn static_data(&self) -> (r: Result<SystemInfoStaticData, StartupError>)
        ensures
            r is Ok ==> r->Ok_0.wf() && r->Ok_0.total_memory == self@.total_memory
                && r->Ok_0.processor_name@ == self@.processor_brand,
    {
        let brand = host_processor_brand(&self.system);
        let name = host_name(&self.system);
        let cores = host_physical_core_count(&self.system);
        let memory = host_total_memory(&self.system);
        SystemInfoStaticData::from_host(brand, name, cores, memory)
    }

    /// The states of all processes seen at the last refresh, in no
    /// particular order.
    pub fn process_states(&self) -> (states: Vec<ProcessState>)
        ensures
            states@.to_multiset() == self@.processes,
            states@.len() == self@.processes.len(),
    {
        let states = host_process_states(&self.system);
        proof {
            states@.to_multiset_ensures();
        }
        states
    }

    /// The swap in use at the last refresh.
    pub fn swap_used(&self) -> (used: u64)
        ensures
            used == self@.used_swap(),
    {
        used_swap(host_total_swap(&self.system), host_free_swap(&self.system))
    }

    /// The dynamic snapshot of the last refresh. The load and the memory in
    /// use are the caller's readings of the refreshed host and are carried as
    /// given; the swap in use, the size of the process table and the number
    /// of its running entries are those that the service holds. Both process
    /// counts come from one reading of the table, so the running count never
    /// exceeds the total. The uptime is the host's at the moment of the call.
    pub fn dynamic_data(&self, cpu_usage_bits: u64, memory_used: u64) -> (d: SystemInfoDynamicData)
        ensures
            d == self@.snapshot(cpu_usage_bits, memory_used, d.uptime),
            d.total_tasks_count == self@.processes.len(),
            d.running_tasks_count == self@.processes.count(ProcessState::Run),
            d.wf(),
            d.total_tasks_count == 0 ==> d.running_tasks_count == 0,
    {
        let swap = self.swap_used();
        let states = self.process_states();
        let uptime = host_uptime(&self.system);
        proof {
            lemma_running_count_is_multiplicity(states@);
        }
        SystemInfoDynamicData::from_sample(cpu_usage_bits, memory_used, swap, &states, uptime)
    }

    /// How many processes were running at the last refresh: the number of
    /// running entries in the process table that the service holds.
    pub fn running_tasks_count(&self) -> (count: usize)
        ensures
            count == self@.processes.count(ProcessState::Run),
            count <= self@.processes.len(),
    {
        let states = self.process_states();
        count_running(&states)
    }
}

} // verus!
