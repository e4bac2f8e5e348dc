use riptop::process::ProcessState;
use riptop::services::{StartupError, SystemInfoDynamicData, SystemInfoStaticData};

#[test]
fn static_snapshot_keeps_the_host_answers() {
    let data = SystemInfoStaticData::from_host(
        String::from("Example CPU @ 3.00GHz"),
        Some(String::from("workstation")),
        Some(8),
        16_777_216,
    )
    .unwrap();
    assert_eq!(data.processor_name, "Example CPU @ 3.00GHz");
    assert_eq!(data.computer_name, "workstation");
    assert_eq!(data.cpu_count, 8);
    assert_eq!(data.total_memory, 16_777_216);
}

#[test]
fn missing_host_name_is_missing_identity() {
    let r = SystemInfoStaticData::from_host(String::from("cpu"), None, Some(4), 1024);
    assert_eq!(r.unwrap_err(), StartupError::MissingHostIdentity);
}

#[test]
fn missing_core_count_is_missing_topology() {
    let r = SystemInfoStaticData::from_host(
        String::from("cpu"),
        Some(String::from("host")),
        None,
        1024,
    );
    assert_eq!(r.unwrap_err(), StartupError::MissingTopology);
}

#[test]
fn zero_cores_is_missing_topology() {
    let r = SystemInfoStaticData::from_host(
        String::from("cpu"),
        Some(String::from("host")),
        Some(0),
        1024,
    );
    assert_eq!(r.unwrap_err(), StartupError::MissingTopology);
}

#[test]
fn missing_host_name_is_reported_first() {
    let r = SystemInfoStaticData::from_host(String::from("cpu"), None, None, 1024);
    assert_eq!(r.unwrap_err(), StartupError::MissingHostIdentity);
}

#[test]
fn one_core_is_enough() {
    let r = SystemInfoStaticData::from_host(
        String::new(),
        Some(String::new()),
        Some(1),
        0,
    );
    assert_eq!(r.unwrap().cpu_count, 1);
}

#[test]
fn startup_errors_have_distinct_diagnostics() {
    assert_eq!(
        StartupError::MissingHostIdentity.message(),
        "host name cannot be resolved"
    );
    assert_eq!(
        StartupError::MissingTopology.message(),
        "physical core count cannot be determined"
    );
}

#[test]
fn sample_counts_come_from_the_process_table() {
    let table = vec![
        ProcessState::Run,
        ProcessState::Sleep,
        ProcessState::Sleep,
        ProcessState::Run,
        ProcessState::Zombie,
    ];
    let load = 12.5f64.to_bits();
    let d = SystemInfoDynamicData::from_sample(load, 2048, 7, &table, 3600);
    assert_eq!(
        d,
        SystemInfoDynamicData {
            cpu_usage_bits: load,
            memory_usage_percentage: 2048,
            page_memory_usage_percentage: 7,
            total_tasks_count: 5,
            running_tasks_count: 2,
            uptime: 3600,
        }
    );
    assert_eq!(f64::from_bits(d.cpu_usage_bits), 12.5);
    assert!(d.running_tasks_count <= d.total_tasks_count);
}

#[test]
fn sample_of_an_empty_table_has_zero_counts() {
    let d = SystemInfoDynamicData::from_sample(0, 1, 2, &Vec::new(), 3);
    assert_eq!(d.total_tasks_count, 0);
    assert_eq!(d.running_tasks_count, 0);
    assert_eq!(d.memory_usage_percentage, 1);
    assert_eq!(d.page_memory_usage_percentage, 2);
    assert_eq!(d.uptime, 3);
}
