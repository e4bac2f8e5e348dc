use riptop::acquisition::{AcquisitionLoop, NextStep};
use riptop::cancel::CancellationFlag;
use riptop::channel::{Received, SnapshotChannel};
use riptop::pipeline::Pipeline;
use riptop::process::count_running;
use riptop::services::{used_swap, SystemDataService};
use sysinfo::{ProcessorExt, System, SystemExt};

fn open() -> SystemDataService {
    SystemDataService::new(System::new_all())
}

#[test]
fn host_sample_has_running_within_total() {
    let d = open().dynamic_data(0, 0);
    assert!(d.running_tasks_count <= d.total_tasks_count);
    if d.total_tasks_count == 0 {
        assert_eq!(d.running_tasks_count, 0);
    }
}

#[test]
fn host_sample_carries_the_callers_figures() {
    let load = 0.75f64.to_bits();
    let d = open().dynamic_data(load, 123_456);
    assert_eq!(d.cpu_usage_bits, load);
    assert_eq!(d.memory_usage_percentage, 123_456);
}

#[test]
fn host_running_count_is_the_count_of_running_states() {
    let service = open();
    let states = service.process_states();
    assert!(count_running(&states) <= states.len());
    assert_eq!(service.running_tasks_count(), count_running(&states));
}

#[test]
fn host_static_snapshot_names_a_core_or_fails() {
    let service = open();
    match service.static_data() {
        Ok(data) => {
            assert!(data.cpu_count >= 1);
            assert_eq!(Some(data.cpu_count), service.cpu_count());
        }
        Err(_) => {}
    }
}

#[test]
fn host_static_snapshot_shows_what_the_handle_holds() {
    let system = System::new_all();
    let brand = system.global_processor_info().brand().to_string();
    let memory = system.total_memory();
    let service = SystemDataService::new(system);
    if let Ok(data) = service.static_data() {
        assert_eq!(data.processor_name, brand);
        assert_eq!(data.total_memory, memory);
    }
}

#[test]
fn host_swap_is_total_less_free() {
    let system = System::new_all();
    let total = system.total_swap();
    let free = system.free_swap();
    let service = SystemDataService::new(system);
    assert_eq!(service.swap_used(), used_swap(total, free));
    assert_eq!(
        service.dynamic_data(0, 0).page_memory_usage_percentage,
        used_swap(total, free)
    );
}

#[test]
fn swap_in_use_is_the_difference() {
    assert_eq!(used_swap(4096, 1024), 3072);
    assert_eq!(used_swap(4096, 4096), 0);
    assert_eq!(used_swap(4096, 0), 4096);
    assert_eq!(used_swap(0, 0), 0);
    assert_eq!(used_swap(u64::MAX, 1), u64::MAX - 1);
}

#[test]
fn swap_with_more_free_than_installed_reads_zero() {
    assert_eq!(used_swap(1024, 4096), 0);
    assert_eq!(used_swap(0, 1), 0);
    assert_eq!(used_swap(0, u64::MAX), 0);
}

#[test]
fn host_uptime_does_not_go_back() {
    let service = open();
    let first = service.dynamic_data(0, 0);
    let mut system = service.into_handle();
    system.refresh_all();
    let second = SystemDataService::new(system).dynamic_data(0, 0);
    assert!(second.uptime >= first.uptime);
}

#[test]
fn host_handle_comes_back_unchanged() {
    let service = open();
    let before = service.dynamic_data(1, 2);
    let mut states_before = service.process_states();
    let service = SystemDataService::new(service.into_handle());
    let after = service.dynamic_data(1, 2);
    let mut states_after = service.process_states();
    states_before.sort_by_key(|state| format!("{:?}", state));
    states_after.sort_by_key(|state| format!("{:?}", state));
    assert_eq!(states_before, states_after);
    assert_eq!(before.total_tasks_count, after.total_tasks_count);
    assert_eq!(before.running_tasks_count, after.running_tasks_count);
    assert_eq!(
        before.page_memory_usage_percentage,
        after.page_memory_usage_percentage
    );
}

#[test]
fn host_snapshot_counts_are_those_of_the_held_table() {
    let mut system = System::new_all();
    system.refresh_all();
    let held = system.processes().len();
    let service = SystemDataService::new(system);
    let states = service.process_states();
    let d = service.dynamic_data(0, 0);
    assert_eq!(states.len(), held);
    assert_eq!(d.total_tasks_count, held);
    assert_eq!(d.running_tasks_count, count_running(&states));
    assert!(held > 0);
}

#[test]
fn host_readings_are_held_until_the_next_refresh() {
    let service = open();
    let first = service.dynamic_data(0, 0);
    let second = service.dynamic_data(0, 0);
    assert_eq!(
        first.page_memory_usage_percentage,
        second.page_memory_usage_percentage
    );
    assert_eq!(first.total_tasks_count, second.total_tasks_count);
    assert_eq!(first.running_tasks_count, second.running_tasks_count);
}

#[test]
fn host_cycle_publishes_the_services_snapshot() {
    let service = open();
    let mut acquisition = AcquisitionLoop::new(0);
    let mut channel = SnapshotChannel::new();
    let mut flag = CancellationFlag::new();
    assert!(acquisition.begin_cycle(&flag, &mut channel));
    let load = 1.5f64.to_bits();
    assert_eq!(
        acquisition.complete_cycle(&service, load, 2048, &mut channel),
        NextStep::Sleep(0)
    );
    assert_eq!(channel.pending_count(), 1);
    flag.request();
    assert!(!acquisition.begin_cycle(&flag, &mut channel));
    match channel.receive() {
        Received::Snapshot(s) => {
            assert_eq!(s.cpu_usage_bits, load);
            assert_eq!(s.memory_usage_percentage, 2048);
            assert_eq!(s.total_tasks_count, service.process_states().len());
            assert_eq!(s.running_tasks_count, service.running_tasks_count());
            assert_eq!(s.page_memory_usage_percentage, service.swap_used());
        }
        other => panic!("expected a snapshot, got {:?}", other),
    }
    assert_eq!(channel.receive(), Received::Closed);
}

#[test]
fn host_cycle_of_a_stopped_loop_publishes_nothing() {
    let service = open();
    let mut acquisition = AcquisitionLoop::new(0);
    let mut channel = SnapshotChannel::new();
    let mut flag = CancellationFlag::new();
    flag.request();
    assert!(!acquisition.begin_cycle(&flag, &mut channel));
    assert_eq!(
        acquisition.complete_cycle(&service, 0, 0, &mut channel),
        NextStep::Stop
    );
    assert_eq!(channel.pending_count(), 0);
}

#[test]
fn host_pipeline_starts_with_the_hosts_identity_or_fails() {
    let service = open();
    let identity = service.static_data();
    match Pipeline::start(&service, 500) {
        Ok(pipeline) => {
            let expected = identity.unwrap();
            assert_eq!(pipeline.identity.processor_name, expected.processor_name);
            assert_eq!(pipeline.identity.total_memory, expected.total_memory);
            assert!(pipeline.identity.cpu_count >= 1);
            assert!(pipeline.acquisition.is_running());
            assert!(!pipeline.flag.is_requested());
        }
        Err(failure) => assert_eq!(Some(failure), identity.err()),
    }
}
