use riptop::cancel::CancellationFlag;
use riptop::channel::Received;
use riptop::services::SystemInfoDynamicData;
use riptop::ui::{on_key, on_received, UiStep, QUIT_KEY};

fn sample() -> SystemInfoDynamicData {
    SystemInfoDynamicData {
        cpu_usage_bits: 0,
        memory_usage_percentage: 10,
        page_memory_usage_percentage: 20,
        total_tasks_count: 3,
        running_tasks_count: 1,
        uptime: 77,
    }
}

#[test]
fn received_snapshot_is_rendered_as_it_is() {
    assert_eq!(on_received(Received::Snapshot(sample())), UiStep::Render(sample()));
}

#[test]
fn empty_channel_makes_the_ui_wait() {
    assert_eq!(on_received(Received::Empty), UiStep::Wait);
}

#[test]
fn closed_channel_ends_the_ui() {
    assert_eq!(on_received(Received::Closed), UiStep::Exit);
}

#[test]
fn quit_key_requests_shutdown() {
    let mut flag = CancellationFlag::new();
    assert_eq!(QUIT_KEY, 'q');
    assert!(on_key('q', &mut flag));
    assert!(flag.is_requested());
}

#[test]
fn other_keys_leave_the_flag_alone() {
    let mut flag = CancellationFlag::new();
    assert!(!on_key('x', &mut flag));
    assert!(!on_key('Q', &mut flag));
    assert!(!flag.is_requested());
    flag.request();
    assert!(!on_key('x', &mut flag));
    assert!(flag.is_requested());
}
