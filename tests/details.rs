use process_monitor::details::join_with_spaces;
use process_monitor::record::{ProcessInfo, ProcessStatus};

fn record() -> ProcessInfo {
    ProcessInfo {
        pid: 4321,
        name: "server".to_string(),
        command_line: vec!["server".to_string(), "--port".to_string(), "80".to_string()],
        environment_variables: vec!["A=1".to_string(), "B=2".to_string()],
        owner_id: Some(1000),
        parent_pid: None,
        resident_memory_bytes: 5000,
        virtual_memory_bytes: 1023,
        status: ProcessStatus::Sleeping,
        start_time_unix: 1_700_000_000,
        run_time_seconds: 0,
        cpu_usage_hundredths: 1205,
        cumulative_io_read_bytes: 0,
        cumulative_io_written_bytes: 0,
    }
}

#[test]
fn expand_lists_fields_in_order() {
    let m = record().expand();
    let rows: Vec<(String, String)> = m.into_iter().collect();
    let expected = vec![
        ("Name", "server"),
        ("PID", "4321"),
        ("User ID", "1000"),
        ("CMD", "server --port 80"),
        ("Environment", "A=1 B=2"),
        ("Memory", "4 KB"),
        ("Virtual Memory", "0 KB"),
        ("Parent", ""),
        ("Status", "Sleeping"),
        ("Start Time", "1700000000"),
        ("Run Time", "0"),
        ("CPU Usage", "12.05"),
    ];
    let expected: Vec<(String, String)> =
        expected.into_iter().map(|(k, v)| (k.to_string(), v.to_string())).collect();
    assert_eq!(rows, expected);
}

#[test]
fn expand_cpu_usage_whole_and_fraction() {
    let mut r = record();
    r.cpu_usage_hundredths = 25090;
    assert_eq!(r.expand().get("CPU Usage").unwrap(), "250.90");
    r.cpu_usage_hundredths = 7;
    assert_eq!(r.expand().get("CPU Usage").unwrap(), "0.07");
}

#[test]
fn join_handles_empty_and_single() {
    assert_eq!(join_with_spaces(&vec![]), "");
    assert_eq!(join_with_spaces(&vec!["one".to_string()]), "one");
    assert_eq!(join_with_spaces(&vec!["a".to_string(), "".to_string(), "b".to_string()]), "a  b");
}

#[test]
fn status_labels() {
    assert_eq!(ProcessStatus::Running.label(), "Running");
    assert_eq!(ProcessStatus::Unknown.label(), "Unknown");
}
