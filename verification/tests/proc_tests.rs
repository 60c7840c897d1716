use rust_desktop::envelope::Payload;
use rust_desktop::process::{handle_proc, ProcOp, ProcessInfo};

fn proc(pid: u32, name: &str, memory: u64) -> ProcessInfo {
    ProcessInfo { pid, name: String::from(name), memory }
}

fn sample() -> Vec<ProcessInfo> {
    vec![
        proc(100, "explorer.exe", 4096),
        proc(200, "Chrome.exe", 8192),
        proc(300, "chrome_helper.exe", 1024),
        proc(400, "svchost.exe", 512),
    ]
}

#[test]
fn list_reports_the_snapshot() {
    let (op, res) = handle_proc("list", None, None, sample());
    assert!(op.is_none());
    assert_eq!(res.status, "success");
    assert_eq!(res.error, None);
    match res.data {
        Some(Payload::Processes(v)) => {
            assert_eq!(v.len(), 4);
            assert_eq!(v[0].pid, 100);
            assert_eq!(v[1].name, "Chrome.exe");
            assert_eq!(v[1].memory, 8192);
        }
        other => panic!("unexpected payload: {:?}", other),
    }
}

#[test]
fn list_truncates_to_one_hundred_entries() {
    let mut procs: Vec<ProcessInfo> = Vec::new();
    let mut pid: u32 = 1;
    while pid <= 150 {
        procs.push(proc(pid, "worker.exe", 64));
        pid += 1;
    }
    let (_, res) = handle_proc("list", None, None, procs);
    match res.data {
        Some(Payload::Processes(v)) => {
            assert_eq!(v.len(), 100);
            assert_eq!(v[0].pid, 1);
            assert_eq!(v[99].pid, 100);
        }
        other => panic!("unexpected payload: {:?}", other),
    }
}

#[test]
fn kill_by_pid_targets_exactly_that_process() {
    let (op, res) = handle_proc("kill", None, Some(200), sample());
    match op {
        Some(ProcOp::Kill { pids }) => assert_eq!(pids, vec![200]),
        None => panic!("expected a kill operation"),
    }
    assert_eq!(res.status, "killed");
    assert_eq!(res.data, None);
    assert_eq!(res.error, None);
}

#[test]
fn kill_by_absent_pid_is_an_error() {
    let (op, res) = handle_proc("kill", None, Some(999999), sample());
    assert!(op.is_none());
    assert_eq!(res.status, "error");
    assert_eq!(res.data, None);
    assert_eq!(res.error.as_deref(), Some("pid not found"));
}

#[test]
fn kill_by_name_matches_case_insensitively() {
    let (op, res) = handle_proc("kill", Some("chrome"), None, sample());
    match op {
        Some(ProcOp::Kill { pids }) => assert_eq!(pids, vec![200, 300]),
        None => panic!("expected a kill operation"),
    }
    assert_eq!(res.status, "killed");
    assert_eq!(res.error, None);
    match res.data {
        Some(Payload::Count(c)) => assert_eq!(c, 2),
        other => panic!("unexpected payload: {:?}", other),
    }
}

#[test]
fn kill_by_name_with_no_match_succeeds_with_zero_count() {
    let (op, res) = handle_proc("kill", Some("no_such_process"), None, sample());
    match op {
        Some(ProcOp::Kill { pids }) => assert!(pids.is_empty()),
        None => panic!("expected a kill operation targeting nothing"),
    }
    assert_eq!(res.status, "killed");
    assert_eq!(res.error, None);
    match res.data {
        Some(Payload::Count(c)) => assert_eq!(c, 0),
        other => panic!("unexpected payload: {:?}", other),
    }
}

#[test]
fn kill_prefers_pid_over_name() {
    let (op, res) = handle_proc("kill", Some("chrome"), Some(400), sample());
    match op {
        Some(ProcOp::Kill { pids }) => assert_eq!(pids, vec![400]),
        None => panic!("expected a kill operation"),
    }
    assert_eq!(res.status, "killed");
    assert_eq!(res.data, None);
}

#[test]
fn kill_by_name_folds_unicode_case() {
    // A process name holding an uppercase E-acute, matched by a filter
    // with the lowercase e-acute.
    let procs = vec![proc(700, "CAF\u{c9}.exe", 128)];
    let (op, res) = handle_proc("kill", Some("caf\u{e9}"), None, procs);
    match op {
        Some(ProcOp::Kill { pids }) => assert_eq!(pids, vec![700]),
        None => panic!("expected a kill operation"),
    }
    match res.data {
        Some(Payload::Count(c)) => assert_eq!(c, 1),
        other => panic!("unexpected payload: {:?}", other),
    }
}

#[test]
fn kill_requires_pid_or_name() {
    let (op, res) = handle_proc("kill", None, None, sample());
    assert!(op.is_none());
    assert_eq!(res.status, "error");
    assert_eq!(res.error.as_deref(), Some("pid or name required"));
}

#[test]
fn unknown_proc_action_errors() {
    let (op, res) = handle_proc("suspend", None, None, sample());
    assert!(op.is_none());
    assert_eq!(res.status, "error");
    assert_eq!(res.error.as_deref(), Some("unknown proc action"));
}
