use uplink::action::{Action, ActionResponse};
use uplink::bridge::{bridge_down, Bridge};
use uplink::batch::Payload;
use uplink::certs::get_certs;
use uplink::process::{status_of_line, Error, Process};

#[test]
fn action_while_bridge_down_fails() {
    let a = Action { id: "a1".to_string(), kind: "update".to_string(), payload: "...".to_string() };
    let r = bridge_down(&a);
    assert_eq!(r.id, "a1");
    assert_eq!(r.state, "Failed");
    assert_eq!(r.errors, vec!["Bridge down".to_string()]);
}

#[test]
fn pending_action_times_out_once() {
    let mut b = Bridge::new(vec![("imu".to_string(), 3)], 10);
    assert!(b.action_timed_out().is_none());
    let a = Action { id: "a2".to_string(), kind: "k".to_string(), payload: "p".to_string() };
    b.action_sent(&a);
    let r = b.action_timed_out().unwrap();
    assert_eq!(r.id, "a2");
    assert_eq!(r.state, "Failed");
    assert_eq!(r.errors, vec!["Action timed out".to_string()]);
    assert!(b.action_timed_out().is_none());
}

#[test]
fn line_answers_action_and_is_routed() {
    let mut b = Bridge::new(vec![("imu".to_string(), 1)], 10);
    let mut parts = b.connect();
    let a = Action { id: "a3".to_string(), kind: "k".to_string(), payload: "p".to_string() };
    b.action_sent(&a);
    let sealed = b.line_received(&mut parts, Payload { stream: "imu".to_string(), payload: b"{}".to_vec() });
    assert!(sealed.is_some());
    assert!(b.current_action.is_none());
    assert!(b.action_timed_out().is_none());
}

#[test]
fn executor_runs_one_at_a_time() {
    let mut p = Process::new();
    let s = match p.execute("a1", "update", "data") {
        Ok(s) => s,
        Err(_) => panic!("expected a spawn"),
    };
    assert_eq!(s.program, "tools/update");
    assert_eq!(s.args, vec!["a1".to_string(), "data".to_string()]);
    assert!(matches!(p.execute("a2", "update", "data"), Err(Error::Busy)));
    p.capture_done();
    assert!(p.last_process_done);
    assert!(p.execute("a2", "update", "data").is_ok());
    p.spawn_failed();
    assert!(p.last_process_done);
}

#[test]
fn status_lines_become_responses() {
    let mut p = Process::new();
    assert!(p.execute("a1", "update", "x").is_ok());
    let mut first = ActionResponse::new("a1", "Running");
    first.progress = Some(50);
    let r1 = status_of_line("a1", Ok(first));
    assert_eq!(r1.state, "Running");
    assert_eq!(r1.progress, Some(50));
    let r2 = status_of_line("a1", Ok(ActionResponse::new("a1", "Completed")));
    assert_eq!(r2.state, "Completed");
    p.capture_done();
    assert!(p.last_process_done);
    let bad = status_of_line("a1", Err("expected value".to_string()));
    assert_eq!(bad.id, "a1");
    assert_eq!(bad.state, "Failed");
    assert_eq!(bad.errors, vec!["expected value".to_string()]);
}

#[test]
fn certs_are_copied() {
    let (k, c) = get_certs(b"key", b"ca");
    assert_eq!(k, b"key".to_vec());
    assert_eq!(c, b"ca".to_vec());
}
