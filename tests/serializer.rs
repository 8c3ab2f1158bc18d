use uplink::metrics::MetricsRecord;
use uplink::serializer::{Command, Event, Publish, Serializer, Status};

fn publish(topic: &str, payload: &[u8]) -> Publish {
    Publish { topic: topic.to_string(), payload: payload.to_vec() }
}

fn is_transport(c: &Command) -> bool {
    matches!(c, Command::TryPublish(_) | Command::TryPublishMetrics(_, _) | Command::Publish(_))
}

#[test]
fn starts_by_replaying_and_empty_spool_goes_normal() {
    let mut s = Serializer::new("m".to_string());
    assert!(matches!(s.status, Status::EventLoopReady));
    assert!(matches!(s.start(), Command::ReadSpool));
    assert!(matches!(s.step(Event::SpoolDrained), Command::Wait));
    assert!(matches!(s.status, Status::Normal));
    let c = s.step(Event::Collected(publish("t/imu", b"[1]"), None));
    assert!(matches!(c, Command::TryPublish(ref p) if p.topic == "t/imu"));
    s.step(Event::TrySent(3));
    assert!(matches!(s.status, Status::Normal));
    assert_eq!(s.metrics.total_sent_size, 3);
}

#[test]
fn queue_full_then_recovery_visits_slow_ready_normal() {
    let mut s = Serializer::new("m".to_string());
    s.start();
    s.step(Event::SpoolDrained);
    let c = s.step(Event::Collected(publish("t/imu", b"[1,2,3]"), None));
    assert!(matches!(c, Command::TryPublish(_)));
    let c = s.step(Event::TryRejected(publish("t/imu", b"[1,2,3]")));
    assert!(matches!(c, Command::Publish(ref p) if p.payload == b"[1,2,3]".to_vec()));
    assert!(matches!(s.status, Status::SlowEventloop(_)));
    let c = s.step(Event::PublishDone);
    assert!(matches!(c, Command::ReadSpool));
    assert!(matches!(s.status, Status::EventLoopReady));
    s.step(Event::SpoolDrained);
    assert!(matches!(s.status, Status::Normal));
}

#[test]
fn spool_record_is_an_mqtt_publish_frame() {
    let mut s = Serializer::new("m".to_string());
    s.start();
    s.step(Event::SpoolDrained);
    s.step(Event::TryRejected(publish("x", b"0")));
    let c = s.step(Event::Collected(publish("t/imu", b"[1]"), None));
    match c {
        Command::WriteSpool(bytes, n) => {
            assert_eq!(n, 3);
            let expected: Vec<u8> = vec![0x32, 12, 0, 5, b't', b'/', b'i', b'm', b'u', 0, 1, b'[', b'1', b']'];
            assert_eq!(bytes, expected);
        }
        _ => panic!("expected a spool write"),
    }
}

#[test]
fn rejected_forever_spools_and_counts_lost_segments() {
    let mut s = Serializer::new("m".to_string());
    s.start();
    s.step(Event::SpoolDrained);
    s.step(Event::TryRejected(publish("t", b"first")));
    let ceiling = 10;
    for i in 0..100 {
        let c = s.step(Event::Collected(publish("t", b"batch"), None));
        assert!(matches!(c, Command::WriteSpool(_, 5)));
        s.step(Event::SpoolWritten(5, i >= ceiling));
    }
    assert!(s.metrics.lost_segments >= 90);
    assert_eq!(s.metrics.total_disk_size, 500);
    assert!(matches!(s.status, Status::SlowEventloop(_)));
}

#[test]
fn client_dead_during_catchup_is_a_sink() {
    let mut s = Serializer::new("m".to_string());
    s.start();
    for k in 0..4u8 {
        let c = s.step(Event::SpoolRecord(publish("t", &[k])));
        assert!(matches!(c, Command::Publish(_)));
        let c = s.step(Event::PublishDone);
        assert!(matches!(c, Command::ReadSpool));
    }
    assert_eq!(s.metrics.total_sent_size, 4);
    s.step(Event::SpoolRecord(publish("t", b"five")));
    let c = s.step(Event::ClientDead(publish("t", b"five")));
    assert!(matches!(c, Command::WriteSpool(_, 4)));
    match &s.status {
        Status::EventLoopCrash(p) => assert_eq!(p.payload, b"five".to_vec()),
        _ => panic!("expected the crash regime"),
    }
    let events = vec![
        Event::Collected(publish("t", b"six"), None),
        Event::MetricsTick(9),
        Event::PublishDone,
        Event::SpoolDrained,
        Event::SpoolRecord(publish("t", b"x")),
        Event::TryRejected(publish("t", b"y")),
        Event::Collected(publish("t", b"seven"), None),
    ];
    for e in events {
        let c = s.step(e);
        assert!(!is_transport(&c));
        assert!(matches!(s.status, Status::EventLoopCrash(_)));
    }
}

#[test]
fn metrics_tick_offers_the_record() {
    let mut s = Serializer::new("metrics/topic".to_string());
    s.start();
    s.step(Event::SpoolDrained);
    s.step(Event::Collected(publish("t", b"1"), Some(("bad line".to_string(), 2))));
    let c = s.step(Event::MetricsTick(77));
    match c {
        Command::TryPublishMetrics(topic, r) => {
            let r: MetricsRecord = r;
            assert_eq!(topic, "metrics/topic");
            assert_eq!(r.sequence, 1);
            assert_eq!(r.timestamp, 77);
            assert_eq!(r.errors, "bad line | ");
            assert_eq!(r.error_count, 2);
        }
        _ => panic!("expected metrics"),
    }
    assert_eq!(s.metrics.errors, "");
    assert_eq!(s.metrics.lost_segments, 0);
    assert_eq!(s.metrics.error_count, 2);
}

#[test]
fn corrupt_record_is_skipped() {
    let mut s = Serializer::new("m".to_string());
    s.start();
    assert!(matches!(s.step(Event::SpoolCorrupt), Command::ReadSpool));
    assert!(matches!(s.status, Status::EventLoopReady));
}

#[test]
fn failed_spool_write_is_counted() {
    let mut s = Serializer::new("m".to_string());
    s.start();
    s.step(Event::SpoolWriteFailed);
    assert_eq!(s.metrics.error_count, 1);
    assert_eq!(s.metrics.errors, "spool write | ");
}
