use uplink::metrics::Metrics;

#[test]
fn next_report_advances_and_clears() {
    let mut m = Metrics::new("metrics/t".to_string());
    m.add_total_sent_size(10);
    m.add_total_disk_size(7);
    m.increment_lost_segments();
    m.add_errors("parse", 2);
    let r = m.next(1234);
    assert_eq!(r.sequence, 1);
    assert_eq!(r.timestamp, 1234);
    assert_eq!(r.total_sent_size, 10);
    assert_eq!(r.total_disk_size, 7);
    assert_eq!(r.lost_segments, 1);
    assert_eq!(r.errors, "parse | ");
    assert_eq!(r.error_count, 2);
    assert_eq!(m.errors, "");
    assert_eq!(m.lost_segments, 0);
    assert_eq!(m.error_count, 2);
    assert_eq!(m.total_sent_size, 10);
    let r2 = m.next(1300);
    assert_eq!(r2.sequence, 2);
}

#[test]
fn error_digest_is_capped() {
    let mut m = Metrics::new("m".to_string());
    let tag = "x".repeat(100);
    for _ in 0..20 {
        m.add_errors(&tag, 1);
    }
    assert!(m.errors.chars().count() <= 1024);
    assert_eq!(m.errors.chars().count(), 9 * 103);
    assert_eq!(m.error_count, 20);
}

#[test]
fn sizes_saturate() {
    let mut m = Metrics::new("m".to_string());
    m.add_total_sent_size(usize::MAX);
    m.add_total_sent_size(5);
    assert_eq!(m.total_sent_size, usize::MAX);
    m.sub_total_disk_size(3);
    assert_eq!(m.total_disk_size, 0);
}
