use uplink::batch::{Buffer, Partitions, Payload};
use uplink::serializer::{publish_of, Publish};

fn point(stream: &str, json: &str) -> Payload {
    Payload { stream: stream.to_string(), payload: json.as_bytes().to_vec() }
}

fn imu_partitions() -> Partitions {
    Partitions::new(vec![("imu".to_string(), 3)], 100)
}

#[test]
fn three_points_seal_one_batch_on_its_topic() {
    let mut parts = imu_partitions();
    let topics = vec![("imu".to_string(), "t/imu".to_string())];
    let lines = [r#"{"stream":"imu","v":1}"#, r#"{"stream":"imu","v":2}"#, r#"{"stream":"imu","v":3}"#];
    let mut sealed: Vec<Buffer> = Vec::new();
    for line in lines.iter() {
        if let Some(b) = parts.fill(point("imu", line)) {
            sealed.push(b);
        }
    }
    assert_eq!(sealed.len(), 1);
    let publish: Publish = publish_of(&sealed[0], &topics).unwrap();
    assert_eq!(publish.topic, "t/imu");
    assert_eq!(
        String::from_utf8(publish.payload).unwrap(),
        r#"[{"stream":"imu","v":1},{"stream":"imu","v":2},{"stream":"imu","v":3}]"#
    );
}

#[test]
fn batch_seals_exactly_at_capacity() {
    let mut parts = imu_partitions();
    assert!(parts.fill(point("imu", "1")).is_none());
    assert!(parts.fill(point("imu", "2")).is_none());
    let b = parts.fill(point("imu", "3")).unwrap();
    assert_eq!(b.buffer.len(), 3);
    assert_eq!(b.capacity, 3);
    assert!(parts.fill(point("imu", "4")).is_none());
    assert!(parts.fill(point("imu", "5")).is_none());
    let b2 = parts.fill(point("imu", "6")).unwrap();
    assert_eq!(b2.buffer.len(), 3);
    assert_eq!(b2.sequence, b.sequence + 1);
}

#[test]
fn streams_are_batched_apart() {
    let mut parts = Partitions::new(vec![("a".to_string(), 2), ("b".to_string(), 2)], 5);
    assert!(parts.fill(point("a", "1")).is_none());
    assert!(parts.fill(point("b", "2")).is_none());
    let a = parts.fill(point("a", "3")).unwrap();
    assert_eq!(a.stream(), "a");
    assert_eq!(a.buffer[0].payload, b"1".to_vec());
    assert_eq!(a.buffer[1].payload, b"3".to_vec());
}

#[test]
fn unknown_stream_uses_default_size() {
    let mut parts = Partitions::new(vec![], 2);
    assert!(parts.fill(point("gps", "1")).is_none());
    let b = parts.fill(point("gps", "2")).unwrap();
    assert_eq!(b.stream, "gps");
    assert_eq!(b.buffer.len(), 2);
}

#[test]
fn zero_size_is_taken_as_one() {
    let mut parts = Partitions::new(vec![("x".to_string(), 0)], 0);
    assert!(parts.fill(point("x", "1")).is_some());
    assert!(parts.fill(point("y", "1")).is_some());
}

#[test]
fn first_configured_size_wins() {
    let mut parts = Partitions::new(vec![("x".to_string(), 1), ("x".to_string(), 5)], 9);
    assert!(parts.fill(point("x", "1")).is_some());
}

#[test]
fn empty_batch_serializes_to_empty_array() {
    let b = Buffer::new("s".to_string(), 4, 0);
    assert_eq!(b.serialize(), b"[]".to_vec());
}

#[test]
fn batch_without_topic_gives_no_publish() {
    let mut parts = Partitions::new(vec![("x".to_string(), 1)], 1);
    let b = parts.fill(point("x", "1")).unwrap();
    assert!(publish_of(&b, &vec![("y".to_string(), "t/y".to_string())]).is_none());
}
