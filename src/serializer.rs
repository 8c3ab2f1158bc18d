use vstd::prelude::*;

use crate::batch::{append_bytes, bodies, json_array, Buffer};
use crate::metrics::{digest_after, sat_add, sat_sub, Metrics, MetricsRecord};

verus! {

/// A message for the broker: the topic and the serialized bytes.
pub struct Publish {
    pub topic: String,
    pub payload: Vec<u8>,
}

impl View for Publish {
    type V = (Seq<char>, Seq<u8>);

    open spec fn view(&self) -> (Seq<char>, Seq<u8>) {
        (self.topic@, self.payload@)
    }
}

impl Publish {
    /// A copy with the same topic and payload.
    pub fn duplicate(&self) -> (r: Publish)
        ensures
            r@ == self@,
    {
        let mut payload: Vec<u8> = Vec::new();
        append_bytes(&mut payload, &self.payload);
        Publish { topic: self.topic.clone(), payload }
    }
}

/// The topic configured for `stream`: that of the first entry with its name.
pub open spec fn topic_of(topics: Seq<(String, String)>, stream: Seq<char>) -> Option<Seq<char>>
    decreases topics.len(),
{
    if topics.len() == 0 {
        None
    } else if topics[0].0@ == stream {
        Some(topics[0].1@)
    } else {
        topic_of(topics.drop_first(), stream)
    }
}

/// A sealed batch as a publish: on its stream's configured topic, with the
/// batch's JSON array as payload; `None` for a stream with no topic.
pub fn publish_of(batch: &Buffer, topics: &Vec<(String, String)>) -> (r: Option<Publish>)
    ensures
        match topic_of(topics@, batch.stream@) {
            Some(t) => (r matches Some(p) && p.topic@ == t && p.payload@ == json_array(bodies(batch.buffer@))),
            None => r is None,
        },
{
    let mut i: usize = 0;
    assert(topics@.subrange(0, topics@.len() as int) == topics@);
    while i < topics.len()
        invariant
            i <= topics@.len(),
            topic_of(topics@, batch.stream@) == topic_of(topics@.subrange(i as int, topics@.len() as int), batch.stream@),
        decreases topics@.len() - i,
    {
        let ghost rest = topics@.subrange(i as int, topics@.len() as int);
        assert(rest.drop_first() == topics@.subrange(i + 1, topics@.len() as int));
        if topics[i].0 == batch.stream {
            return Some(Publish { topic: topics[i].1.clone(), payload: batch.serialize() });
        }
        i = i + 1;
    }
    None
}

/// The four regimes of the serializer. The non-`Normal` ones that hold a
/// publish hold the one that could not be sent, so that it is never lost.
pub enum Status {
    Normal,
    SlowEventloop(Publish),
    EventLoopReady,
    EventLoopCrash(Publish),
}

impl Status {
    pub fn is_normal(&self) -> (r: bool)
        ensures
            r == self is Normal,
    {
        matches!(self, Status::Normal)
    }

    pub fn is_slow(&self) -> (r: bool)
        ensures
            r == self is SlowEventloop,
    {
        matches!(self, Status::SlowEventloop(_))
    }

    pub fn is_ready(&self) -> (r: bool)
        ensures
            r == self is EventLoopReady,
    {
        matches!(self, Status::EventLoopReady)
    }
}

/// The regime as a mathematical value: each publish by its view.
pub ghost enum Regime {
    Normal,
    SlowEventloop((Seq<char>, Seq<u8>)),
    EventLoopReady,
    EventLoopCrash((Seq<char>, Seq<u8>)),
}

impl View for Status {
    type V = Regime;

    open spec fn view(&self) -> Regime {
        match self {
            Status::Normal => Regime::Normal,
            Status::SlowEventloop(p) => Regime::SlowEventloop(p@),
            Status::EventLoopReady => Regime::EventLoopReady,
            Status::EventLoopCrash(p) => Regime::EventLoopCrash(p@),
        }
    }
}

/// What happened since the last step.
pub enum Event {
    /// A sealed batch (or another package) from the collector, with the
    /// anomalies the collector noted: a tag and how many times it occurred.
    Collected(Publish, Option<(String, usize)>),
    /// The periodic metrics timer fired, at the given time.
    MetricsTick(u64),
    /// A `try_publish` was taken by the transport; the payload size.
    TrySent(usize),
    /// A `try_publish` was refused because the transport's queue is full.
    TryRejected(Publish),
    /// The pending asynchronous publish was taken by the transport.
    PublishDone,
    /// The transport's event loop is gone; the publish it could not take.
    ClientDead(Publish),
    /// A record was appended to the spool: its payload size, and whether
    /// the oldest segment was dropped to make room.
    SpoolWritten(usize, bool),
    /// A record could not be appended to the spool.
    SpoolWriteFailed,
    /// The next record read back from the spool.
    SpoolRecord(Publish),
    /// The spool holds nothing more to replay.
    SpoolDrained,
    /// The next spooled record could not be read.
    SpoolCorrupt,
}

/// What the serializer asks of its surroundings after a step.
pub enum Command {
    /// Nothing: wait for the next event.
    Wait,
    /// Hand this publish to the transport without waiting (`try_publish`).
    TryPublish(Publish),
    /// Serialize this metrics record and hand it, on this topic, to the
    /// transport without waiting.
    TryPublishMetrics(String, MetricsRecord),
    /// Start an asynchronous publish and report when it completes.
    Publish(Publish),
    /// Append this framed record, whose payload has the given size, to the spool.
    WriteSpool(Vec<u8>, usize),
    /// Read the next record from the spool.
    ReadSpool,
}

/// Packet id of every record written to the spool.
pub const SPOOL_PACKET_ID: u16 = 1;

/// Quality of service of every record written to the spool: at least once.
pub const SPOOL_QOS: u8 = 1;

/// Largest remaining length an MQTT packet may declare.
pub const MAX_REMAINING_LENGTH: usize = 268_435_455;

/// The transport codec's length-prefixed publish packet for a topic, a
/// payload, a quality of service (0, 1 or 2) and a packet id.
pub uninterp spec fn publish_packet(topic: Seq<char>, payload: Seq<u8>, qos: u8, pkid: u16) -> Seq<u8>;

/// Relies on rumqttc's `Publish::new` and `Publish::write`: the publish packet
/// with its fixed header, remaining length, topic, packet id (for a QoS above
/// 0) and payload. It fails only for a QoS above 0 with packet id 0, or for a
/// remaining length above 268,435,455 bytes; a topic character takes at most
/// four bytes.
#[verifier::external_body]
fn encode_publish(topic: &String, payload: &Vec<u8>, qos: u8, pkid: u16) -> (r: Option<Vec<u8>>)
    requires
        qos <= 2,
    ensures
        r matches Some(b) ==> b@ == publish_packet(topic@, payload@, qos, pkid),
        (qos == 0 || pkid != 0) && payload@.len() + 4 * topic@.len() + 4 <= MAX_REMAINING_LENGTH ==> r is Some,
{
    let qos = match qos {
        0 => rumqttc::QoS::AtMostOnce,
        1 => rumqttc::QoS::AtLeastOnce,
        _ => rumqttc::QoS::ExactlyOnce,
    };
    let mut publish = rumqttc::Publish::new(topic.as_str(), qos, payload.clone());
    publish.pkid = pkid;
    let mut buffer = bytes::BytesMut::new();
    match publish.write(&mut buffer) {
        Ok(_) => Some(buffer.to_vec()),
        Err(_) => None,
    }
}

/// The spool record of a publish: its packet at QoS 1 with packet id 1.
pub open spec fn spool_record(topic: Seq<char>, payload: Seq<u8>) -> Seq<u8> {
    publish_packet(topic, payload, SPOOL_QOS, SPOOL_PACKET_ID)
}

/// Whether the spool record of `p` stays within the protocol's packet size.
pub open spec fn frame_fits(p: Publish) -> bool {
    p.payload@.len() + 4 * p.topic@.len() + 4 <= MAX_REMAINING_LENGTH
}

/// Whether a command calls the transport.
pub open spec fn uses_transport(c: Command) -> bool {
    match c {
        Command::TryPublish(_) => true,
        Command::TryPublishMetrics(_, _) => true,
        Command::Publish(_) => true,
        _ => false,
    }
}

/// Whether a command, for the publish `p`, appends its record to the spool;
/// only a publish too large to frame is given up (and counted by `step`).
pub open spec fn spools(c: Command, p: Publish) -> bool {
    match c {
        Command::WriteSpool(b, n) => b@ == spool_record(p.topic@, p.payload@) && n == p.payload@.len(),
        Command::Wait => !frame_fits(p),
        _ => false,
    }
}

/// The regime after one event.
pub open spec fn next_status(s: Regime, e: Event) -> Regime {
    match s {
        Regime::Normal => match e {
            Event::TryRejected(p) => Regime::SlowEventloop(p@),
            _ => Regime::Normal,
        },
        Regime::SlowEventloop(q) => match e {
            Event::PublishDone => Regime::EventLoopReady,
            Event::ClientDead(p) => Regime::EventLoopCrash(p@),
            _ => Regime::SlowEventloop(q),
        },
        Regime::EventLoopReady => match e {
            Event::SpoolDrained => Regime::Normal,
            Event::ClientDead(p) => Regime::EventLoopCrash(p@),
            _ => Regime::EventLoopReady,
        },
        Regime::EventLoopCrash(q) => Regime::EventLoopCrash(q),
    }
}

/// Whether the step for event `e` in regime `s` calls the transport.
pub open spec fn transport_called(s: Regime, e: Event) -> bool {
    match s {
        Regime::Normal => e is Collected || e is MetricsTick || e is TryRejected,
        Regime::EventLoopReady => e is SpoolRecord,
        _ => false,
    }
}

/// The command for event `e` in regime `s`, the metrics tick aside.
pub open spec fn command_fits(s: Regime, e: Event, c: Command) -> bool {
    match e {
        Event::Collected(p, _) => if s is Normal { c matches Command::TryPublish(q) && q@ == p@ } else { spools(c, p) },
        Event::MetricsTick(_) => if s is Normal { c is TryPublishMetrics } else { c is Wait },
        Event::TryRejected(p) => if s is Normal { c matches Command::Publish(q) && q@ == p@ } else { c is Wait },
        Event::PublishDone => if s is SlowEventloop || s is EventLoopReady { c is ReadSpool } else { c is Wait },
        Event::ClientDead(p) => if s is SlowEventloop || s is EventLoopReady { spools(c, p) } else { c is Wait },
        Event::SpoolRecord(p) => if s is EventLoopReady { c matches Command::Publish(q) && q@ == p@ } else { c is Wait },
        Event::SpoolCorrupt => if s is EventLoopReady { c is ReadSpool } else { c is Wait },
        _ => c is Wait,
    }
}

/// The regime reached from `s` by the events in order.
pub open spec fn run(s: Regime, events: Seq<Event>) -> Regime
    decreases events.len(),
{
    if events.len() == 0 {
        s
    } else {
        next_status(run(s, events.drop_last()), events.last())
    }
}

/// An event of a transport that takes every publish: it neither refuses one
/// nor dies.
pub open spec fn healthy(e: Event) -> bool {
    !(e is TryRejected) && !(e is ClientDead)
}

proof fn lemma_run_step(s: Regime, events: Seq<Event>, i: int)
    requires
        0 <= i < events.len(),
    ensures
        run(s, events.take(i + 1)) == next_status(run(s, events.take(i)), events[i]),
{
    assert(events.take(i + 1).drop_last() == events.take(i));
}

/// Starting to replay an empty spool over a healthy transport, the machine
/// makes exactly one transition, from `EventLoopReady` to `Normal`, and stays
/// there.
pub proof fn empty_spool_goes_normal_once(events: Seq<Event>)
    requires
        events.len() >= 1,
        events[0] is SpoolDrained,
        forall|i: int| 1 <= i < events.len() ==> healthy(#[trigger] events[i]),
    ensures
        forall|i: int| 1 <= i <= events.len() ==> #[trigger] run(Regime::EventLoopReady, events.take(i)) == Regime::Normal,
{
    assert forall|i: int| 1 <= i <= events.len() implies #[trigger] run(Regime::EventLoopReady, events.take(i)) == Regime::Normal by {
        lemma_stays_normal(events, i);
    }
}

proof fn lemma_stays_normal(events: Seq<Event>, i: int)
    requires
        1 <= i <= events.len(),
        events[0] is SpoolDrained,
        forall|j: int| 1 <= j < events.len() ==> healthy(#[trigger] events[j]),
    ensures
        run(Regime::EventLoopReady, events.take(i)) == Regime::Normal,
    decreases i,
{
    lemma_run_step(Regime::EventLoopReady, events, i - 1);
    if i == 1 {
        assert(events.take(0) == Seq::<Event>::empty());
    } else {
        lemma_stays_normal(events, i - 1);
        assert(healthy(events[i - 1]));
    }
}

/// Once the machine is in `EventLoopCrash`, it stays there whatever happens,
/// and no later step calls the transport.
pub proof fn crash_is_sink(q: (Seq<char>, Seq<u8>), events: Seq<Event>)
    ensures
        run(Regime::EventLoopCrash(q), events) == Regime::EventLoopCrash(q),
        forall|i: int| 0 <= i < events.len() ==> !transport_called(#[trigger] run(Regime::EventLoopCrash(q), events.take(i)), events[i]),
    decreases events.len(),
{
    if events.len() > 0 {
        crash_is_sink(q, events.drop_last());
    }
    assert forall|i: int| 0 <= i < events.len() implies !transport_called(#[trigger] run(Regime::EventLoopCrash(q), events.take(i)), events[i]) by {
        crash_is_sink(q, events.take(i));
    }
}

/// The way back to streaming straight to the transport leads through a
/// drained spool: no regime but `EventLoopReady` reaches `Normal`, and only
/// when the spool reports that nothing is left to replay. Together with
/// `command_fits`, which spools collected data in every regime but `Normal`,
/// this keeps data that went to the spool ahead of data sent later.
pub proof fn normal_only_after_drain(s: Regime, e: Event)
    requires
        !(s is Normal),
        next_status(s, e) is Normal,
    ensures
        s is EventLoopReady,
        e is SpoolDrained,
{
}

proof fn lemma_reaches_normal_through_drain(s: Regime, events: Seq<Event>, a: int, b: int)
    requires
        0 <= a < b <= events.len(),
        !(run(s, events.take(a)) is Normal),
        run(s, events.take(b)) is Normal,
    ensures
        exists|k: int| a <= k < b && #[trigger] run(s, events.take(k)) is EventLoopReady && events[k] is SpoolDrained,
    decreases b - a,
{
    lemma_run_step(s, events, b - 1);
    if run(s, events.take(b - 1)) is Normal {
        lemma_reaches_normal_through_drain(s, events, a, b - 1);
    } else {
        normal_only_after_drain(run(s, events.take(b - 1)), events[b - 1]);
        assert(run(s, events.take(b - 1)) is EventLoopReady && events[b - 1] is SpoolDrained);
    }
}

/// Data that went to the spool is never overtaken by data sent straight to
/// the transport: if a point is collected outside `Normal` (so it is spooled)
/// and a later one is collected in `Normal` (so it is offered directly), the
/// spool reported itself drained, in `EventLoopReady`, between the two.
pub proof fn spooled_data_drains_before_direct_sends(s: Regime, events: Seq<Event>, i: int, j: int)
    requires
        0 <= i < j < events.len(),
        events[i] is Collected,
        !(run(s, events.take(i)) is Normal),
        events[j] is Collected,
        run(s, events.take(j)) is Normal,
    ensures
        exists|k: int| i < k < j && #[trigger] run(s, events.take(k)) is EventLoopReady && events[k] is SpoolDrained,
{
    lemma_run_step(s, events, i);
    lemma_reaches_normal_through_drain(s, events, i + 1, j);
}

/// No publish is dropped by a step: collected data is offered to the
/// transport or appended to the spool (only a publish too large for the
/// protocol is given up, and `step` counts it as an error); a publish the transport refuses is kept in the
/// `SlowEventloop` regime and sent again; one that a dead transport hands back
/// is kept in the `EventLoopCrash` regime and spooled.
pub proof fn no_publish_is_dropped(s: Regime, e: Event, c: Command)
    requires
        command_fits(s, e, c),
    ensures
        e matches Event::Collected(p, _) ==> ((c matches Command::TryPublish(q) && q@ == p@) || spools(c, p)),
        (e is Collected && !(s is Normal) && frame_fits(e->Collected_0)) ==> (c matches Command::WriteSpool(b, n)
            && b@ == spool_record(e->Collected_0.topic@, e->Collected_0.payload@) && n == e->Collected_0.payload@.len()),
        (e is ClientDead && (s is SlowEventloop || s is EventLoopReady) && frame_fits(e->ClientDead_0)) ==> (c matches Command::WriteSpool(b, n)
            && b@ == spool_record(e->ClientDead_0.topic@, e->ClientDead_0.payload@) && n == e->ClientDead_0.payload@.len()),
        (s is Normal && e is TryRejected) ==> next_status(s, e) == Regime::SlowEventloop(e->TryRejected_0@)
            && (c matches Command::Publish(q) && q@ == e->TryRejected_0@),
        ((s is SlowEventloop || s is EventLoopReady) && e is ClientDead) ==> next_status(s, e) == Regime::EventLoopCrash(e->ClientDead_0@)
            && spools(c, e->ClientDead_0),
{
}

/// Collected data never waits on the transport: in `Normal` it is offered
/// with a non-blocking `try_publish`, in every other regime it is appended to
/// the spool; no regime starts a blocking publish or a spool read for it.
pub proof fn collector_never_waits(s: Regime, p: Publish, anomalies: Option<(String, usize)>, c: Command)
    requires
        command_fits(s, Event::Collected(p, anomalies), c),
    ensures
        s is Normal ==> c is TryPublish,
        !(s is Normal) ==> c is WriteSpool || c is Wait,
        !(c is Publish) && !(c is ReadSpool),
{
}

/// The tag counted when a record cannot be spooled.
pub open spec fn spool_error_tag() -> Seq<char> {
    seq!['s', 'p', 'o', 'o', 'l', ' ', 'w', 'r', 'i', 't', 'e']
}

/// Drives the transitions between streaming, spooling and replaying.
pub struct Serializer {
    pub status: Status,
    pub metrics: Metrics,
    /// Payload size of the spooled record being replayed, if one is in flight.
    pub replaying: Option<usize>,
}

impl Serializer {
    pub open spec fn wf(&self) -> bool {
        self.metrics.wf()
    }

    /// A serializer that starts by replaying the spool, and reports its
    /// metrics on `metrics_topic`.
    pub fn new(metrics_topic: String) -> (r: Serializer)
        ensures
            r.wf(),
            r.status is EventLoopReady,
            r.replaying is None,
            r.metrics.topic == metrics_topic,
            r.metrics.sequence == 0,
            r.metrics.timestamp == 0,
            r.metrics.total_sent_size == 0,
            r.metrics.total_disk_size == 0,
            r.metrics.lost_segments == 0,
            r.metrics.errors@.len() == 0,
            r.metrics.error_count == 0,
    {
        Serializer { status: Status::EventLoopReady, metrics: Metrics::new(metrics_topic), replaying: None }
    }

    /// (Re)starts the machine: it first replays whatever the spool holds.
    pub fn start(&mut self) -> (c: Command)
        ensures
            final(self).status is EventLoopReady,
            final(self).replaying is None,
            final(self).metrics == old(self).metrics,
            c is ReadSpool,
    {
        self.status = Status::EventLoopReady;
        self.replaying = None;
        Command::ReadSpool
    }

    fn note_spool_failure(&mut self)
        requires
            old(self).wf(),
        ensures
            final(self).wf(),
            final(self).status == old(self).status,
            final(self).replaying == old(self).replaying,
            final(self).metrics.errors@ == digest_after(old(self).metrics.errors@, spool_error_tag()),
            final(self).metrics == (Metrics {
                errors: final(self).metrics.errors,
                error_count: sat_add(old(self).metrics.error_count, 1),
                ..old(self).metrics
            }),
    {
        self.metrics.add_errors("spool write", 1);
        proof {
            reveal_strlit("spool write");
        }
    }

    fn spool(&mut self, p: Publish) -> (c: Command)
        requires
            old(self).wf(),
        ensures
            final(self).wf(),
            final(self).status == old(self).status,
            final(self).replaying == old(self).replaying,
            spools(c, p),
            c is WriteSpool ==> final(self).metrics == old(self).metrics,
            c is Wait ==> final(self).metrics.errors@ == digest_after(old(self).metrics.errors@, spool_error_tag()),
            c is Wait ==> final(self).metrics == (Metrics {
                errors: final(self).metrics.errors,
                error_count: sat_add(old(self).metrics.error_count, 1),
                ..old(self).metrics
            }),
    {
        match encode_publish(&p.topic, &p.payload, SPOOL_QOS, SPOOL_PACKET_ID) {
            Some(record) => Command::WriteSpool(record, p.payload.len()),
            None => {
                self.note_spool_failure();
                Command::Wait
            },
        }
    }

    /// One step of the machine: the regime moves as `next_status` says, the
    /// transport is called exactly where `transport_called` says, and the
    /// command is the one `command_fits` names. Collected data goes to the
    /// transport only in `Normal`; in every other regime it goes behind what
    /// the spool already holds.
    pub fn step(&mut self, event: Event) -> (c: Command)
        requires
            old(self).wf(),
        ensures
            final(self).wf(),
            final(self).status@ == next_status(old(self).status@, event),
            uses_transport(c) == transport_called(old(self).status@, event),
            command_fits(old(self).status@, event, c),
            final(self).metrics.topic == old(self).metrics.topic,
            old(self).metrics.evolves_to(final(self).metrics),

            (old(self).status is Normal && event is TrySent) ==> final(self).metrics
                == (Metrics { total_sent_size: sat_add(old(self).metrics.total_sent_size, event->TrySent_0), ..old(self).metrics }),
            (!(old(self).status is Normal) && event is SpoolWritten) ==> final(self).metrics == (Metrics {
                total_disk_size: sat_add(old(self).metrics.total_disk_size, event->SpoolWritten_0),
                lost_segments: if event->SpoolWritten_1 { sat_add(old(self).metrics.lost_segments, 1) } else { old(self).metrics.lost_segments },
                ..old(self).metrics
            }),
            (old(self).status is EventLoopReady && event is PublishDone) ==> final(self).metrics == (match old(self).replaying {
                Some(n) => Metrics {
                    total_disk_size: sat_sub(old(self).metrics.total_disk_size, n),
                    total_sent_size: sat_add(old(self).metrics.total_sent_size, n),
                    ..old(self).metrics
                },
                None => old(self).metrics,
            }),
            (old(self).status is EventLoopReady && event is SpoolRecord) ==> final(self).replaying == Some(event->SpoolRecord_0.payload@.len() as usize),
            (old(self).status is EventLoopReady && event is PublishDone) ==> final(self).replaying is None,
            event is Collected ==> final(self).metrics.error_count >= old(self).metrics.error_count,
            (event is Collected && !(old(self).status is Normal) && c is Wait) ==> (final(self).metrics.error_count > old(self).metrics.error_count
                || final(self).metrics.error_count == usize::MAX),
            (event is Collected && event->Collected_1 is None && c is WriteSpool) ==> final(self).metrics == old(self).metrics,
            (old(self).status is Normal && event is Collected && event->Collected_1 is None) ==> final(self).metrics == old(self).metrics,
            (old(self).status is Normal && event is MetricsTick) ==> (c matches Command::TryPublishMetrics(t, r) && t == old(self).metrics.topic
                && r.timestamp == event->MetricsTick_0 && r.sequence == final(self).metrics.sequence
                && r.total_sent_size == old(self).metrics.total_sent_size && r.total_disk_size == old(self).metrics.total_disk_size
                && r.errors@ == old(self).metrics.errors@
                && r.lost_segments == old(self).metrics.lost_segments && r.error_count == old(self).metrics.error_count
                && r.sequence == (if old(self).metrics.sequence == u32::MAX { u32::MAX } else { (old(self).metrics.sequence + 1) as u32 })
                && final(self).metrics.errors@.len() == 0
                && final(self).metrics == (Metrics {
                    sequence: r.sequence,
                    timestamp: r.timestamp,
                    lost_segments: 0,
                    errors: final(self).metrics.errors,
                    ..old(self).metrics
                })),
            (event is Collected && event->Collected_1 is Some && (old(self).status is Normal || c is WriteSpool)) ==> ({
                let tag = event->Collected_1->Some_0.0;
                let n = event->Collected_1->Some_0.1;
                &&& final(self).metrics.errors@ == digest_after(old(self).metrics.errors@, tag@)
                &&& final(self).metrics == (Metrics {
                    errors: final(self).metrics.errors,
                    error_count: sat_add(old(self).metrics.error_count, n),
                    ..old(self).metrics
                })
            }),
            (!(old(self).status is Normal) && (event is TrySent || event is MetricsTick)) ==> final(self).metrics == old(self).metrics,
            (old(self).status is Normal && (event is SpoolWritten || event is SpoolWriteFailed)) ==> final(self).metrics == old(self).metrics,
            (!(old(self).status is EventLoopReady) && event is PublishDone) ==> final(self).metrics == old(self).metrics,
            (event is SpoolWriteFailed && !(old(self).status is Normal)) ==> final(self).metrics.errors@ == digest_after(old(self).metrics.errors@, spool_error_tag())
                && final(self).metrics == (Metrics {
                    errors: final(self).metrics.errors,
                    error_count: sat_add(old(self).metrics.error_count, 1),
                    ..old(self).metrics
                }),
            (event is TryRejected || event is SpoolDrained || event is SpoolCorrupt || event is SpoolRecord)
                ==> final(self).metrics == old(self).metrics,
            (event is ClientDead && !(c is Wait)) ==> final(self).metrics == old(self).metrics,
    {
        match event {
            Event::Collected(p, anomalies) => {
                match anomalies {
                    Some((tag, n)) => self.metrics.add_errors(tag.as_str(), n),
                    None => {},
                }
                if self.status.is_normal() {
                    Command::TryPublish(p)
                } else {
                    self.spool(p)
                }
            },
            Event::MetricsTick(now) => {
                if self.status.is_normal() {
                    let topic = self.metrics.topic.clone();
                    let record = self.metrics.next(now);
                    Command::TryPublishMetrics(topic, record)
                } else {
                    Command::Wait
                }
            },
            Event::TrySent(n) => {
                if self.status.is_normal() {
                    self.metrics.add_total_sent_size(n);
                }
                Command::Wait
            },
            Event::TryRejected(p) => {
                if self.status.is_normal() {
                    let pending = p.duplicate();
                    self.status = Status::SlowEventloop(pending);
                    Command::Publish(p)
                } else {
                    Command::Wait
                }
            },
            Event::PublishDone => {
                match self.status {
                    Status::SlowEventloop(_) => {
                        self.status = Status::EventLoopReady;
                        self.replaying = None;
                        Command::ReadSpool
                    },
                    Status::EventLoopReady => {
                        match self.replaying {
                            Some(n) => {
                                self.metrics.sub_total_disk_size(n);
                                self.metrics.add_total_sent_size(n);
                            },
                            None => {},
                        }
                        self.replaying = None;
                        Command::ReadSpool
                    },
                    _ => Command::Wait,
                }
            },
            Event::ClientDead(p) => {
                if self.status.is_slow() || self.status.is_ready() {
                    let kept = p.duplicate();
                    self.status = Status::EventLoopCrash(kept);
                    self.replaying = None;
                    self.spool(p)
                } else {
                    Command::Wait
                }
            },
            Event::SpoolWritten(n, dropped) => {
                if !(self.status.is_normal()) {
                    self.metrics.add_total_disk_size(n);
                    if dropped {
                        self.metrics.increment_lost_segments();
                    }
                }
                Command::Wait
            },
            Event::SpoolWriteFailed => {
                if !(self.status.is_normal()) {
                    self.note_spool_failure();
                }
                Command::Wait
            },
            Event::SpoolRecord(p) => {
                if self.status.is_ready() {
                    self.replaying = Some(p.payload.len());
                    Command::Publish(p)
                } else {
                    Command::Wait
                }
            },
            Event::SpoolDrained => {
                if self.status.is_ready() {
                    self.status = Status::Normal;
                    self.replaying = None;
                }
                Command::Wait
            },
            Event::SpoolCorrupt => {
                if self.status.is_ready() {
                    Command::ReadSpool
                } else {
                    Command::Wait
                }
            },
        }
    }
}

} // verus!
