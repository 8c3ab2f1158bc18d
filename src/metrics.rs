use vstd::prelude::*;

verus! {

/// Largest number of characters that the error digest may hold.
pub const MAX_ERRORS_LEN: usize = 1024;

/// Separator written after each error tag in the digest.
pub open spec fn error_separator() -> Seq<char> {
    seq![' ', '|', ' ']
}

/// Self-report of the uplink: byte counts, lost spool segments and a digest of
/// the errors seen since the previous report.
pub struct Metrics {
    pub topic: String,
    pub sequence: u32,
    pub timestamp: u64,
    pub total_sent_size: usize,
    pub total_disk_size: usize,
    pub lost_segments: usize,
    pub errors: String,
    pub error_count: usize,
}

/// One emitted report: the counters as they stood when it was taken.
pub struct MetricsRecord {
    pub sequence: u32,
    pub timestamp: u64,
    pub total_sent_size: usize,
    pub total_disk_size: usize,
    pub lost_segments: usize,
    pub errors: String,
    pub error_count: usize,
}

/// Saturating addition over the integers of a `usize`.
pub open spec fn sat_add(a: usize, b: usize) -> usize {
    if a + b > usize::MAX { usize::MAX } else { (a + b) as usize }
}

/// Saturating subtraction over the integers of a `usize`.
pub open spec fn sat_sub(a: usize, b: usize) -> usize {
    if a < b { 0 } else { (a - b) as usize }
}

/// The digest after an error tag is offered: the tag and a separator are
/// appended only while the digest stays within its bound.
pub open spec fn digest_after(errors: Seq<char>, error: Seq<char>) -> Seq<char> {
    if errors.len() + error.len() + 3 <= MAX_ERRORS_LEN {
        errors + error + error_separator()
    } else {
        errors
    }
}

impl Metrics {
    /// The error digest never grows past its bound.
    pub open spec fn wf(&self) -> bool {
        self.errors@.len() <= MAX_ERRORS_LEN
    }

    /// The relation that every mutating method of `Metrics` keeps between the
    /// state before and after it: same topic, and the sequence number, bytes
    /// sent and error count never go down.
    pub open spec fn evolves_to(&self, next: Metrics) -> bool {
        &&& next.topic == self.topic
        &&& next.sequence >= self.sequence
        &&& next.total_sent_size >= self.total_sent_size
        &&& next.error_count >= self.error_count
    }

    pub fn new(topic: String) -> (r: Metrics)
        ensures
            r.wf(),
            r.topic == topic,
            r.sequence == 0,
            r.timestamp == 0,
            r.total_sent_size == 0,
            r.total_disk_size == 0,
            r.lost_segments == 0,
            r.errors@.len() == 0,
            r.error_count == 0,
    {
        Metrics {
            topic,
            sequence: 0,
            timestamp: 0,
            total_sent_size: 0,
            total_disk_size: 0,
            lost_segments: 0,
            errors: String::new(),
            error_count: 0,
        }
    }

    pub fn add_total_sent_size(&mut self, size: usize)
        ensures
            *final(self) == (Metrics { total_sent_size: sat_add(old(self).total_sent_size, size), ..*old(self) }),
            old(self).evolves_to(*final(self)),
    {
        self.total_sent_size = self.total_sent_size.saturating_add(size);
    }

    pub fn add_total_disk_size(&mut self, size: usize)
        ensures
            *final(self) == (Metrics { total_disk_size: sat_add(old(self).total_disk_size, size), ..*old(self) }),
            old(self).evolves_to(*final(self)),
    {
        self.total_disk_size = self.total_disk_size.saturating_add(size);
    }

    pub fn sub_total_disk_size(&mut self, size: usize)
        ensures
            *final(self) == (Metrics { total_disk_size: sat_sub(old(self).total_disk_size, size), ..*old(self) }),
            old(self).evolves_to(*final(self)),
    {
        self.total_disk_size = self.total_disk_size.saturating_sub(size);
    }

    pub fn increment_lost_segments(&mut self)
        ensures
            *final(self) == (Metrics { lost_segments: sat_add(old(self).lost_segments, 1), ..*old(self) }),
            old(self).evolves_to(*final(self)),
    {
        self.lost_segments = self.lost_segments.saturating_add(1);
    }

    /// Counts `count` errors and appends the tag `error` to the digest while
    /// the digest stays within its bound.
    pub fn add_errors(&mut self, error: &str, count: usize)
        requires
            old(self).wf(),
        ensures
            final(self).wf(),
            final(self).errors@ == digest_after(old(self).errors@, error@),
            *final(self) == (Metrics {
                errors: final(self).errors,
                error_count: sat_add(old(self).error_count, count),
                ..*old(self)
            }),
            old(self).evolves_to(*final(self)),
    {
        self.error_count = self.error_count.saturating_add(count);
        let have = self.errors.unicode_len();
        let add = error.unicode_len();
        if add <= MAX_ERRORS_LEN && have + add + 3 <= MAX_ERRORS_LEN {
            self.errors.append(error);
            self.errors.append(" | ");
            proof {
                reveal_strlit(" | ");
            }
        }
    }

    /// Takes the next report: the sequence number is advanced and the time
    /// stamped before the record is taken; the digest and the lost-segment
    /// count start afresh afterwards.
    pub fn next(&mut self, timestamp: u64) -> (r: MetricsRecord)
        requires
            old(self).wf(),
        ensures
            final(self).wf(),
            r.sequence == (if old(self).sequence == u32::MAX { u32::MAX } else { (old(self).sequence + 1) as u32 }),
            r.timestamp == timestamp,
            r.total_sent_size == old(self).total_sent_size,
            r.total_disk_size == old(self).total_disk_size,
            r.lost_segments == old(self).lost_segments,
            r.errors@ == old(self).errors@,
            r.error_count == old(self).error_count,
            final(self).errors@.len() == 0,
            *final(self) == (Metrics {
                sequence: r.sequence,
                timestamp,
                lost_segments: 0,
                errors: final(self).errors,
                ..*old(self)
            }),
            old(self).evolves_to(*final(self)),
    {
        self.timestamp = timestamp;
        self.sequence = self.sequence.saturating_add(1);
        let errors = self.errors.clone();
        self.errors = String::new();
        let record = MetricsRecord {
            sequence: self.sequence,
            timestamp: self.timestamp,
            total_sent_size: self.total_sent_size,
            total_disk_size: self.total_disk_size,
            lost_segments: self.lost_segments,
            errors,
            error_count: self.error_count,
        };
        self.lost_segments = 0;
        record
    }
}

/// Across any run of updates, each kept by `evolves_to`, the error count and
/// the bytes sent never go down.
pub proof fn counters_never_decrease(states: Seq<Metrics>)
    requires
        forall|i: int| 0 <= i < states.len() - 1 ==> (#[trigger] states[i]).evolves_to(states[i + 1]),
    ensures
        forall|i: int, j: int| 0 <= i <= j < states.len() ==> {
            &&& (#[trigger] states[i]).error_count <= (#[trigger] states[j]).error_count
            &&& states[i].total_sent_size <= states[j].total_sent_size
        },
{
    assert forall|i: int, j: int| 0 <= i <= j < states.len() implies {
        &&& (#[trigger] states[i]).error_count <= (#[trigger] states[j]).error_count
        &&& states[i].total_sent_size <= states[j].total_sent_size
    } by {
        lemma_chain(states, i, j);
    }
}

proof fn lemma_chain(states: Seq<Metrics>, i: int, j: int)
    requires
        0 <= i <= j < states.len(),
        forall|k: int| 0 <= k < states.len() - 1 ==> (#[trigger] states[k]).evolves_to(states[k + 1]),
    ensures
        states[i].error_count <= states[j].error_count,
        states[i].total_sent_size <= states[j].total_sent_size,
    decreases j - i,
{
    if i < j {
        lemma_chain(states, i, j - 1);
        assert(states[j - 1].evolves_to(states[j]));
    }
}

} // verus!
