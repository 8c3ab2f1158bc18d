use vstd::prelude::*;

verus! {

/// `[` in ASCII.
pub const LEFT_BRACKET: u8 = 0x5b;

/// `,` in ASCII.
pub const COMMA: u8 = 0x2c;

/// `]` in ASCII.
pub const RIGHT_BRACKET: u8 = 0x5d;

/// One point from a producer: the stream it belongs to and its JSON text.
pub struct Payload {
    pub stream: String,
    pub payload: Vec<u8>,
}

/// The JSON texts of a sequence of points, in order.
pub open spec fn bodies(points: Seq<Payload>) -> Seq<Seq<u8>> {
    points.map_values(|p: Payload| p.payload@)
}

/// The items joined with commas between them.
pub open spec fn comma_joined(items: Seq<Seq<u8>>) -> Seq<u8>
    decreases items.len(),
{
    if items.len() == 0 {
        Seq::empty()
    } else if items.len() == 1 {
        items[0]
    } else {
        comma_joined(items.drop_last()) + seq![COMMA] + items.last()
    }
}

/// The JSON array whose elements are the given JSON texts.
pub open spec fn json_array(items: Seq<Seq<u8>>) -> Seq<u8> {
    seq![LEFT_BRACKET] + comma_joined(items) + seq![RIGHT_BRACKET]
}

/// A zero batch size is taken as one: a batch always holds at least one point.
pub open spec fn effective_capacity(buf_size: usize) -> nat {
    if buf_size == 0 { 1 } else { buf_size as nat }
}

/// The points of one stream gathered until the batch is full.
pub struct Buffer {
    pub stream: String,
    pub capacity: usize,
    pub sequence: u32,
    pub buffer: Vec<Payload>,
}

pub fn append_bytes(out: &mut Vec<u8>, src: &Vec<u8>)
    ensures
        final(out)@ == old(out)@ + src@,
{
    let mut i: usize = 0;
    while i < src.len()
        invariant
            i <= src@.len(),
            out@ == old(out)@ + src@.subrange(0, i as int),
        decreases src@.len() - i,
    {
        out.push(src[i]);
        i = i + 1;
        assert(src@.subrange(0, i as int) == src@.subrange(0, i - 1) + seq![src@[i - 1]]);
    }
    assert(src@.subrange(0, src@.len() as int) == src@);
}

impl Buffer {
    /// An open batch: below capacity, and every point on the batch's stream.
    pub open spec fn wf(&self) -> bool {
        &&& self.capacity >= 1
        &&& self.buffer@.len() < self.capacity
        &&& forall|i: int| 0 <= i < self.buffer@.len() ==> (#[trigger] self.buffer@[i]).stream@ == self.stream@
    }

    pub fn new(stream: String, capacity: usize, sequence: u32) -> (r: Buffer)
        requires
            capacity >= 1,
        ensures
            r.wf(),
            r.stream == stream,
            r.capacity == capacity,
            r.sequence == sequence,
            r.buffer@.len() == 0,
    {
        Buffer { stream, capacity, sequence, buffer: Vec::new() }
    }

    pub fn stream(&self) -> (r: String)
        ensures
            r@ == self.stream@,
    {
        self.stream.clone()
    }

    /// The batch as a JSON array of its points, in the order they came.
    pub fn serialize(&self) -> (r: Vec<u8>)
        ensures
            r@ == json_array(bodies(self.buffer@)),
    {
        let mut out: Vec<u8> = Vec::new();
        out.push(LEFT_BRACKET);
        let mut i: usize = 0;
        while i < self.buffer.len()
            invariant
                i <= self.buffer@.len(),
                out@ == seq![LEFT_BRACKET] + comma_joined(bodies(self.buffer@.subrange(0, i as int))),
            decreases self.buffer@.len() - i,
        {
            let ghost before = bodies(self.buffer@.subrange(0, i as int));
            if i > 0 {
                out.push(COMMA);
            }
            append_bytes(&mut out, &self.buffer[i].payload);
            i = i + 1;
            proof {
                let now = bodies(self.buffer@.subrange(0, i as int));
                assert(now.drop_last() == before);
                assert(now.last() == self.buffer@[i - 1].payload@);
                if i == 1 {
                    assert(before.len() == 0);
                }
            }
        }
        assert(self.buffer@.subrange(0, i as int) == self.buffer@);
        out.push(RIGHT_BRACKET);
        out
    }
}

/// What one more point does to the open batch of its stream: when the batch
/// reaches its capacity it is sealed (`Some`, with every point) and the stream
/// starts afresh; below capacity it stays open (`None`).
pub open spec fn fill_outcome(pending: Seq<Payload>, capacity: nat, point: Payload) -> (Seq<Payload>, Option<Seq<Payload>>) {
    let after = pending.push(point);
    if after.len() == capacity {
        (Seq::empty(), Some(after))
    } else {
        (after, None)
    }
}

/// A batch is sealed exactly when its point count reaches the batch size:
/// from an open batch, one more point seals a batch of exactly `capacity`
/// points, and what stays open is again below capacity.
pub proof fn batch_sealed_at_capacity(pending: Seq<Payload>, capacity: nat, point: Payload)
    requires
        pending.len() < capacity,
    ensures
        fill_outcome(pending, capacity, point).1 is Some <==> pending.len() + 1 == capacity,
        fill_outcome(pending, capacity, point).1 matches Some(b) ==> b.len() == capacity && b == pending.push(point),
        fill_outcome(pending, capacity, point).0.len() < capacity,
{
}

/// The open batch of every stream: points are routed by their stream name.
pub struct Partitions {
    pub open: Vec<Buffer>,
    pub default_capacity: usize,
}

impl Partitions {
    /// Each stream has at most one open batch, and each open batch is well formed.
    pub open spec fn wf(&self) -> bool {
        &&& self.default_capacity >= 1
        &&& forall|i: int| 0 <= i < self.open@.len() ==> (#[trigger] self.open@[i]).wf()
        &&& forall|i: int, j: int|
            0 <= i < j < self.open@.len() ==> (#[trigger] self.open@[i]).stream@ != (#[trigger] self.open@[j]).stream@
    }

    pub open spec fn has_slot(&self, s: Seq<char>) -> bool {
        exists|i: int| 0 <= i < self.open@.len() && (#[trigger] self.open@[i]).stream@ == s
    }

    pub open spec fn slot(&self, s: Seq<char>) -> int {
        choose|i: int| 0 <= i < self.open@.len() && (#[trigger] self.open@[i]).stream@ == s
    }

    /// The points waiting in the open batch of stream `s`.
    pub open spec fn pending(&self, s: Seq<char>) -> Seq<Payload> {
        if self.has_slot(s) { self.open@[self.slot(s)].buffer@ } else { Seq::empty() }
    }

    /// The batch size of stream `s`.
    pub open spec fn capacity_of(&self, s: Seq<char>) -> nat {
        if self.has_slot(s) { self.open@[self.slot(s)].capacity as nat } else { self.default_capacity as nat }
    }

    proof fn lemma_slot(&self, i: int)
        requires
            self.wf(),
            0 <= i < self.open@.len(),
        ensures
            self.has_slot(self.open@[i].stream@),
            self.slot(self.open@[i].stream@) == i,
    {
        let s = self.open@[i].stream@;
        assert(self.has_slot(s));
        let j = self.slot(s);
        if j != i {
            if j < i {
                assert(self.open@[j].stream@ != self.open@[i].stream@);
            } else {
                assert(self.open@[i].stream@ != self.open@[j].stream@);
            }
        }
    }

    /// Opens an empty batch for a stream that has none.
    fn open_slot(&mut self, name: String, capacity: usize)
        requires
            old(self).wf(),
            capacity >= 1,
            !old(self).has_slot(name@),
        ensures
            final(self).wf(),
            final(self).default_capacity == old(self).default_capacity,
            final(self).open@ == old(self).open@.push(final(self).open@.last()),
            final(self).open@.last().stream@ == name@,
            final(self).open@.last().capacity == capacity,
            final(self).open@.last().buffer@.len() == 0,
            final(self).has_slot(name@),
            final(self).slot(name@) == old(self).open@.len(),
            forall|t: Seq<char>| t != name@ ==> #[trigger] final(self).has_slot(t) == old(self).has_slot(t),
            forall|t: Seq<char>| #[trigger] old(self).has_slot(t) ==> final(self).slot(t) == old(self).slot(t),
    {
        let ghost old_self = *self;
        self.open.push(Buffer::new(name, capacity, 0));
        proof {
            let n = self.open@.len() - 1;
            assert forall|i: int, j: int| 0 <= i < j < self.open@.len() implies
                (#[trigger] self.open@[i]).stream@ != (#[trigger] self.open@[j]).stream@ by {
                if j == n {
                    assert(old_self.open@[i] == self.open@[i]);
                }
            }
            assert forall|t: Seq<char>| #[trigger] old_self.has_slot(t) implies self.has_slot(t) && self.slot(t) == old_self.slot(t) by {
                let i = old_self.slot(t);
                assert(self.open@[i] == old_self.open@[i]);
                self.lemma_slot(i);
            }
            assert forall|t: Seq<char>| t != name@ && #[trigger] self.has_slot(t) implies old_self.has_slot(t) by {
                let i = self.slot(t);
                assert(old_self.open@[i] == self.open@[i]);
            }
            self.lemma_slot(n);
        }
    }

    fn find(&self, s: &String) -> (r: Option<usize>)
        requires
            self.wf(),
        ensures
            r matches Some(i) ==> i < self.open@.len() && self.open@[i as int].stream@ == s@ && self.slot(s@) == i,
            r is None ==> !self.has_slot(s@),
    {
        let mut i: usize = 0;
        while i < self.open.len()
            invariant
                i <= self.open@.len(),
                self.wf(),
                forall|j: int| 0 <= j < i ==> (#[trigger] self.open@[j]).stream@ != s@,
            decreases self.open@.len() - i,
        {
            if self.open[i].stream == *s {
                proof {
                    self.lemma_slot(i as int);
                }
                return Some(i);
            }
            i = i + 1;
        }
        None
    }

    /// Partitions for the configured streams, each with its batch size; a
    /// stream that is not configured gets `default_capacity`. Where a name is
    /// configured twice, its first entry counts.
    pub fn new(streams: Vec<(String, usize)>, default_capacity: usize) -> (r: Partitions)
        ensures
            r.wf(),
            forall|s: Seq<char>| #[trigger] r.pending(s) == Seq::<Payload>::empty(),
            forall|i: int|
                0 <= i < streams@.len() && (forall|j: int| 0 <= j < i ==> streams@[j].0@ != streams@[i].0@)
                    ==> r.capacity_of(#[trigger] streams@[i].0@) == effective_capacity(streams@[i].1),
            forall|s: Seq<char>|
                (forall|i: int| 0 <= i < streams@.len() ==> streams@[i].0@ != s)
                    ==> r.capacity_of(s) == effective_capacity(default_capacity),
    {
        let dflt: usize = if default_capacity == 0 { 1 } else { default_capacity };
        let mut parts = Partitions { open: Vec::new(), default_capacity: dflt };
        let mut k: usize = 0;
        while k < streams.len()
            invariant
                k <= streams@.len(),
                parts.wf(),
                parts.default_capacity == effective_capacity(default_capacity),
                forall|i: int| 0 <= i < parts.open@.len() ==> (#[trigger] parts.open@[i]).buffer@.len() == 0,
                forall|i: int| 0 <= i < parts.open@.len() ==> exists|j: int| 0 <= j < k && (#[trigger] streams@[j]).0@ == (#[trigger] parts.open@[i]).stream@,
                forall|j: int|
                    0 <= j < k ==> parts.has_slot((#[trigger] streams@[j]).0@),
                forall|i: int|
                    0 <= i < k && (forall|j: int| 0 <= j < i ==> streams@[j].0@ != streams@[i].0@)
                        ==> parts.capacity_of(#[trigger] streams@[i].0@) == effective_capacity(streams@[i].1),
            decreases streams@.len() - k,
        {
            let name = &streams[k].0;
            let size = streams[k].1;
            match parts.find(name) {
                Some(_) => {},
                None => {
                    let cap: usize = if size == 0 { 1 } else { size };
                    parts.open_slot(name.clone(), cap);
                },
            }
            k = k + 1;
        }
        proof {
            assert forall|s: Seq<char>| #[trigger] parts.pending(s) == Seq::<Payload>::empty() by {
                if parts.has_slot(s) {
                    let i = parts.slot(s);
                    assert(parts.open@[i].buffer@.len() == 0);
                }
            }
            assert forall|s: Seq<char>|
                (forall|i: int| 0 <= i < streams@.len() ==> streams@[i].0@ != s)
                    implies parts.capacity_of(s) == effective_capacity(default_capacity) by {
                if parts.has_slot(s) {
                    let i = parts.slot(s);
                    let j = choose|j: int| 0 <= j < k && (#[trigger] streams@[j]).0@ == parts.open@[i].stream@;
                }
            }
        }
        parts
    }

    /// Routes one point into the open batch of its stream, opening one if the
    /// stream has none. When that fills the batch to its capacity, the sealed
    /// batch comes back and the stream starts a fresh one; other streams are
    /// untouched.
    pub fn fill(&mut self, point: Payload) -> (r: Option<Buffer>)
        requires
            old(self).wf(),
        ensures
            final(self).wf(),
            final(self).default_capacity == old(self).default_capacity,
            ({
                let s = point.stream@;
                let cap = old(self).capacity_of(s);
                let outcome = fill_outcome(old(self).pending(s), cap, point);
                &&& final(self).pending(s) == outcome.0
                &&& final(self).capacity_of(s) == cap
                &&& match r {
                    Some(b) => outcome.1 == Some(b.buffer@) && b.stream@ == s && b.capacity == cap,
                    None => outcome.1 is None,
                }
            }),
            forall|t: Seq<char>| t != point.stream@ ==> final(self).pending(t) == old(self).pending(t)
                && final(self).capacity_of(t) == old(self).capacity_of(t),
    {
        let ghost s = point.stream@;
        let ghost old_self = *self;
        let idx: usize = match self.find(&point.stream) {
            Some(i) => i,
            None => {
                let d = self.default_capacity;
                self.open_slot(point.stream.clone(), d);
                self.open.len() - 1
            },
        };
        let ghost mid = *self;
        let mut current = Buffer::new(String::new(), 1, 0);
        self.open.set_and_swap(idx, &mut current);
        current.buffer.push(point);
        assert(current.buffer@ == mid.pending(s).push(point)) by {
            mid.lemma_slot(idx as int);
        }
        assert(current.capacity as nat == mid.capacity_of(s)) by {
            mid.lemma_slot(idx as int);
        }
        let result = if current.buffer.len() >= current.capacity {
            let next_seq = current.sequence.wrapping_add(1);
            let mut fresh = Buffer::new(current.stream.clone(), current.capacity, next_seq);
            self.open.set(idx, fresh);
            Some(current)
        } else {
            self.open.set_and_swap(idx, &mut current);
            None
        };
        proof {
            assert forall|i: int, j: int| 0 <= i < j < self.open@.len() implies
                (#[trigger] self.open@[i]).stream@ != (#[trigger] self.open@[j]).stream@ by {
                assert(self.open@[i].stream@ == mid.open@[i].stream@);
                assert(self.open@[j].stream@ == mid.open@[j].stream@);
            }
            assert forall|t: Seq<char>| mid.has_slot(t) implies self.has_slot(t) && self.slot(t) == mid.slot(t) by {
                let i = mid.slot(t);
                assert(self.open@[i].stream@ == mid.open@[i].stream@);
                self.lemma_slot(i);
            }
            assert forall|t: Seq<char>| !mid.has_slot(t) implies !self.has_slot(t) by {
                if self.has_slot(t) {
                    let i = self.slot(t);
                    assert(self.open@[i].stream@ == mid.open@[i].stream@);
                }
            }
            self.lemma_slot(idx as int);
            mid.lemma_slot(idx as int);
            assert(mid.wf());
            assert(mid.open@[idx as int].stream@ == s);
            assert(mid.slot(s) == idx);
            assert(mid.pending(s) == old_self.pending(s));
            assert(mid.capacity_of(s) == old_self.capacity_of(s));
            assert(self.slot(s) == idx);
            assert(self.capacity_of(s) == old_self.capacity_of(s));
            let outcome = fill_outcome(old_self.pending(s), old_self.capacity_of(s), point);
            if result is Some {
                assert(self.pending(s) =~= Seq::<Payload>::empty());
                assert(self.pending(s) == outcome.0);
                assert(outcome.1 == Some(result->0.buffer@));
            } else {
                assert(self.pending(s) == outcome.0);
                assert(outcome.1 is None);
            }
        }
        result
    }
}

} // verus!
