use vstd::prelude::*;

use crate::action::{Action, ActionResponse};
use crate::batch::{Buffer, Partitions, Payload};

verus! {

/// The framing side of the bridge to local producers: which streams it
/// batches, and the action that awaits a response, if any.
pub struct Bridge {
    pub streams: Vec<(String, usize)>,
    pub default_buf_size: usize,
    pub current_action: Option<String>,
}

/// A copy of a stream configuration list.
fn copy_streams(streams: &Vec<(String, usize)>) -> (r: Vec<(String, usize)>)
    ensures
        r@.len() == streams@.len(),
        forall|i: int| 0 <= i < r@.len() ==> (#[trigger] r@[i]).0@ == streams@[i].0@ && r@[i].1 == streams@[i].1,
{
    let mut r: Vec<(String, usize)> = Vec::new();
    let mut i: usize = 0;
    while i < streams.len()
        invariant
            i <= streams@.len(),
            r@.len() == i,
            forall|j: int| 0 <= j < i ==> (#[trigger] r@[j]).0@ == streams@[j].0@ && r@[j].1 == streams@[j].1,
        decreases streams@.len() - i,
    {
        r.push((streams[i].0.clone(), streams[i].1));
        i = i + 1;
    }
    r
}

impl Bridge {
    pub fn new(streams: Vec<(String, usize)>, default_buf_size: usize) -> (r: Bridge)
        ensures
            r.streams == streams,
            r.default_buf_size == default_buf_size,
            r.current_action is None,
    {
        Bridge { streams, default_buf_size, current_action: None }
    }

    /// Fresh partitions for a newly accepted producer connection: one open
    /// batch per configured stream, all empty.
    pub fn connect(&self) -> (r: Partitions)
        ensures
            r.wf(),
            forall|s: Seq<char>| #[trigger] r.pending(s) == Seq::<Payload>::empty(),
            forall|i: int|
                0 <= i < self.streams@.len() && (forall|j: int| 0 <= j < i ==> self.streams@[j].0@ != self.streams@[i].0@)
                    ==> r.capacity_of(#[trigger] self.streams@[i].0@) == crate::batch::effective_capacity(self.streams@[i].1),
    {
        let streams = copy_streams(&self.streams);
        let r = Partitions::new(streams, self.default_buf_size);
        proof {
            assert forall|i: int|
                0 <= i < self.streams@.len() && (forall|j: int| 0 <= j < i ==> self.streams@[j].0@ != self.streams@[i].0@)
                    implies r.capacity_of(#[trigger] self.streams@[i].0@) == crate::batch::effective_capacity(self.streams@[i].1) by {
                assert(streams@[i].0@ == self.streams@[i].0@);
                assert forall|j: int| 0 <= j < i implies streams@[j].0@ != streams@[i].0@ by {
                    assert(self.streams@[j].0@ != self.streams@[i].0@);
                }
            }
        }
        r
    }

    /// An action forwarded to the connected producer now awaits its response.
    pub fn action_sent(&mut self, action: &Action)
        ensures
            final(self).streams == old(self).streams,
            final(self).default_buf_size == old(self).default_buf_size,
            final(self).current_action matches Some(id) && id@ == action.id@,
    {
        self.current_action = Some(action.id.clone());
    }

    /// A line from the producer: it answers the pending action, if any, and
    /// its point is routed to the open batch of its stream. A batch that this
    /// fills comes back sealed.
    pub fn line_received(&mut self, partitions: &mut Partitions, point: Payload) -> (r: Option<Buffer>)
        requires
            old(partitions).wf(),
        ensures
            final(self).streams == old(self).streams,
            final(self).default_buf_size == old(self).default_buf_size,
            final(self).current_action is None,
            final(partitions).wf(),
            ({
                let s = point.stream@;
                let cap = old(partitions).capacity_of(s);
                let outcome = crate::batch::fill_outcome(old(partitions).pending(s), cap, point);
                &&& final(partitions).pending(s) == outcome.0
                &&& match r {
                    Some(b) => outcome.1 == Some(b.buffer@) && b.stream@ == s && b.capacity == cap,
                    None => outcome.1 is None,
                }
            }),
            forall|t: Seq<char>| t != point.stream@ ==> final(partitions).pending(t) == old(partitions).pending(t),
            forall|t: Seq<char>| #[trigger] final(partitions).capacity_of(t) == old(partitions).capacity_of(t),
            final(partitions).default_capacity == old(partitions).default_capacity,
    {
        self.current_action = None;
        partitions.fill(point)
    }

    /// The response timer ran out: the pending action, if any, fails with
    /// `Action timed out` and is no longer pending.
    pub fn action_timed_out(&mut self) -> (r: Option<ActionResponse>)
        ensures
            final(self).streams == old(self).streams,
            final(self).default_buf_size == old(self).default_buf_size,
            final(self).current_action is None,
            match old(self).current_action {
                Some(id) => (r matches Some(resp) && resp.id@ == id@ && resp.state@ == "Failed"@
                    && resp.errors@.len() == 1 && resp.errors@[0]@ == "Action timed out"@),
                None => r is None,
            },
    {
        match self.current_action.take() {
            Some(id) => {
                let resp = ActionResponse::failure(id.as_str(), String::from_str("Action timed out"));
                Some(resp)
            },
            None => None,
        }
    }
}

/// The response to an action that arrives while no producer is connected:
/// it fails at once with `Bridge down`.
pub fn bridge_down(action: &Action) -> (r: ActionResponse)
    ensures
        r.id@ == action.id@,
        r.state@ == "Failed"@,
        r.errors@.len() == 1,
        r.errors@[0]@ == "Bridge down"@,
        r.progress is None,
{
    ActionResponse::failure(action.id.as_str(), String::from_str("Bridge down"))
}

} // verus!
