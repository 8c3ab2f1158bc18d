use vstd::prelude::*;

verus! {

/// A command from the cloud for a local executor.
#[derive(Clone)]
pub struct Action {
    pub id: String,
    pub kind: String,
    pub payload: String,
}

/// Progress of an action, reported on the `action_status` stream.
pub struct ActionResponse {
    pub id: String,
    pub state: String,
    pub errors: Vec<String>,
    pub progress: Option<u64>,
}

impl ActionResponse {
    pub fn new(id: &str, state: &str) -> (r: ActionResponse)
        ensures
            r.id@ == id@,
            r.state@ == state@,
            r.errors@.len() == 0,
            r.progress is None,
    {
        ActionResponse { id: String::from_str(id), state: String::from_str(state), errors: Vec::new(), progress: None }
    }

    pub fn add_error(&mut self, error: String)
        ensures
            final(self).id == old(self).id,
            final(self).state == old(self).state,
            final(self).progress == old(self).progress,
            final(self).errors@ == old(self).errors@.push(error),
    {
        self.errors.push(error);
    }

    /// A response in state `Failed` with the one error given.
    pub fn failure(id: &str, error: String) -> (r: ActionResponse)
        ensures
            r.id@ == id@,
            r.state@ == "Failed"@,
            r.errors@.len() == 1,
            r.errors@[0] == error,
            r.progress is None,
    {
        let mut r = ActionResponse::new(id, "Failed");
        r.add_error(error);
        r
    }
}

} // verus!
