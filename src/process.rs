use vstd::prelude::*;

use crate::action::ActionResponse;

verus! {

/// Why an action could not be started.
pub enum Error {
    /// The previous action's process is still running.
    Busy,
    /// The spawned process offered no standard output to capture.
    NoStdout,
}

/// How to start the process of an action.
pub struct Spawn {
    pub program: String,
    pub args: Vec<String>,
}

/// The executor of actions: at most one child process at a time.
pub struct Process {
    pub last_process_done: bool,
}

/// Directory that holds the executables of actions.
pub open spec fn tools_dir() -> Seq<char> {
    seq!['t', 'o', 'o', 'l', 's', '/']
}

impl Process {
    pub fn new() -> (r: Process)
        ensures
            r.last_process_done,
    {
        Process { last_process_done: true }
    }

    /// Starts action `id`: refused with `Busy` while a previous process runs;
    /// otherwise the executor is busy from now on and the process to spawn is
    /// `tools/<command>` with the id and the payload as its arguments.
    pub fn execute(&mut self, id: &str, command: &str, payload: &str) -> (r: Result<Spawn, Error>)
        ensures
            !old(self).last_process_done ==> (r matches Err(Error::Busy) && final(self).last_process_done == old(self).last_process_done),
            old(self).last_process_done ==> (r matches Ok(s) && !final(self).last_process_done
                && s.program@ == tools_dir() + command@
                && s.args@.len() == 2 && s.args@[0]@ == id@ && s.args@[1]@ == payload@),
    {
        if !self.last_process_done {
            return Err(Error::Busy);
        }
        self.last_process_done = false;
        let program = String::from_str("tools/").concat(command);
        proof {
            reveal_strlit("tools/");
        }
        let mut args: Vec<String> = Vec::new();
        args.push(String::from_str(id));
        args.push(String::from_str(payload));
        Ok(Spawn { program, args })
    }

    /// The process could not be spawned: the executor is free again.
    pub fn spawn_failed(&mut self)
        ensures
            final(self).last_process_done,
    {
        self.last_process_done = true;
    }

    /// The capture of the child's output ended (exit or time-out): the
    /// executor is free again.
    pub fn capture_done(&mut self)
        ensures
            final(self).last_process_done,
    {
        self.last_process_done = true;
    }
}

/// The status for one line of the child's output: the parsed response, or,
/// for a line that does not parse, a failure of action `id` carrying the
/// parser's message.
pub fn status_of_line(id: &str, parsed: Result<ActionResponse, String>) -> (r: ActionResponse)
    ensures
        parsed is Ok ==> r == parsed->Ok_0,
        parsed matches Err(msg) ==> r.id@ == id@ && r.state@ == "Failed"@ && r.errors@.len() == 1 && r.errors@[0] == msg,
{
    match parsed {
        Ok(resp) => resp,
        Err(msg) => ActionResponse::failure(id, msg),
    }
}

} // verus!
