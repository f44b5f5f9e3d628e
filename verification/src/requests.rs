//! The operation requests a caller can issue: batches of task names,
//! clear requests, the administrative connection requests, and the one
//! command enumeration the dispatcher routes on.

use vstd::prelude::*;

verus! {

/// A batch request: the ordered task names an add, remove, done or
/// undone command carries.
#[derive(Debug)]
pub struct TasksCommand {
    pub tasks: Vec<String>,
}

/// A clear request: drop every task, or only the completed ones.
#[derive(Debug)]
pub struct ClearCommand {
    pub done: bool,
}

/// An administrative request to link a remote backend.
#[derive(Debug)]
pub struct CloudCommand {
    pub host: String,
    pub port: Option<String>,
}

/// One request, as the command line hands it to the dispatcher.
#[derive(Debug)]
pub enum Command {
    Add(TasksCommand),
    Remove(TasksCommand),
    Done(TasksCommand),
    Undone(TasksCommand),
    Clear(ClearCommand),
    ClearDone,
    List,
    Connect(CloudCommand),
    Disconnect,
}

impl Command {
    /// Whether this is one of the six operation requests, as opposed
    /// to an administrative connect or disconnect.
    pub open spec fn is_operation(&self) -> bool {
        !(self matches Command::Connect(_)) && !(self matches Command::Disconnect)
    }
}

} // verus!
