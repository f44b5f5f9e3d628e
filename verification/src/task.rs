//! The task data model: a named to-do item with a completion flag, and
//! the saved connection configuration for the remote backend.

use vstd::prelude::*;

verus! {

/// A named to-do item.  The name is the task's identity: there is no
/// surrogate id, and uniqueness is enforced only when an add request
/// executes, never by the storage layer.
#[derive(Debug)]
pub struct Task {
    pub name: String,
    pub done: bool,
}

/// The mathematical value of a [`Task`]: the name as a sequence of
/// characters, and the completion flag.
pub struct TaskView {
    pub name: Seq<char>,
    pub done: bool,
}

impl View for Task {
    type V = TaskView;

    open spec fn view(&self) -> TaskView {
        TaskView { name: self.name@, done: self.done }
    }
}

impl DeepView for Task {
    type V = TaskView;

    open spec fn deep_view(&self) -> TaskView {
        self@
    }
}

impl Clone for Task {
    fn clone(&self) -> (r: Self)
        ensures
            r == *self,
    {
        Task { name: self.name.clone(), done: self.done }
    }
}

/// The port a remote connection uses when none is given.
pub const DEFAULT_PORT: &'static str = "6982";

/// A saved binding to a remote backend: host and port, both kept as
/// strings exactly as the user supplied them.
#[derive(Debug)]
pub struct CloudConfig {
    pub host: String,
    pub port: String,
}

/// The mathematical value of a [`CloudConfig`].
pub struct CloudConfigView {
    pub host: Seq<char>,
    pub port: Seq<char>,
}

impl View for CloudConfig {
    type V = CloudConfigView;

    open spec fn view(&self) -> CloudConfigView {
        CloudConfigView { host: self.host@, port: self.port@ }
    }
}

impl Clone for CloudConfig {
    fn clone(&self) -> (r: Self)
        ensures
            r == *self,
    {
        CloudConfig { host: self.host.clone(), port: self.port.clone() }
    }
}

impl CloudConfig {
    /// Builds a configuration from a host and a port.
    pub fn new(host: &String, port: &String) -> (r: Self)
        ensures
            r@.host == host@,
            r@.port == port@,
    {
        CloudConfig { host: host.clone(), port: port.clone() }
    }
}

} // verus!
