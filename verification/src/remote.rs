//! The remote executor's decision logic.  The remote store is reached
//! over HTTP; the round trips themselves are the caller's concern.
//! The caller reports each round trip's outcome as a plain value, and
//! the functions here decide — under the same validate-all-then-
//! mutate-all discipline as the local executor — what to ask next and
//! how every possible outcome maps into the error taxonomy.
//!
//! A batch runs as a session: first one existence probe per name, in
//! request order, stopping at the first violation; only when every
//! name passed does the session request the mutating calls, again one
//! per name in order.  A failure during mutation stops the session at
//! once; earlier mutations stay committed and are not rolled back.

use vstd::prelude::*;

use crate::batch::batch_input_error;
use crate::batch::validate_task_names;
use crate::batch::OpKind;
use crate::errors::CommandError;
use crate::errors::CommandErrorView;
use crate::errors::DatabaseError;
use crate::requests::CloudCommand;
use crate::task::CloudConfig;
use crate::task::Task;
use crate::task::DEFAULT_PORT;

verus! {

/// What one existence probe came back with: the task's position, a
/// not-found answer, any other non-success status, or no answer at
/// all.
#[derive(Clone, Copy, Debug)]
pub enum ProbeOutcome {
    Found(usize),
    Missing,
    HttpFailure(u16),
    Unreachable,
}

/// What one mutating call came back with.
#[derive(Clone, Copy, Debug)]
pub enum CallOutcome {
    Accepted,
    Rejected(u16),
    Unreachable,
}

/// What the one fetch of a list request came back with.
#[derive(Debug)]
pub enum ListOutcome {
    Fetched(Vec<Task>),
    Rejected(u16),
    Unreachable,
}

/// Whether a probed task exists: a found position means it does, a
/// not-found answer means it does not, and anything else is an error
/// of its own — an unexpected status or an unreachable server.
pub fn check_exists_cloud(task: &String, outcome: &ProbeOutcome) -> (r: Result<
    bool,
    CommandError,
>)
    ensures
        match *outcome {
            ProbeOutcome::Found(_) => r matches Ok(true),
            ProbeOutcome::Missing => r matches Ok(false),
            ProbeOutcome::HttpFailure(status_code) => r matches Err(e) && e@
                == (CommandErrorView::HTTPError { name: task@, status_code }),
            ProbeOutcome::Unreachable => r matches Err(e) && e@
                == (CommandErrorView::ConnectionError { name: task@ }),
        },
{
    match outcome {
        ProbeOutcome::Found(_) => Ok(true),
        ProbeOutcome::Missing => Ok(false),
        ProbeOutcome::HttpFailure(status_code) => Err(
            CommandError::HTTPError { name: task.clone(), status_code: *status_code },
        ),
        ProbeOutcome::Unreachable => Err(CommandError::ConnectionError { name: task.clone() }),
    }
}

/// What a probe outcome means for one name during validation: an add
/// rejects a present name, the other operations a missing one, and a
/// failed probe is an error whatever the operation.
pub open spec fn probe_decision(kind: OpKind, name: Seq<char>, outcome: ProbeOutcome) -> Option<
    CommandErrorView,
> {
    match outcome {
        ProbeOutcome::Found(_) => if kind is Add {
            Some(CommandErrorView::TaskExists { name })
        } else {
            None
        },
        ProbeOutcome::Missing => if kind is Add {
            None
        } else {
            Some(CommandErrorView::TaskNotFound { name })
        },
        ProbeOutcome::HttpFailure(status_code) => Some(
            CommandErrorView::HTTPError { name, status_code },
        ),
        ProbeOutcome::Unreachable => Some(CommandErrorView::ConnectionError { name }),
    }
}

/// What a mutating call's outcome means for one name.  A done or
/// undone call resolves the name again on the server immediately
/// before mutating, so a not-found status there is reported as the
/// task not being found, not as a bare HTTP error.
pub open spec fn call_decision(kind: OpKind, name: Seq<char>, outcome: CallOutcome) -> Option<
    CommandErrorView,
> {
    match outcome {
        CallOutcome::Accepted => None,
        CallOutcome::Rejected(status_code) => match kind {
            OpKind::MarkDone | OpKind::MarkUndone => if status_code == 404 {
                Some(CommandErrorView::TaskNotFound { name })
            } else {
                Some(CommandErrorView::HTTPError { name, status_code })
            },
            _ => Some(CommandErrorView::HTTPError { name, status_code }),
        },
        CallOutcome::Unreachable => Some(CommandErrorView::ConnectionError { name }),
    }
}

/// One batch request in flight against the remote store.
///
/// The session hands out, one at a time, the name to probe or the
/// name to mutate; the caller performs the round trip and reports the
/// outcome.  No mutation is requested before every name has passed
/// its existence probe.
#[derive(Debug)]
pub struct RemoteBatch {
    kind: OpKind,
    names: Vec<String>,
    next: usize,
    applying: bool,
    finished: bool,
}

impl RemoteBatch {
    /// The operation the batch performs.
    pub closed spec fn kind_spec(&self) -> OpKind {
        self.kind
    }

    /// The batch's task names.
    pub closed spec fn names_spec(&self) -> Seq<Seq<char>> {
        self.names.deep_view()
    }

    /// The position of the name the current phase works on next.
    pub closed spec fn pos(&self) -> int {
        self.next as int
    }

    /// Whether the session is still probing existence.
    pub closed spec fn in_validation(&self) -> bool {
        !self.finished && !self.applying
    }

    /// Whether the session is issuing the mutating calls.
    pub closed spec fn in_mutation(&self) -> bool {
        !self.finished && self.applying
    }

    /// Whether the session is over, by completion or by failure.
    pub closed spec fn is_done(&self) -> bool {
        self.finished
    }

    /// A session only ever holds a non-empty, duplicate-free name
    /// list and a position inside it.
    pub closed spec fn wf(&self) -> bool {
        &&& self.names.deep_view().len() > 0
        &&& batch_input_error(self.names.deep_view()) is None
        &&& (self.finished || self.next < self.names.deep_view().len())
    }

    /// Opens a session after checking what the name list alone can
    /// rule out: an empty batch or a duplicated name never reaches
    /// the network.
    pub fn begin(kind: OpKind, names: Vec<String>) -> (r: Result<RemoteBatch, CommandError>)
        ensures
            match r {
                Ok(batch) => batch_input_error(names.deep_view()) is None && batch.wf()
                    && batch.kind_spec() == kind && batch.names_spec() == names.deep_view()
                    && batch.in_validation() && batch.pos() == 0,
                Err(e) => batch_input_error(names.deep_view()) == Some(e@),
            },
    {
        match validate_task_names(&names) {
            Err(e) => Err(e),
            Ok(()) => Ok(RemoteBatch { kind, names, next: 0, applying: false, finished: false }),
        }
    }

    /// The operation the batch performs.
    pub fn kind(&self) -> (r: OpKind)
        ensures
            r == self.kind_spec(),
    {
        self.kind
    }

    /// The name whose existence must be probed next, while the
    /// session is validating.
    pub fn pending_probe(&self) -> (r: Option<&String>)
        requires
            self.wf(),
        ensures
            match r {
                Some(name) => self.in_validation() && name@ == self.names_spec()[self.pos()],
                None => !self.in_validation(),
            },
    {
        if !self.finished && !self.applying {
            Some(&self.names[self.next])
        } else {
            None
        }
    }

    /// Takes the outcome of the pending probe.  A violation or a
    /// failed probe ends the session with the error; otherwise the
    /// session advances, entering the mutation phase once every name
    /// has passed.
    pub fn record_probe(&mut self, outcome: &ProbeOutcome) -> (r: Result<(), CommandError>)
        requires
            old(self).wf(),
            old(self).in_validation(),
        ensures
            final(self).wf(),
            final(self).kind_spec() == old(self).kind_spec(),
            final(self).names_spec() == old(self).names_spec(),
            match probe_decision(
                old(self).kind_spec(),
                old(self).names_spec()[old(self).pos()],
                *outcome,
            ) {
                Some(e) => (r matches Err(err) && err@ == e) && final(self).is_done(),
                None => r is Ok && (if old(self).pos() + 1 < old(self).names_spec().len() {
                    final(self).in_validation() && final(self).pos() == old(self).pos() + 1
                } else {
                    final(self).in_mutation() && final(self).pos() == 0
                }),
            },
    {
        let decision: Option<CommandError> = {
            let name = &self.names[self.next];
            match check_exists_cloud(name, outcome) {
                Ok(true) => match self.kind {
                    OpKind::Add => Some(CommandError::TaskExists { name: name.clone() }),
                    _ => None,
                },
                Ok(false) => match self.kind {
                    OpKind::Add => None,
                    _ => Some(CommandError::TaskNotFound { name: name.clone() }),
                },
                Err(e) => Some(e),
            }
        };
        match decision {
            Some(e) => {
                self.finished = true;
                Err(e)
            },
            None => {
                let len = self.names.len();
                proof {
                    assert(self.names.deep_view().len() == self.names@.len());
                    assert(self.next < len);
                }
                if self.next + 1 < len {
                    self.next = self.next + 1;
                } else {
                    self.applying = true;
                    self.next = 0;
                }
                Ok(())
            },
        }
    }

    /// The name whose mutating call must be issued next, once the
    /// whole batch has passed validation.
    pub fn pending_call(&self) -> (r: Option<&String>)
        requires
            self.wf(),
        ensures
            match r {
                Some(name) => self.in_mutation() && name@ == self.names_spec()[self.pos()],
                None => !self.in_mutation(),
            },
    {
        if !self.finished && self.applying {
            Some(&self.names[self.next])
        } else {
            None
        }
    }

    /// Takes the outcome of the pending mutating call.  A failure
    /// ends the session with the error — what was already mutated
    /// stays mutated; success advances to the next name, ending the
    /// session after the last one.
    pub fn record_call(&mut self, outcome: &CallOutcome) -> (r: Result<(), CommandError>)
        requires
            old(self).wf(),
            old(self).in_mutation(),
        ensures
            final(self).wf(),
            final(self).kind_spec() == old(self).kind_spec(),
            final(self).names_spec() == old(self).names_spec(),
            match call_decision(
                old(self).kind_spec(),
                old(self).names_spec()[old(self).pos()],
                *outcome,
            ) {
                Some(e) => (r matches Err(err) && err@ == e) && final(self).is_done(),
                None => r is Ok && (if old(self).pos() + 1 < old(self).names_spec().len() {
                    final(self).in_mutation() && final(self).pos() == old(self).pos() + 1
                } else {
                    final(self).is_done()
                }),
            },
    {
        let decision: Option<CommandError> = {
            let name = &self.names[self.next];
            match outcome {
                CallOutcome::Accepted => None,
                CallOutcome::Rejected(status_code) => match self.kind {
                    OpKind::MarkDone | OpKind::MarkUndone => {
                        if *status_code == 404 {
                            Some(CommandError::TaskNotFound { name: name.clone() })
                        } else {
                            Some(
                                CommandError::HTTPError {
                                    name: name.clone(),
                                    status_code: *status_code,
                                },
                            )
                        }
                    },
                    _ => Some(
                        CommandError::HTTPError { name: name.clone(), status_code: *status_code },
                    ),
                },
                CallOutcome::Unreachable => Some(
                    CommandError::ConnectionError { name: name.clone() },
                ),
            }
        };
        match decision {
            Some(e) => {
                self.finished = true;
                Err(e)
            },
            None => {
                let len = self.names.len();
                proof {
                    assert(self.names.deep_view().len() == self.names@.len());
                    assert(self.next < len);
                }
                if self.next + 1 < len {
                    self.next = self.next + 1;
                } else {
                    self.finished = true;
                }
                Ok(())
            },
        }
    }
}

/// What a clear request's one remote call produced.  The name carried
/// by a failure is empty: no single task is at fault.
pub fn remote_clear_result(outcome: &CallOutcome) -> (r: Result<(), CommandError>)
    ensures
        match *outcome {
            CallOutcome::Accepted => r is Ok,
            CallOutcome::Rejected(status_code) => r matches Err(e) && e@
                == (CommandErrorView::HTTPError { name: Seq::<char>::empty(), status_code }),
            CallOutcome::Unreachable => r matches Err(e) && e@
                == (CommandErrorView::ConnectionError { name: Seq::<char>::empty() }),
        },
{
    match outcome {
        CallOutcome::Accepted => Ok(()),
        CallOutcome::Rejected(status_code) => Err(
            CommandError::HTTPError { name: String::new(), status_code: *status_code },
        ),
        CallOutcome::Unreachable => Err(CommandError::ConnectionError { name: String::new() }),
    }
}

/// What a list request's one remote fetch produced: the tasks as the
/// server reported them, or a failure carrying an empty name.
pub fn remote_list_result(outcome: ListOutcome) -> (r: Result<Vec<Task>, CommandError>)
    ensures
        match outcome {
            ListOutcome::Fetched(tasks) => r matches Ok(t) && t == tasks,
            ListOutcome::Rejected(status_code) => r matches Err(e) && e@
                == (CommandErrorView::HTTPError { name: Seq::<char>::empty(), status_code }),
            ListOutcome::Unreachable => r matches Err(e) && e@
                == (CommandErrorView::ConnectionError { name: Seq::<char>::empty() }),
        },
{
    match outcome {
        ListOutcome::Fetched(tasks) => Ok(tasks),
        ListOutcome::Rejected(status_code) => Err(
            CommandError::HTTPError { name: String::new(), status_code },
        ),
        ListOutcome::Unreachable => Err(CommandError::ConnectionError { name: String::new() }),
    }
}

/// The configuration a connect request saves: the given host, and the
/// given port or the default one.
pub fn connect_config(command: &CloudCommand) -> (r: CloudConfig)
    ensures
        r@.host == command.host@,
        match command.port {
            Some(p) => r@.port == p@,
            None => r@.port == DEFAULT_PORT@,
        },
{
    match &command.port {
        None => {
            let port = String::from_str(DEFAULT_PORT);
            CloudConfig::new(&command.host, &port)
        },
        Some(port) => CloudConfig::new(&command.host, port),
    }
}

/// What a connect request reports, given whether saving the
/// configuration succeeded.
pub fn handle_connect(saved: Result<(), DatabaseError>) -> (r: Result<(), CommandError>)
    ensures
        match saved {
            Ok(()) => r is Ok,
            Err(e) => r matches Err(err) && err@ == (CommandErrorView::DataError {
                what: "server configuration"@,
                err: e@,
            }),
        },
{
    match saved {
        Ok(()) => Ok(()),
        Err(err) => Err(
            CommandError::DataError { what: String::from_str("server configuration"), err },
        ),
    }
}

/// How removing the saved connection configuration went: it was
/// removed, there was none to remove, or the removal itself failed.
#[derive(Debug)]
pub enum ConfigRemoval {
    Removed,
    NoConfig,
    Failed(DatabaseError),
}

/// What a disconnect request reports.  Disconnecting with no saved
/// configuration is an error of its own — nothing to undo is not a
/// silent success.
pub fn handle_disconnect(outcome: ConfigRemoval) -> (r: Result<(), CommandError>)
    ensures
        match outcome {
            ConfigRemoval::Removed => r is Ok,
            ConfigRemoval::NoConfig => r matches Err(e) && e@ == CommandErrorView::UnlinkedError,
            ConfigRemoval::Failed(db) => r matches Err(e) && e@ == (CommandErrorView::DataError {
                what: "configuration"@,
                err: db@,
            }),
        },
{
    match outcome {
        ConfigRemoval::Removed => Ok(()),
        ConfigRemoval::NoConfig => Err(CommandError::UnlinkedError),
        ConfigRemoval::Failed(err) => Err(
            CommandError::DataError { what: String::from_str("configuration"), err },
        ),
    }
}

} // verus!
