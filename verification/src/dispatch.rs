//! The command dispatcher: routes one request to the local executor,
//! or plans the remote session the caller must drive, identically for
//! either backend.  The backend is chosen once per invocation, from
//! the presence of a saved connection configuration, and never
//! changes mid-run.

use vstd::prelude::*;

use crate::batch::batch_input_error;
use crate::batch::clear_result;
use crate::batch::local_add_result;
use crate::batch::local_mark_result;
use crate::batch::local_remove_result;
use crate::batch::OpKind;
use crate::errors::CommandError;
use crate::errors::DatabaseError;
use crate::local::handle_add;
use crate::local::handle_clear;
use crate::local::handle_clear_done;
use crate::local::handle_done_undone;
use crate::local::handle_remove;
use crate::remote::connect_config;
use crate::remote::RemoteBatch;
use crate::requests::Command;
use crate::store::SaveData;
use crate::task::CloudConfig;
use crate::task::DEFAULT_PORT;
use vstd::pervasive::unreached;

verus! {

/// Chooses the backend for this invocation: a loaded configuration
/// selects the remote backend; none, or a configuration that could
/// not be read, selects the local one.
pub fn process_cloud_config(loaded: Result<Option<CloudConfig>, DatabaseError>) -> (r: Option<
    CloudConfig,
>)
    ensures
        match loaded {
            Ok(config) => r == config,
            Err(_) => r is None,
        },
{
    match loaded {
        Ok(config) => config,
        Err(_) => None,
    }
}

/// Whether the dispatcher owes the caller a follow-up list after this
/// request: every request but a list itself gets one, so the caller
/// can render the resulting state.  A failure during that follow-up
/// is reported but does not retroactively fail the request it
/// followed.
pub fn needs_followup_list(command: &Command) -> (r: bool)
    ensures
        r == !(command matches Command::List),
{
    match command {
        Command::List => false,
        _ => true,
    }
}

/// Executes one operation request against the local store: the six
/// operation variants map one to one onto the local executor, with
/// the bare clear-done request kept as an alias of clearing with the
/// done-only flag.  The administrative connect and disconnect
/// requests are not operations and are not taken here.
pub fn execute_local(command: &Command, data: &mut SaveData) -> (r: Result<(), CommandError>)
    requires
        command.is_operation(),
    ensures
        match *command {
            Command::Add(ref c) => (match local_add_result(old(data)@, c.tasks.deep_view()) {
                Ok(after) => r is Ok && final(data)@ == after,
                Err(e) => (r matches Err(err) && err@ == e) && final(data)@ == old(data)@,
            }),
            Command::Remove(ref c) => (match local_remove_result(
                old(data)@,
                c.tasks.deep_view(),
            ) {
                Ok(after) => r is Ok && final(data)@ == after,
                Err(e) => (r matches Err(err) && err@ == e) && final(data)@ == old(data)@,
            }),
            Command::Done(ref c) => (match local_mark_result(
                old(data)@,
                c.tasks.deep_view(),
                true,
            ) {
                Ok(after) => r is Ok && final(data)@ == after,
                Err(e) => (r matches Err(err) && err@ == e) && final(data)@ == old(data)@,
            }),
            Command::Undone(ref c) => (match local_mark_result(
                old(data)@,
                c.tasks.deep_view(),
                false,
            ) {
                Ok(after) => r is Ok && final(data)@ == after,
                Err(e) => (r matches Err(err) && err@ == e) && final(data)@ == old(data)@,
            }),
            Command::Clear(ref c) => r is Ok && final(data)@ == clear_result(old(data)@, c.done),
            Command::ClearDone => r is Ok && final(data)@ == clear_result(old(data)@, true),
            Command::List => r is Ok && final(data)@ == old(data)@,
            Command::Connect(_) => false,
            Command::Disconnect => false,
        },
{
    proof {
        crate::store::lemma_store_view(data);
    }
    let r = match command {
        Command::Add(c) => handle_add(c, &mut data.tasks),
        Command::Remove(c) => handle_remove(c, &mut data.tasks),
        Command::Done(c) => handle_done_undone(c, &mut data.tasks, true),
        Command::Undone(c) => handle_done_undone(c, &mut data.tasks, false),
        Command::Clear(c) => handle_clear(c, &mut data.tasks),
        Command::ClearDone => handle_clear_done(&mut data.tasks),
        Command::List => Ok(()),
        Command::Connect(_) => unreached(),
        Command::Disconnect => unreached(),
    };
    proof {
        crate::store::lemma_store_view(data);
    }
    r
}

/// What the caller must do to execute one request against the remote
/// backend.
#[derive(Debug)]
pub enum RemotePlan {
    /// Drive this batch session: probe, then mutate, one round trip
    /// at a time.
    Batch(RemoteBatch),
    /// The request never reaches the network: its name list alone was
    /// invalid.
    Invalid(CommandError),
    /// Issue the one clear round trip, for every task or for the
    /// completed ones only.
    Clear { done_only: bool },
    /// Issue the one list fetch.
    List,
    /// Save this connection configuration.
    Connect(CloudConfig),
    /// Remove the saved connection configuration.
    Disconnect,
}

/// Plans a request for the remote backend: batch requests open a
/// validated session, the bare clear-done request is kept as an alias
/// of the done-only clear, and a connect request fills in the default
/// port when none was given.
pub fn remote_plan(command: Command) -> (r: RemotePlan)
    ensures
        match command {
            Command::Add(c) => (match batch_input_error(c.tasks.deep_view()) {
                None => r matches RemotePlan::Batch(b) && b.wf() && b.kind_spec() == OpKind::Add
                    && b.names_spec() == c.tasks.deep_view() && b.in_validation() && b.pos() == 0,
                Some(e) => r matches RemotePlan::Invalid(err) && err@ == e,
            }),
            Command::Remove(c) => (match batch_input_error(c.tasks.deep_view()) {
                None => r matches RemotePlan::Batch(b) && b.wf() && b.kind_spec()
                    == OpKind::Remove && b.names_spec() == c.tasks.deep_view()
                    && b.in_validation() && b.pos() == 0,
                Some(e) => r matches RemotePlan::Invalid(err) && err@ == e,
            }),
            Command::Done(c) => (match batch_input_error(c.tasks.deep_view()) {
                None => r matches RemotePlan::Batch(b) && b.wf() && b.kind_spec()
                    == OpKind::MarkDone && b.names_spec() == c.tasks.deep_view()
                    && b.in_validation() && b.pos() == 0,
                Some(e) => r matches RemotePlan::Invalid(err) && err@ == e,
            }),
            Command::Undone(c) => (match batch_input_error(c.tasks.deep_view()) {
                None => r matches RemotePlan::Batch(b) && b.wf() && b.kind_spec()
                    == OpKind::MarkUndone && b.names_spec() == c.tasks.deep_view()
                    && b.in_validation() && b.pos() == 0,
                Some(e) => r matches RemotePlan::Invalid(err) && err@ == e,
            }),
            Command::Clear(c) => r matches RemotePlan::Clear { done_only } && done_only == c.done,
            Command::ClearDone => r matches RemotePlan::Clear { done_only: true },
            Command::List => r matches RemotePlan::List,
            Command::Connect(c) => r matches RemotePlan::Connect(cfg) && cfg@.host == c.host@ && (
            match c.port {
                Some(p) => cfg@.port == p@,
                None => cfg@.port == DEFAULT_PORT@,
            }),
            Command::Disconnect => r matches RemotePlan::Disconnect,
        },
{
    match command {
        Command::Add(c) => match RemoteBatch::begin(OpKind::Add, c.tasks) {
            Ok(b) => RemotePlan::Batch(b),
            Err(e) => RemotePlan::Invalid(e),
        },
        Command::Remove(c) => match RemoteBatch::begin(OpKind::Remove, c.tasks) {
            Ok(b) => RemotePlan::Batch(b),
            Err(e) => RemotePlan::Invalid(e),
        },
        Command::Done(c) => match RemoteBatch::begin(OpKind::MarkDone, c.tasks) {
            Ok(b) => RemotePlan::Batch(b),
            Err(e) => RemotePlan::Invalid(e),
        },
        Command::Undone(c) => match RemoteBatch::begin(OpKind::MarkUndone, c.tasks) {
            Ok(b) => RemotePlan::Batch(b),
            Err(e) => RemotePlan::Invalid(e),
        },
        Command::Clear(c) => RemotePlan::Clear { done_only: c.done },
        Command::ClearDone => RemotePlan::Clear { done_only: true },
        Command::List => RemotePlan::List,
        Command::Connect(c) => RemotePlan::Connect(connect_config(&c)),
        Command::Disconnect => RemotePlan::Disconnect,
    }
}

} // verus!
