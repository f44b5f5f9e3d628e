//! Command-execution engine of a personal task-list manager.
//!
//! A task list is an ordered collection of named tasks, each with a
//! completion flag.  A batch request names tasks to add, remove or mark;
//! the engine validates the whole batch (empty input, duplicated names,
//! existence in the store) before any mutation, applies the batch in
//! request order, and maps every failure into one closed error taxonomy.
//! The same decision logic drives both backends: the local in-memory
//! store, and a remote service spoken to over HTTP, whose round trips
//! are performed by the (unverified) caller and fed back in as plain
//! outcome values.

pub mod batch;
pub mod dispatch;
pub mod errors;
pub mod laws;
pub mod local;
pub mod remote;
pub mod requests;
pub mod resolver;
pub mod store;
pub mod task;

pub use errors::CommandError;
pub use errors::DatabaseError;
pub use resolver::exactly_matches;
pub use resolver::find_task;
pub use resolver::get_index;
pub use store::SaveData;
pub use task::Task;
pub use task::TaskView;
pub use task::CloudConfig;
pub use task::CloudConfigView;
pub use task::DEFAULT_PORT;
