//! Late-bound access to the object model of a running Renga application.
//!
//! The crate is written without any I/O of its own. An operation on the
//! foreign object graph is a function from the replies received so far to a
//! [`Step`]: either the next [`Invocation`] to perform, or the finished
//! result. A host drives an operation by performing each invocation that it
//! is handed and appending the reply, until the operation reports that it is
//! done.

pub mod api;
pub mod error;
pub mod meta;
pub mod native;
pub mod text;

pub use api::{
    Application,
    Category,
    Entity,
    EntityCollection,
    EntityTypes,
    Project,
    ProjectTransaction,
    UUID,
};
pub use error::Error;
pub use native::class_id::ClassID;
pub use native::dispatch::{CallKind, Dispatch, Invocation};
pub use native::protocol::{Reply, Step};
pub use native::records::version::Version;
pub use native::runtime::{ComRuntime, RuntimeState};
pub use native::variant::Variant;
