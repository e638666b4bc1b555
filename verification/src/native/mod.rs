//! The invocation layer: object handles, tagged values and the requests that
//! are handed to the foreign call convention.

pub mod class_id;
pub mod convert;
pub mod dispatch;
pub mod protocol;
pub mod records;
pub mod runtime;
pub mod variant;

pub use class_id::ClassID;
pub use dispatch::Dispatch;
pub use variant::Variant;
