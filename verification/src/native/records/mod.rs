//! Fixed-layout records that arrive embedded in tagged values.

pub mod version;

pub use version::Version;
