//! The session layer: application, project, transaction and entities.

pub mod application;
pub mod entity;
pub mod entity_types;
pub mod project;
pub mod uuid;

pub use application::Application;
pub use entity::{Entity, EntityCollection};
pub use entity_types::{Category, EntityTypes};
pub use project::{Project, ProjectTransaction};
pub use uuid::UUID;
