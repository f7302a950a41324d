//! The entity model and the registry that polling keeps up to date.

pub mod sampleobject;
pub mod registry;
