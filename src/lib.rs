//! Task lifecycle coordination: creating tasks at most once per user scope,
//! recording their completion through field-scoped updates, and publishing
//! creation events only after the store accepted the write.

pub mod clock;
pub mod error;
pub mod flow;
pub mod laws;
pub mod mask;
pub mod model;
pub mod store;
