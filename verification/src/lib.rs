//! A schema-driven model-generation engine.
//!
//! A model is described by an ordered list of field descriptors plus up to
//! two companion shapes (one used to construct a fresh entity, one used to
//! rehydrate an entity from persisted data). From that description the
//! library derives read accessors, the companion input shapes, and — for
//! identity models — a deterministic, content-derived identifier together
//! with a consistency check against an externally supplied value.

pub mod application;
pub mod errors;
pub mod getters;
pub mod identity;
pub mod schema;
pub mod shapes;
pub mod user;
