//! Configuration: schema, defaults, validation and environment overrides.

pub mod changes;
pub mod env;
pub mod paths;
pub mod schema;
pub mod validation;
