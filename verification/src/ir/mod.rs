//! The intermediate representation and the builder that constructs it.

pub mod builder;
pub mod linkage;
pub mod module;
pub mod values;
