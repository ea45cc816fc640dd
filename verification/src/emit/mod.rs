//! Emission of finished modules.

pub mod assembly;
