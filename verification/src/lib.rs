//! An in-memory intermediate representation for a small compiler backend:
//! a structural type model, the value graph (functions, basic blocks and
//! instructions), a builder that appends well-typed instructions at an
//! insertion point, and the textual rendering of finished modules.

pub mod emit;
pub mod error;
pub mod ir;
pub mod targets;
pub mod text;
pub mod utils;
