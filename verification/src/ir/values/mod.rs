//! The entities of the value graph.

pub mod basic_block;
pub mod function;
pub mod instruction;
pub mod value;
