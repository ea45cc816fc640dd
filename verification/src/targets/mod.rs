//! Target description: the architecture-vendor-OS triple and the data layout
//! derived from it.

pub mod layout;
pub mod triple;

pub use layout::DataLayout;
pub use triple::TargetTriple;
