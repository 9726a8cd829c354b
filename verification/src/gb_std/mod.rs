//! Building blocks above the raw assembly builder.

pub mod flow;
pub mod graphics;
pub mod inputs;
pub mod utility;
pub mod variables;
