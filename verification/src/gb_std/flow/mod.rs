//! Structured control flow: building blocks that lower to jumps and labels.

pub mod emittable;
pub mod flags;
pub mod flow_if;
pub mod labels;
pub mod operation;
pub mod uniqueness;

pub use emittable::{Call, Emittable, Node, boxed};
pub use flags::{Flags, Landed, Landing};
pub use flow_if::{ComparisonOp, If, IfA, IfCall, IfConst};
pub use operation::{InstrOps, Op};
