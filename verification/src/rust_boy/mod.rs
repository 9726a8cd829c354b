//! The high-level interface: tiles, variables, sprites, inputs and the
//! program that is built from them.

pub mod animations;
pub mod functions;
pub mod inputs;
pub mod memory;
pub mod rustboy;
pub mod sprites;
pub mod tiles;
pub mod variables;

pub use animations::{Animation, AnimationType};
pub use functions::{BuiltinFunction, FunctionRegistry};
pub use inputs::InputManager;
pub use memory::{MemoryAllocator, MemoryRegion};
pub use rustboy::{BuildError, RustBoy};
pub use sprites::{SpriteData, SpriteId, SpriteManager};
pub use tiles::{TileId, TileManager, TileSource};
pub use variables::{Var, VarId, VarType, VariableManager};
