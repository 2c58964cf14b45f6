//! Nodes whose value is derived from the values of other nodes.

pub mod flat_map;
pub mod join;
pub mod map;
pub mod ops;

pub use flat_map::FlatMap;
pub use join::Join;
pub use map::Mapped;
pub use ops::{And, Difference, Not, Or, Product, Ratio, Sum};
