//! A small immediate-mode user interface context: items with sizes,
//! margins and neighbour relations, button and cursor state, and the
//! hot/active tracking that decides which item receives input events.
#![allow(non_snake_case)]
#![allow(non_camel_case_types)]

pub mod types;
pub mod item;
pub mod model;
pub mod context;
pub mod laws;

pub use context::Context;
pub use item::Item;
pub use model::ContextModel;
pub use types::{EventFlags, EventHandler, Handle, ItemState, Rect, Vec2};
