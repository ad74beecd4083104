//! Renderers shared by several kinds of block.

pub mod block;
pub mod list;
pub mod table;
