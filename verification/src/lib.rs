//! A verified primitive batching engine for a tile-based renderer.
//!
//! The library turns an ordered stream of visible drawable primitives into a
//! small sequence of GPU draw batches, each sharing a compatible shader kind,
//! blend mode and texture binding set, while preserving paint order wherever
//! blended primitives overlap.
//!
//! Beside the batcher live two small companions of the surrounding engine:
//! a document-tree model answering the style system's element-traversal
//! queries, and the keyword grammar of its legacy page-break shorthand.

pub mod builder;
pub mod clip;
pub mod container;
pub mod context;
pub mod dom;
pub mod geom;
pub mod gpu;
pub mod key;
pub mod lists;
pub mod prim;
pub mod shorthand;
pub mod texture;

use vstd::prelude::*;

verus! {

} // verus!
