//! The interaction core of a tag-based Wayland compositor: the tag and output
//! model, window state, focus resolution over layered surface stacks, the
//! resize and move grabs, the input router with its binding tables, and the
//! configuration protocol's framing and request/response correlation.

use vstd::prelude::*;

pub mod api;
pub mod client;
pub mod focus;
pub mod frame;
pub mod geometry;
pub mod input;
pub mod msg;
pub mod output;
pub mod pointer;
pub mod resize;
pub mod search;
pub mod socket;
pub mod state;
pub mod tag;
pub mod window;

verus! {

} // verus!
