//! An adapter core that turns a multi-turn chat request into a single linear
//! generation request, dispatches it to a text-generation engine over a
//! per-request channel, and reassembles the engine's token events into either
//! one aggregated completion or a sequence of incremental chunk events.

use vstd::prelude::*;

pub mod aggregate;
pub mod dispatch;
pub mod option_array;
pub mod request;
pub mod role;
pub mod stream;
pub mod text;
pub mod token;

verus! {

/// Global ceiling on the number of tokens a single completion may generate.
pub const MAX_TOKENS: usize = 4096;

} // verus!
