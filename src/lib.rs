//! A cursor over an immutable byte buffer for hand-written parsers: it tracks a read
//! position, offers forward-only advancement and lookahead, and tags parse failures
//! with the byte offset at which they happened.
use vstd::prelude::*;

pub mod error;
pub mod helper;
pub mod laws;

pub use error::{Eoi, Error};
pub use helper::ParserHelper;

verus! {

} // verus!
