//! A chess position representation and pseudo-legal move-generation engine.
//!
//! The crate answers "where can this piece move?" for a static snapshot of a
//! game: ray-casting for the sliding pieces, fixed-offset enumeration for
//! knight and king, and conditional forward/capture logic for pawns.  Moves
//! are pseudo-legal: they obey piece geometry and board occupancy but are not
//! filtered for king safety.

use vstd::prelude::*;
use vstd::string::StringExecFns;

pub mod board;
pub mod pieces;
pub mod snapshot;

verus! {

/// Return a short greeting string.
pub fn greet() -> (r: String)
    ensures
        r@ == "Hello, world!"@,
{
    String::from_str("Hello, world!")
}

} // verus!
