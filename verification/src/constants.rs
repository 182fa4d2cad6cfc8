//! Fixed values of the catalogue.

use vstd::prelude::*;

verus! {

/// The number of characters of every id: media entries, artists, tracks and
/// labels alike.
pub const NANOID_LEN: usize = 22;

} // verus!
