//! Fresh ids for new entries.

use vstd::prelude::*;
use crate::constants::NANOID_LEN;
use crate::store::fetch::is_media_id;

verus! {

/// Whether a character may stand in an id: a letter or a digit of ASCII, an
/// underscore or a hyphen.
pub open spec fn is_id_char(c: char) -> bool {
    ||| c == '_'
    ||| c == '-'
    ||| ('0' <= c && c <= '9')
    ||| ('a' <= c && c <= 'z')
    ||| ('A' <= c && c <= 'Z')
}

/// Draws a random id with `nanoid::format`, from the random bytes of
/// `nanoid::rngs::default` and over the alphabet `nanoid::alphabet::SAFE`.
///
/// The contract claims what holds of every draw: the id has `size`
/// characters, each of them one of the 64 of that alphabet. `format` does not
/// return for a size of 0, and computes eight times the size first, so both
/// are left out. One panic no precondition can leave out: the generator is
/// seeded from the operating system, and panics where that gives no entropy,
/// as a program does that runs out of memory.
#[verifier::external_body]
fn random_id(size: usize) -> (id: String)
    requires
        0 < size <= usize::MAX / 8,
    ensures
        id@.len() == size,
        forall|i: int| 0 <= i < id@.len() ==> is_id_char(#[trigger] id@[i]),
{
    nanoid::format(nanoid::rngs::default, &nanoid::alphabet::SAFE, size)
}

/// A fresh id for a media entry, an artist, a track or a label: 22 random
/// characters that are safe in a URL. It panics where the operating system
/// gives no entropy.
pub fn generate_id() -> (id: String)
    ensures
        is_media_id(id@),
        forall|i: int| 0 <= i < id@.len() ==> is_id_char(#[trigger] id@[i]),
{
    random_id(NANOID_LEN)
}

} // verus!
