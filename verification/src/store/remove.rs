//! The decisions of the removal of a media entry.
//!
//! An entry leaves the store together with the rows that link it to its
//! artists, its tracks and its label, so that no link is left behind. The
//! statements run in one transaction, the links first.

use vstd::prelude::*;
use crate::store::error::{StoreError, StoreErrorKind};
use crate::store::fetch::{is_media_id, validate_media_id, INVALID_ID, MISSING_ID, NO_SUCH_ENTRY};
use crate::text::joined;

verus! {

/// Removes the links of a media entry to its artists.
pub const DELETE_ARTIST_LINKS: &'static str = "DELETE FROM media_artists_rel WHERE media_id = $1";

/// Removes the tracks of a media entry.
pub const DELETE_TRACKS: &'static str = "DELETE FROM tracks WHERE belongs_to = $1";

/// Removes the link of a media entry to its label.
pub const DELETE_LABEL_LINK: &'static str = "DELETE FROM media_label_rel WHERE media_id = $1";

/// Removes a media entry itself.
pub const DELETE_MEDIA: &'static str = "DELETE FROM media WHERE id = $1";

/// The message for a removal that the engine refused; its message follows.
pub const DELETE_FAILED: &'static str = "Failed to delete media entry: ";

/// What the store reports of a removal that ran in one transaction.
#[derive(Debug)]
pub enum Removal {
    /// Every statement ran; the last of them removed this many media entries.
    Applied { entries: u64 },
    /// A statement failed and the transaction was rolled back: the message of
    /// the engine.
    Failed(String),
}

/// The statements that remove a media entry, in the order they run: the rows
/// that refer to the entry, then the entry.
pub open spec fn removal_statements() -> Seq<Seq<char>> {
    seq![DELETE_ARTIST_LINKS@, DELETE_TRACKS@, DELETE_LABEL_LINK@, DELETE_MEDIA@]
}

/// The texts of a list of statements.
pub open spec fn statement_texts(statements: Seq<&'static str>) -> Seq<Seq<char>> {
    statements.map_values(|statement: &'static str| statement@)
}

/// Plans the removal of the media entry with the given id: the statements to
/// run in one transaction, each with the id as its one parameter.
///
/// The id is checked first, as for a read: a malformed id is a validation
/// failure, and nothing is to be run.
pub fn begin_delete(id: &str) -> (plan: Result<Vec<&'static str>, StoreError>)
    ensures
        plan.is_ok() == is_media_id(id@),
        plan.is_ok() ==> statement_texts(plan.unwrap()@) == removal_statements(),
        plan.is_err() ==> plan.unwrap_err().spec_kind() == StoreErrorKind::Validation
            && plan.unwrap_err().spec_message() == if id@.len() == 0 {
            MISSING_ID@
        } else {
            INVALID_ID@
        },
{
    match validate_media_id(id) {
        Ok(()) => {
            let mut statements: Vec<&'static str> = Vec::new();
            statements.push(DELETE_ARTIST_LINKS);
            statements.push(DELETE_TRACKS);
            statements.push(DELETE_LABEL_LINK);
            statements.push(DELETE_MEDIA);
            assert(statement_texts(statements@) =~= removal_statements());
            Ok(statements)
        },
        Err(error) => Err(error),
    }
}

/// What the removal of the media entry with the given id comes to.
///
/// A removal that found no entry fails as not found; one that the engine
/// refused fails with the message of the engine.
pub fn finish_delete(id: &str, reported: Removal) -> (done: Result<(), StoreError>)
    ensures
        match reported {
            Removal::Applied { entries } => if entries > 0 {
                done.is_ok()
            } else {
                done.is_err() && done.unwrap_err().spec_kind() == StoreErrorKind::NotFound
                    && done.unwrap_err().spec_message() == NO_SUCH_ENTRY@ + id@
            },
            Removal::Failed(message) => done.is_err() && done.unwrap_err().spec_kind()
                == StoreErrorKind::Query && done.unwrap_err().spec_message() == DELETE_FAILED@
                + message@,
        },
{
    match reported {
        Removal::Applied { entries } => {
            if entries > 0 {
                Ok(())
            } else {
                let message = joined(NO_SUCH_ENTRY, id);
                Err(StoreError::with_kind(StoreErrorKind::NotFound, message.as_str()))
            }
        },
        Removal::Failed(cause) => {
            let message = joined(DELETE_FAILED, cause.as_str());
            Err(StoreError::with_kind(StoreErrorKind::Query, message.as_str()))
        },
    }
}

} // verus!
