//! The decisions of the two read operations.
//!
//! A read is a short conversation with the store: the primary rows first, then
//! the artists of those rows, then their tracks, and at last the assembly. A
//! [`Fetch`] holds what has been answered so far. It never talks to the store
//! itself: it names the next [`Query`], takes the [`Reply`], and says what
//! follows.

use vstd::prelude::*;
use crate::constants::NANOID_LEN;
use crate::store::assemble::{aggregate, assemble_media_entries, assemble_media_entry};
use crate::store::error::{StoreError, StoreErrorKind};
use crate::store::models::{ArtistsJoin, MediaJoin, TracksJoin};
use crate::store::query::{id_texts, Query, QueryView, Reply, Window};
use crate::text::joined;
use crate::types::{Media, MediaView};

verus! {

/// The message for an empty id.
pub const MISSING_ID: &'static str = "Missing media ID";

/// The message for an id of the wrong length.
pub const INVALID_ID: &'static str = "Invalid media ID";

/// The message for an id that the store does not hold; the id follows.
pub const NO_SUCH_ENTRY: &'static str = "No media entry with id ";

/// The message for a failed primary query; the message of the engine follows.
pub const MEDIA_FAILED: &'static str = "Failed to fetch media entries from 'media' table: ";

/// The message for a failed artist query; the message of the engine follows.
pub const ARTISTS_FAILED: &'static str = "Failed to fetch artists from 'artists' table: ";

/// The message for a failed track query; the message of the engine follows.
pub const TRACKS_FAILED: &'static str = "Failed to fetch tracks from 'tracks' table: ";

/// The message for rows of another table than the pending query asked for.
pub const UNEXPECTED_REPLY: &'static str = "The reply does not answer the query";

/// The message for a reply to a read that is over.
pub const NOTHING_PENDING: &'static str = "No query is pending";

/// What the caller of a [`Fetch`] does next.
#[derive(Debug)]
pub enum Action {
    /// Run the query and hand its reply to [`Fetch::advance`].
    Run(Query),
    /// The read of one entry is done: this is the entry.
    Entry(Media),
    /// The read of a list is done: these are its entries, in the order of the
    /// primary rows.
    Entries(Vec<Media>),
    /// The read failed as a whole.
    Fail(StoreError),
}

/// What an [`Action`] holds, as plain values.
pub ghost enum ActionView {
    Run(QueryView),
    Entry(MediaView),
    Entries(Seq<MediaView>),
    Fail { kind: StoreErrorKind, message: Seq<char> },
}

/// The views of a list of entries.
pub open spec fn media_views(entries: Seq<Media>) -> Seq<MediaView> {
    entries.map_values(|media: Media| media@)
}

impl View for Action {
    type V = ActionView;

    open spec fn view(&self) -> ActionView {
        match self {
            Action::Run(query) => ActionView::Run(query@),
            Action::Entry(media) => ActionView::Entry(media@),
            Action::Entries(entries) => ActionView::Entries(media_views(entries@)),
            Action::Fail(error) => ActionView::Fail {
                kind: error.spec_kind(),
                message: error.spec_message(),
            },
        }
    }
}

/// Whether `id` has the form of an id: exactly 22 characters.
pub open spec fn is_media_id(id: Seq<char>) -> bool {
    id.len() == NANOID_LEN
}

/// Checks the form of an id that a caller handed in, before any query is run.
///
/// An empty id and an id of another length than 22 characters are both
/// refused as a validation failure, each with its own message.
pub fn validate_media_id(id: &str) -> (checked: Result<(), StoreError>)
    ensures
        checked.is_ok() == is_media_id(id@),
        id@.len() == 0 ==> checked.is_err() && checked.unwrap_err().spec_kind()
            == StoreErrorKind::Validation && checked.unwrap_err().spec_message() == MISSING_ID@,
        id@.len() != 0 && !is_media_id(id@) ==> checked.is_err()
            && checked.unwrap_err().spec_kind() == StoreErrorKind::Validation
            && checked.unwrap_err().spec_message() == INVALID_ID@,
{
    let length = id.unicode_len();
    if length == 0 {
        Err(StoreError::with_kind(StoreErrorKind::Validation, MISSING_ID))
    } else if length != NANOID_LEN {
        Err(StoreError::with_kind(StoreErrorKind::Validation, INVALID_ID))
    } else {
        Ok(())
    }
}

/// The ids of the media entries of some primary rows, in row order.
pub open spec fn media_ids(rows: Seq<MediaJoin>) -> Seq<Seq<char>> {
    rows.map_values(|row: MediaJoin| row.media_id@)
}

/// The aggregates of some primary rows over the association rows, in row
/// order.
pub open spec fn aggregates(
    rows: Seq<MediaJoin>,
    artist_rows: Seq<ArtistsJoin>,
    track_rows: Seq<TracksJoin>,
) -> Seq<MediaView> {
    rows.map_values(|row: MediaJoin| aggregate(row, artist_rows, track_rows))
}

/// Collects the ids of the media entries of some primary rows, in row order.
pub fn collect_media_ids(rows: &Vec<MediaJoin>) -> (ids: Vec<String>)
    ensures
        id_texts(ids@) == media_ids(rows@),
{
    let mut ids: Vec<String> = Vec::new();
    let mut i: usize = 0;
    while i < rows.len()
        invariant
            i <= rows.len(),
            ids.len() == i,
            forall|j: int| 0 <= j < i ==> (#[trigger] ids@[j])@ == rows@[j].media_id@,
        decreases rows.len() - i,
    {
        ids.push(rows[i].media_id.clone());
        i += 1;
    }
    assert(id_texts(ids@) =~= media_ids(rows@));
    ids
}

#[derive(Debug)]
enum Stage {
    Media { id: Option<String> },
    Artists { single: bool, rows: Vec<MediaJoin> },
    Tracks { single: bool, rows: Vec<MediaJoin>, artist_rows: Vec<ArtistsJoin> },
    Finished,
}

/// A read in progress: what the store has answered so far.
#[derive(Debug)]
pub struct Fetch {
    stage: Stage,
}

/// Where a read stands.
pub ghost enum FetchView {
    /// The primary query is pending: for the entry with this id, or, with no
    /// id, for a list.
    Media { id: Option<Seq<char>> },
    /// The primary rows are here and the artist query is pending.
    Artists { single: bool, rows: Seq<MediaJoin> },
    /// The artist rows are here too and the track query is pending.
    Tracks { single: bool, rows: Seq<MediaJoin>, artist_rows: Seq<ArtistsJoin> },
    /// No query is pending: the read has returned or failed.
    Finished,
}

/// The failure of the given kind whose message is `prefix` followed by
/// `detail`.
pub open spec fn failure(kind: StoreErrorKind, prefix: Seq<char>, detail: Seq<char>) -> ActionView {
    ActionView::Fail { kind, message: prefix + detail }
}

impl FetchView {
    /// What follows from a reply: where the read stands then, and what its
    /// caller does next.
    ///
    /// A failed query fails the read with the message of the engine. Rows of
    /// the wrong table, and any reply once the read is over, fail it too.
    /// Primary rows are followed by the artist query for their ids, artist
    /// rows by the track query for the same ids, track rows by the assembly.
    /// Without primary rows no further query is run: a read by id fails as
    /// not found, a list is empty. A read by id keeps the first row.
    pub open spec fn advance(self, reply: Reply) -> (FetchView, ActionView) {
        match (self, reply) {
            (FetchView::Media { id }, Reply::Failed(message)) => (
                FetchView::Finished,
                failure(StoreErrorKind::Query, MEDIA_FAILED@, message@),
            ),
            (FetchView::Media { id: Some(id) }, Reply::Media(rows)) => if rows.len() == 0 {
                (FetchView::Finished, failure(StoreErrorKind::NotFound, NO_SUCH_ENTRY@, id))
            } else {
                (
                    FetchView::Artists { single: true, rows: rows@.take(1) },
                    ActionView::Run(QueryView::ArtistsOf { media_ids: media_ids(rows@.take(1)) }),
                )
            },
            (FetchView::Media { id: None }, Reply::Media(rows)) => if rows.len() == 0 {
                (FetchView::Finished, ActionView::Entries(Seq::empty()))
            } else {
                (
                    FetchView::Artists { single: false, rows: rows@ },
                    ActionView::Run(QueryView::ArtistsOf { media_ids: media_ids(rows@) }),
                )
            },
            (FetchView::Artists { single, rows }, Reply::Failed(message)) => (
                FetchView::Finished,
                failure(StoreErrorKind::Query, ARTISTS_FAILED@, message@),
            ),
            (FetchView::Artists { single, rows }, Reply::Artists(artist_rows)) => (
                FetchView::Tracks { single, rows, artist_rows: artist_rows@ },
                ActionView::Run(QueryView::TracksOf { media_ids: media_ids(rows) }),
            ),
            (FetchView::Tracks { single, rows, artist_rows }, Reply::Failed(message)) => (
                FetchView::Finished,
                failure(StoreErrorKind::Query, TRACKS_FAILED@, message@),
            ),
            (FetchView::Tracks { single, rows, artist_rows }, Reply::Tracks(track_rows)) => (
                FetchView::Finished,
                if single {
                    ActionView::Entry(aggregate(rows[0], artist_rows, track_rows@))
                } else {
                    ActionView::Entries(aggregates(rows, artist_rows, track_rows@))
                },
            ),
            (FetchView::Finished, _) => (
                FetchView::Finished,
                failure(StoreErrorKind::Query, NOTHING_PENDING@, Seq::empty()),
            ),
            _ => (
                FetchView::Finished,
                failure(StoreErrorKind::Query, UNEXPECTED_REPLY@, Seq::empty()),
            ),
        }
    }
}

impl View for Fetch {
    type V = FetchView;

    closed spec fn view(&self) -> FetchView {
        match self.stage {
            Stage::Media { id: Some(id) } => FetchView::Media { id: Some(id@) },
            Stage::Media { id: None } => FetchView::Media { id: None },
            Stage::Artists { single, rows } => FetchView::Artists { single, rows: rows@ },
            Stage::Tracks { single, rows, artist_rows } => FetchView::Tracks {
                single,
                rows: rows@,
                artist_rows: artist_rows@,
            },
            Stage::Finished => FetchView::Finished,
        }
    }
}

fn fail_plainly(message: &str) -> (step: (Fetch, Action))
    ensures
        step.0@ == FetchView::Finished,
        step.1@ == failure(StoreErrorKind::Query, message@, Seq::empty()),
{
    assert(message@ + Seq::<char>::empty() =~= message@);
    (
        Fetch { stage: Stage::Finished },
        Action::Fail(StoreError::with_kind(StoreErrorKind::Query, message)),
    )
}

fn fail(kind: StoreErrorKind, prefix: &str, detail: &str) -> (step: (Fetch, Action))
    ensures
        step.0@ == FetchView::Finished,
        step.1@ == failure(kind, prefix@, detail@),
{
    let message = joined(prefix, detail);
    (Fetch { stage: Stage::Finished }, Action::Fail(StoreError::with_kind(kind, message.as_str())))
}

impl Fetch {
    #[verifier::type_invariant]
    closed spec fn well_formed(self) -> bool {
        match self.stage {
            Stage::Artists { single, rows } => single ==> rows.len() == 1,
            Stage::Tracks { single, rows, artist_rows } => single ==> rows.len() == 1,
            _ => true,
        }
    }

    /// Starts the read of the media entry with the given id.
    ///
    /// The id is checked first: with an id that has not the form of one the
    /// read fails at once as a validation failure, and no query is run.
    /// Otherwise the primary query for the id is next.
    pub fn media_entry(id: String) -> (step: (Fetch, Action))
        ensures
            is_media_id(id@) ==> step.0@ == (FetchView::Media { id: Some(id@) }) && step.1@
                == ActionView::Run(QueryView::MediaById { id: id@ }),
            !is_media_id(id@) ==> step.0@ == FetchView::Finished && step.1@ == (ActionView::Fail {
                kind: StoreErrorKind::Validation,
                message: if id@.len() == 0 {
                    MISSING_ID@
                } else {
                    INVALID_ID@
                },
            }),
    {
        match validate_media_id(id.as_str()) {
            Ok(()) => {
                let query = Query::MediaById { id: id.clone() };
                (Fetch { stage: Stage::Media { id: Some(id) } }, Action::Run(query))
            },
            Err(error) => (Fetch { stage: Stage::Finished }, Action::Fail(error)),
        }
    }

    /// Starts the read of a list of media entries: the primary query for the
    /// window that `offset` and `limit` stand for is next.
    pub fn media_entries(offset: usize, limit: usize) -> (step: (Fetch, Action))
        ensures
            step.0@ == (FetchView::Media { id: None }),
            step.1@ == ActionView::Run(
                QueryView::AllMedia { window: Window::spec_from_offset_limit(offset, limit) },
            ),
    {
        let window = Window::from_offset_limit(offset, limit);
        (Fetch { stage: Stage::Media { id: None } }, Action::Run(Query::AllMedia { window }))
    }

    /// Whether the read has returned or failed, so that no query is pending.
    pub fn is_finished(&self) -> (finished: bool)
        ensures
            finished == (self@ == FetchView::Finished),
    {
        match &self.stage {
            Stage::Finished => true,
            _ => false,
        }
    }

    /// Takes the reply to the pending query and says what follows.
    pub fn advance(self, reply: Reply) -> (step: (Fetch, Action))
        ensures
            (step.0@, step.1@) == self@.advance(reply),
    {
        proof {
            use_type_invariant(&self);
        }
        match self.stage {
            Stage::Media { id } => match reply {
                Reply::Failed(message) => fail(
                    StoreErrorKind::Query,
                    MEDIA_FAILED,
                    message.as_str(),
                ),
                Reply::Media(rows) => match id {
                    Some(id) => {
                        if rows.len() == 0 {
                            fail(StoreErrorKind::NotFound, NO_SUCH_ENTRY, id.as_str())
                        } else {
                            let mut rows = rows;
                            let ghost all = rows@;
                            rows.truncate(1);
                            assert(rows@ =~= all.take(1));
                            let media_ids = collect_media_ids(&rows);
                            (
                                Fetch { stage: Stage::Artists { single: true, rows } },
                                Action::Run(Query::ArtistsOf { media_ids }),
                            )
                        }
                    },
                    None => {
                        if rows.len() == 0 {
                            let entries: Vec<Media> = Vec::new();
                            assert(media_views(entries@) =~= Seq::empty());
                            (Fetch { stage: Stage::Finished }, Action::Entries(entries))
                        } else {
                            let media_ids = collect_media_ids(&rows);
                            (
                                Fetch { stage: Stage::Artists { single: false, rows } },
                                Action::Run(Query::ArtistsOf { media_ids }),
                            )
                        }
                    },
                },
                _ => fail_plainly(UNEXPECTED_REPLY),
            },
            Stage::Artists { single, rows } => match reply {
                Reply::Failed(message) => fail(
                    StoreErrorKind::Query,
                    ARTISTS_FAILED,
                    message.as_str(),
                ),
                Reply::Artists(artist_rows) => {
                    let media_ids = collect_media_ids(&rows);
                    (
                        Fetch { stage: Stage::Tracks { single, rows, artist_rows } },
                        Action::Run(Query::TracksOf { media_ids }),
                    )
                },
                _ => fail_plainly(UNEXPECTED_REPLY),
            },
            Stage::Tracks { single, rows, artist_rows } => match reply {
                Reply::Failed(message) => fail(
                    StoreErrorKind::Query,
                    TRACKS_FAILED,
                    message.as_str(),
                ),
                Reply::Tracks(track_rows) => {
                    if single {
                        let mut rows = rows;
                        let ghost first = rows@[0];
                        let row = rows.pop().unwrap();
                        assert(row == first);
                        let media = assemble_media_entry(row, artist_rows, track_rows);
                        (Fetch { stage: Stage::Finished }, Action::Entry(media))
                    } else {
                        let ghost all = rows@;
                        let entries = assemble_media_entries(rows, artist_rows, track_rows);
                        assert forall|i: int| 0 <= i < all.len() implies media_views(
                            entries@,
                        )[i] == aggregates(all, artist_rows@, track_rows@)[i] by {
                            assert(entries[i]@ == aggregate(all[i], artist_rows@, track_rows@));
                        }
                        assert(media_views(entries@) =~= aggregates(
                            all,
                            artist_rows@,
                            track_rows@,
                        ));
                        (Fetch { stage: Stage::Finished }, Action::Entries(entries))
                    }
                },
                _ => fail_plainly(UNEXPECTED_REPLY),
            },
            Stage::Finished => fail_plainly(NOTHING_PENDING),
        }
    }
}

} // verus!
