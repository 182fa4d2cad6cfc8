//! The reads that the repository asks of the store, and what the store
//! answers.

use vstd::prelude::*;
use crate::store::models::{ArtistsJoin, MediaJoin, TracksJoin};

verus! {

/// The part of the whole list that a list query returns.
#[derive(Clone, Copy, Debug, PartialEq, Eq, Structural)]
pub struct Window {
    /// The number of leading entries left out.
    pub skip: usize,
    /// The greatest number of entries returned; `None` for no bound.
    pub take: Option<usize>,
}

impl Window {
    /// The window that an offset and a limit stand for: a limit of 0 is no
    /// limit, so `(0, 0)` is the whole list.
    pub open spec fn spec_from_offset_limit(offset: usize, limit: usize) -> Window {
        Window {
            skip: offset,
            take: if limit == 0 {
                None
            } else {
                Some(limit)
            },
        }
    }

    /// The window that an offset and a limit stand for: a limit of 0 is no
    /// limit, so `(0, 0)` is the whole list.
    pub fn from_offset_limit(offset: usize, limit: usize) -> (window: Window)
        ensures
            window == Self::spec_from_offset_limit(offset, limit),
    {
        Window {
            skip: offset,
            take: if limit == 0 {
                None
            } else {
                Some(limit)
            },
        }
    }

    /// Whether the window is the whole list.
    pub open spec fn spec_is_unbounded(&self) -> bool {
        self.skip == 0 && self.take.is_none()
    }

    /// Whether the window is the whole list.
    pub fn is_unbounded(&self) -> (unbounded: bool)
        ensures
            unbounded == self.spec_is_unbounded(),
    {
        self.skip == 0 && self.take.is_none()
    }
}

/// One read, to be answered in a single round trip.
#[derive(Debug)]
pub enum Query {
    /// Every media entry of the window, each joined with its label.
    AllMedia { window: Window },
    /// The media entry with the given id, joined with its label.
    MediaById { id: String },
    /// The artists linked to any of the given media entries.
    ArtistsOf { media_ids: Vec<String> },
    /// The tracks that belong to any of the given media entries.
    TracksOf { media_ids: Vec<String> },
}

/// What a [`Query`] asks for, as plain values.
pub ghost enum QueryView {
    AllMedia { window: Window },
    MediaById { id: Seq<char> },
    ArtistsOf { media_ids: Seq<Seq<char>> },
    TracksOf { media_ids: Seq<Seq<char>> },
}

/// The texts of a list of ids.
pub open spec fn id_texts(ids: Seq<String>) -> Seq<Seq<char>> {
    ids.map_values(|id: String| id@)
}

impl View for Query {
    type V = QueryView;

    open spec fn view(&self) -> QueryView {
        match self {
            Query::AllMedia { window } => QueryView::AllMedia { window: *window },
            Query::MediaById { id } => QueryView::MediaById { id: id@ },
            Query::ArtistsOf { media_ids } => QueryView::ArtistsOf {
                media_ids: id_texts(media_ids@),
            },
            Query::TracksOf { media_ids } => QueryView::TracksOf { media_ids: id_texts(media_ids@) },
        }
    }
}

/// The table that a query reads first.
#[derive(Clone, Copy, Debug, PartialEq, Eq, Structural)]
pub enum QueryKind {
    Media,
    Artists,
    Tracks,
}

impl QueryView {
    /// The kind of the query.
    pub open spec fn kind(self) -> QueryKind {
        match self {
            QueryView::AllMedia { .. } => QueryKind::Media,
            QueryView::MediaById { .. } => QueryKind::Media,
            QueryView::ArtistsOf { .. } => QueryKind::Artists,
            QueryView::TracksOf { .. } => QueryKind::Tracks,
        }
    }
}

impl Query {
    /// The kind of the query.
    pub fn kind(&self) -> (kind: QueryKind)
        ensures
            kind == self@.kind(),
    {
        match self {
            Query::AllMedia { .. } => QueryKind::Media,
            Query::MediaById { .. } => QueryKind::Media,
            Query::ArtistsOf { .. } => QueryKind::Artists,
            Query::TracksOf { .. } => QueryKind::Tracks,
        }
    }
}

/// The answer of the store to one query: all of its rows, or the message of
/// the engine where the query failed.
#[derive(Debug)]
pub enum Reply {
    Media(Vec<MediaJoin>),
    Artists(Vec<ArtistsJoin>),
    Tracks(Vec<TracksJoin>),
    Failed(String),
}

} // verus!
