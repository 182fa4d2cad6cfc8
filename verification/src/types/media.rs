//! Media entries: the aggregate that the catalogue hands out.

use vstd::prelude::*;
use vstd::std_specs::convert::FromSpecImpl;
use crate::store::models::MediaJoin;
use crate::types::{
    Artist, ArtistView, BuyCondition, Condition, DateTime, Label, LabelView, MediaType, Track,
    TrackView,
};

verus! {

/// A media entry with its label, its artists and its tracks.
#[derive(Debug)]
pub struct Media {
    pub id: String,
    pub title: String,
    pub media_type: MediaType,
    pub artists: Vec<Artist>,
    pub label: Label,
    pub catalogue: String,
    pub tracks: Vec<Track>,
    pub release_date: String,
    pub purchase_date: String,
    pub media_condition: Condition,
    pub sleeve_condition: Condition,
    pub bought: BuyCondition,
    pub created_at: String,
    pub modified_at: String,
    pub notes: String,
}

/// What a [`Media`] holds, as plain values.
pub ghost struct MediaView {
    pub id: Seq<char>,
    pub title: Seq<char>,
    pub media_type: MediaType,
    pub artists: Seq<ArtistView>,
    pub label: LabelView,
    pub catalogue: Seq<char>,
    pub tracks: Seq<TrackView>,
    pub release_date: Seq<char>,
    pub purchase_date: Seq<char>,
    pub media_condition: Condition,
    pub sleeve_condition: Condition,
    pub bought: BuyCondition,
    pub created_at: Seq<char>,
    pub modified_at: Seq<char>,
    pub notes: Seq<char>,
}

impl View for Media {
    type V = MediaView;

    open spec fn view(&self) -> MediaView {
        MediaView {
            id: self.id@,
            title: self.title@,
            media_type: self.media_type,
            artists: self.artists@.map_values(|artist: Artist| artist@),
            label: self.label@,
            catalogue: self.catalogue@,
            tracks: self.tracks@.map_values(|track: Track| track@),
            release_date: self.release_date@,
            purchase_date: self.purchase_date@,
            media_condition: self.media_condition,
            sleeve_condition: self.sleeve_condition,
            bought: self.bought,
            created_at: self.created_at@,
            modified_at: self.modified_at@,
            notes: self.notes@,
        }
    }
}

/// A media entry as its own table holds it, without label, artists or tracks.
#[derive(Debug)]
pub struct RawMedia {
    pub id: String,
    pub title: String,
    pub media_type: MediaType,
    pub catalogue: String,
    pub release_date: DateTime,
    pub purchase_date: DateTime,
    pub media_condition: Condition,
    pub sleeve_condition: Condition,
    pub bought: BuyCondition,
    pub created_at: DateTime,
    pub modified_at: DateTime,
    pub notes: String,
}

impl RawMedia {
    /// The entry that the row describes once its four dates are given as
    /// text: its own fields, with an empty label, no artist and no track.
    pub open spec fn entry_with_dates(
        &self,
        release_date: Seq<char>,
        purchase_date: Seq<char>,
        created_at: Seq<char>,
        modified_at: Seq<char>,
    ) -> MediaView {
        MediaView {
            id: self.id@,
            title: self.title@,
            media_type: self.media_type,
            artists: Seq::empty(),
            label: Label::spec_empty(),
            catalogue: self.catalogue@,
            tracks: Seq::empty(),
            release_date,
            purchase_date,
            media_condition: self.media_condition,
            sleeve_condition: self.sleeve_condition,
            bought: self.bought,
            created_at,
            modified_at,
            notes: self.notes@,
        }
    }

    /// The entry that the row describes: its own fields, each date as text,
    /// with an empty label, no artist and no track.
    pub open spec fn entry(&self) -> MediaView {
        self.entry_with_dates(
            self.release_date@.text(),
            self.purchase_date@.text(),
            self.created_at@.text(),
            self.modified_at@.text(),
        )
    }
}

impl Media {
    /// Builds the entry of a joined row from the row and its four dates in
    /// text form: the row's own fields and its label, no artist, no track.
    pub fn from_row_and_dates(
        row: MediaJoin,
        release_date: String,
        purchase_date: String,
        created_at: String,
        modified_at: String,
    ) -> (media: Media)
        ensures
            media@ == row.entry_with_dates(
                release_date@,
                purchase_date@,
                created_at@,
                modified_at@,
            ),
    {
        let media = Media {
            id: row.media_id,
            title: row.media_title,
            media_type: row.media_media_type,
            artists: Vec::new(),
            label: Label {
                id: row.label_id,
                name: row.label_name,
                label_code: row.label_label_code,
                urls: row.label_urls,
            },
            catalogue: row.media_catalogue,
            tracks: Vec::new(),
            release_date,
            purchase_date,
            media_condition: row.media_media_condition,
            sleeve_condition: row.media_sleeve_condition,
            bought: row.media_bought,
            created_at,
            modified_at,
            notes: row.media_notes,
        };
        assert(media@.artists =~= Seq::empty());
        assert(media@.tracks =~= Seq::empty());
        media
    }
}

impl Media {
    /// Builds the entry of a bare row from the row and its four dates in text
    /// form: the row's own fields, an empty label, no artist, no track.
    pub fn from_raw_and_dates(
        raw: RawMedia,
        release_date: String,
        purchase_date: String,
        created_at: String,
        modified_at: String,
    ) -> (media: Media)
        ensures
            media@ == raw.entry_with_dates(
                release_date@,
                purchase_date@,
                created_at@,
                modified_at@,
            ),
    {
        let media = Media {
            id: raw.id,
            title: raw.title,
            media_type: raw.media_type,
            artists: Vec::new(),
            label: Label::default(),
            catalogue: raw.catalogue,
            tracks: Vec::new(),
            release_date,
            purchase_date,
            media_condition: raw.media_condition,
            sleeve_condition: raw.sleeve_condition,
            bought: raw.bought,
            created_at,
            modified_at,
            notes: raw.notes,
        };
        assert(media@.artists =~= Seq::empty());
        assert(media@.tracks =~= Seq::empty());
        media
    }
}

// Entries are compared by their views, so each conversion below says what it
// returns in its own `ensures` and makes no use of `from_spec`.
impl FromSpecImpl<MediaJoin> for Media {
    open spec fn obeys_from_spec() -> bool {
        false
    }

    open spec fn from_spec(row: MediaJoin) -> Media {
        arbitrary()
    }
}

impl From<MediaJoin> for Media {
    /// The entry of a joined row: the row's own fields and its label, each
    /// date as text, no artist, no track.
    fn from(row: MediaJoin) -> (media: Media)
        ensures
            media@ == row.entry(),
    {
        let release_date = row.media_release_date.to_text();
        let purchase_date = row.media_purchase_date.to_text();
        let created_at = row.media_created_at.to_text();
        let modified_at = row.media_modified_at.to_text();
        Media::from_row_and_dates(row, release_date, purchase_date, created_at, modified_at)
    }
}

impl FromSpecImpl<RawMedia> for Media {
    open spec fn obeys_from_spec() -> bool {
        false
    }

    open spec fn from_spec(raw: RawMedia) -> Media {
        arbitrary()
    }
}

impl From<RawMedia> for Media {
    /// The entry of a bare row: its own fields, each date as text, an empty
    /// label, no artist, no track.
    fn from(raw: RawMedia) -> (media: Media)
        ensures
            media@ == raw.entry(),
    {
        let release_date = raw.release_date.to_text();
        let purchase_date = raw.purchase_date.to_text();
        let created_at = raw.created_at.to_text();
        let modified_at = raw.modified_at.to_text();
        Media::from_raw_and_dates(raw, release_date, purchase_date, created_at, modified_at)
    }
}

/// The status of an answer that hands out what was asked for.
pub const STATUS_SUCCESS: &'static str = "success";

/// The status of an answer that reports a failure.
pub const STATUS_ERROR: &'static str = "error";

/// The answer to a request for the list of media entries: the entries, or
/// the message of a failure, never both.
#[derive(Debug)]
pub struct GetMediaEntriesResponse {
    status: String,
    error: Option<String>,
    entries: Option<Vec<Media>>,
}

impl GetMediaEntriesResponse {
    /// The status of the answer.
    pub closed spec fn spec_status(&self) -> Seq<char> {
        self.status@
    }

    /// The message of the failure, where the answer reports one.
    pub closed spec fn spec_error(&self) -> Option<Seq<char>> {
        match self.error {
            Some(message) => Some(message@),
            None => None,
        }
    }

    /// The entries, where the answer hands them out.
    pub closed spec fn spec_entries(&self) -> Option<Seq<Media>> {
        match self.entries {
            Some(entries) => Some(entries@),
            None => None,
        }
    }

    /// The answer that hands out the given entries, with status `success`.
    pub fn success(entries: Vec<Media>) -> (response: Self)
        ensures
            response.spec_status() == STATUS_SUCCESS@,
            response.spec_error().is_none(),
            response.spec_entries() == Some(entries@),
    {
        GetMediaEntriesResponse {
            status: STATUS_SUCCESS.to_owned(),
            error: None,
            entries: Some(entries),
        }
    }

    /// The answer that reports a failure, with status `error` and without a
    /// list, not even an empty one.
    pub fn error(message: &str) -> (response: Self)
        ensures
            response.spec_status() == STATUS_ERROR@,
            response.spec_error() == Some(message@),
            response.spec_entries().is_none(),
    {
        GetMediaEntriesResponse {
            status: STATUS_ERROR.to_owned(),
            error: Some(message.to_owned()),
            entries: None,
        }
    }

    /// The status of the answer.
    pub fn status(&self) -> (status: &str)
        ensures
            status@ == self.spec_status(),
    {
        self.status.as_str()
    }

    /// Takes the answer apart into its status, the message of its failure and
    /// its entries.
    pub fn into_parts(self) -> (parts: (String, Option<String>, Option<Vec<Media>>))
        ensures
            parts.0@ == self.spec_status(),
            match parts.1 {
                Some(message) => self.spec_error() == Some(message@),
                None => self.spec_error().is_none(),
            },
            match parts.2 {
                Some(entries) => self.spec_entries() == Some(entries@),
                None => self.spec_entries().is_none(),
            },
    {
        (self.status, self.error, self.entries)
    }
}

/// The answer to a request for one media entry: the entry, or the message of
/// a failure, never both.
#[derive(Debug)]
pub struct GetMediaEntryResponse {
    status: String,
    error: Option<String>,
    entry: Option<Media>,
}

impl GetMediaEntryResponse {
    /// The status of the answer.
    pub closed spec fn spec_status(&self) -> Seq<char> {
        self.status@
    }

    /// The message of the failure, where the answer reports one.
    pub closed spec fn spec_error(&self) -> Option<Seq<char>> {
        match self.error {
            Some(message) => Some(message@),
            None => None,
        }
    }

    /// The entry, where the answer hands one out.
    pub closed spec fn spec_entry(&self) -> Option<Media> {
        self.entry
    }

    /// The answer that hands out the given entry, with status `success`.
    pub fn success(entry: Media) -> (response: Self)
        ensures
            response.spec_status() == STATUS_SUCCESS@,
            response.spec_error().is_none(),
            response.spec_entry() == Some(entry),
    {
        GetMediaEntryResponse { status: STATUS_SUCCESS.to_owned(), entry: Some(entry), error: None }
    }

    /// The answer that reports a failure, with status `error`.
    pub fn error(message: &str) -> (response: Self)
        ensures
            response.spec_status() == STATUS_ERROR@,
            response.spec_error() == Some(message@),
            response.spec_entry().is_none(),
    {
        GetMediaEntryResponse {
            status: STATUS_ERROR.to_owned(),
            error: Some(message.to_owned()),
            entry: None,
        }
    }

    /// The status of the answer.
    pub fn status(&self) -> (status: &str)
        ensures
            status@ == self.spec_status(),
    {
        self.status.as_str()
    }

    /// Takes the answer apart into its status, the message of its failure and
    /// its entry.
    pub fn into_parts(self) -> (parts: (String, Option<String>, Option<Media>))
        ensures
            parts.0@ == self.spec_status(),
            match parts.1 {
                Some(message) => self.spec_error() == Some(message@),
                None => self.spec_error().is_none(),
            },
            parts.2 == self.spec_entry(),
    {
        (self.status, self.error, self.entry)
    }
}

} // verus!
