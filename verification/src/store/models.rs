//! The flat rows that the join queries return.

use vstd::prelude::*;
use crate::types::{
    Artist, ArtistView, BuyCondition, Condition, DateTime, LabelView, MediaType, MediaView, Track,
    TrackView,
};

verus! {

/// A media entry joined with its label: one row of the primary query.
#[derive(Debug)]
pub struct MediaJoin {
    pub media_id: String,
    pub media_title: String,
    pub media_media_type: MediaType,
    pub media_catalogue: String,
    pub media_release_date: DateTime,
    pub media_purchase_date: DateTime,
    pub media_media_condition: Condition,
    pub media_sleeve_condition: Condition,
    pub media_bought: BuyCondition,
    pub media_created_at: DateTime,
    pub media_modified_at: DateTime,
    pub media_notes: String,
    // Label
    pub label_id: String,
    pub label_name: String,
    pub label_label_code: String,
    pub label_urls: String,
}

impl MediaJoin {
    /// The label that the row carries.
    pub open spec fn label(&self) -> LabelView {
        LabelView {
            id: self.label_id@,
            name: self.label_name@,
            label_code: self.label_label_code@,
            urls: self.label_urls@,
        }
    }

    /// The entry that the row describes once its four dates are given as
    /// text: the row's own fields and its label, with no artist and no track.
    pub open spec fn entry_with_dates(
        &self,
        release_date: Seq<char>,
        purchase_date: Seq<char>,
        created_at: Seq<char>,
        modified_at: Seq<char>,
    ) -> MediaView {
        MediaView {
            id: self.media_id@,
            title: self.media_title@,
            media_type: self.media_media_type,
            artists: Seq::empty(),
            label: self.label(),
            catalogue: self.media_catalogue@,
            tracks: Seq::empty(),
            release_date,
            purchase_date,
            media_condition: self.media_media_condition,
            sleeve_condition: self.media_sleeve_condition,
            bought: self.media_bought,
            created_at,
            modified_at,
            notes: self.media_notes@,
        }
    }

    /// The entry that the row describes: the row's own fields and its label,
    /// each date as text, with no artist and no track.
    pub open spec fn entry(&self) -> MediaView {
        self.entry_with_dates(
            self.media_release_date@.text(),
            self.media_purchase_date@.text(),
            self.media_created_at@.text(),
            self.media_modified_at@.text(),
        )
    }
}

/// An artist together with the id of one media entry that credits them.
#[derive(Debug)]
pub struct ArtistsJoin {
    pub artist_id: String,
    pub artist_name: String,
    pub artist_urls: String,
    pub media_id: String,
}

impl ArtistsJoin {
    /// The artist that the row carries.
    pub open spec fn artist(&self) -> ArtistView {
        ArtistView { id: self.artist_id@, name: self.artist_name@, urls: self.artist_urls@ }
    }

    /// The artist that the row carries, as a value of its own.
    pub fn to_artist(&self) -> (artist: Artist)
        ensures
            artist@ == self.artist(),
    {
        Artist {
            id: self.artist_id.clone(),
            name: self.artist_name.clone(),
            urls: self.artist_urls.clone(),
        }
    }
}

/// A track together with the id of the media entry it belongs to.
#[derive(Debug)]
pub struct TracksJoin {
    pub track_id: String,
    pub track_title: String,
    pub track_duration: i32,
    pub track_record_side: String,
    pub track_digital: bool,
    pub track_urls: String,
    pub media_id: String,
}

impl TracksJoin {
    /// The track that the row carries.
    pub open spec fn track(&self) -> TrackView {
        TrackView {
            id: self.track_id@,
            title: self.track_title@,
            duration: self.track_duration as int,
            record_side: self.track_record_side@,
            digital: self.track_digital,
            urls: self.track_urls@,
        }
    }

    /// The track that the row carries, as a value of its own.
    pub fn to_track(&self) -> (track: Track)
        ensures
            track@ == self.track(),
    {
        Track {
            id: self.track_id.clone(),
            title: self.track_title.clone(),
            duration: self.track_duration,
            record_side: self.track_record_side.clone(),
            digital: self.track_digital,
            urls: self.track_urls.clone(),
        }
    }
}

} // verus!
