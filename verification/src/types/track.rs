//! Tracks.

use vstd::prelude::*;

verus! {

/// One track of a media entry.
#[derive(Debug)]
pub struct Track {
    pub id: String,
    pub title: String,
    /// The playing time in seconds.
    pub duration: i32,
    /// The side of the record the track is on; empty for a digital-only track.
    pub record_side: String,
    pub digital: bool,
    /// The track's URLs, kept as one delimited text.
    pub urls: String,
}

/// What a [`Track`] holds, as plain values.
pub ghost struct TrackView {
    pub id: Seq<char>,
    pub title: Seq<char>,
    pub duration: int,
    pub record_side: Seq<char>,
    pub digital: bool,
    pub urls: Seq<char>,
}

impl View for Track {
    type V = TrackView;

    open spec fn view(&self) -> TrackView {
        TrackView {
            id: self.id@,
            title: self.title@,
            duration: self.duration as int,
            record_side: self.record_side@,
            digital: self.digital,
            urls: self.urls@,
        }
    }
}

impl Clone for Track {
    fn clone(&self) -> (copy: Self)
        ensures
            copy == *self,
    {
        Track {
            id: self.id.clone(),
            title: self.title.clone(),
            duration: self.duration,
            record_side: self.record_side.clone(),
            digital: self.digital,
            urls: self.urls.clone(),
        }
    }
}

} // verus!
