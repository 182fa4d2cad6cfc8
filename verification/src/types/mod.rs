//! The domain types of the catalogue.

pub mod artist;
pub mod condition;
pub mod date_time;
pub mod label;
pub mod media;
pub mod media_type;
pub mod track;
pub mod vinyl;

pub use artist::{Artist, ArtistView};
pub use condition::{BuyCondition, Condition};
pub use date_time::{DateTime, DateTimeView};
pub use label::{Label, LabelView};
pub use media::{
    GetMediaEntriesResponse, GetMediaEntryResponse, Media, MediaView, RawMedia, STATUS_ERROR,
    STATUS_SUCCESS,
};
pub use media_type::{MediaType, UnknownMediaType};
pub use track::{Track, TrackView};
pub use vinyl::{CreateVinylRequest, CreateVinylResponse, Vinyl};
