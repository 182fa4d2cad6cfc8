//! The statements behind the queries. Each is answered in one round trip.

use vstd::prelude::*;
use crate::store::query::{Query, QueryView};

verus! {

/// Every media entry with its label, from the given offset on. The inner
/// joins leave out an entry without a label.
pub const SELECT_MEDIA_FROM: &'static str =
    "SELECT \
        media.id AS media_id, media.title AS media_title, media.media_type AS media_media_type, \
        media.catalogue AS media_catalogue, media.release_date AS media_release_date, \
        media.purchase_date AS media_purchase_date, \
        media.media_condition AS media_media_condition, \
        media.sleeve_condition AS media_sleeve_condition, media.bought AS media_bought, \
        media.created_at AS media_created_at, media.modified_at AS media_modified_at, \
        media.notes AS media_notes, \
        labels.id AS label_id, labels.name AS label_name, labels.label_code AS label_label_code, \
        labels.urls AS label_urls \
    FROM media \
    JOIN media_label_rel ON (media_label_rel.media_id = media.id) \
    JOIN labels ON (media_label_rel.label_id = labels.id) \
    ORDER BY media.id \
    OFFSET $1";

/// As [`SELECT_MEDIA_FROM`], with a bound on the number of entries.
pub const SELECT_MEDIA_WINDOW: &'static str =
    "SELECT \
        media.id AS media_id, media.title AS media_title, media.media_type AS media_media_type, \
        media.catalogue AS media_catalogue, media.release_date AS media_release_date, \
        media.purchase_date AS media_purchase_date, \
        media.media_condition AS media_media_condition, \
        media.sleeve_condition AS media_sleeve_condition, media.bought AS media_bought, \
        media.created_at AS media_created_at, media.modified_at AS media_modified_at, \
        media.notes AS media_notes, \
        labels.id AS label_id, labels.name AS label_name, labels.label_code AS label_label_code, \
        labels.urls AS label_urls \
    FROM media \
    JOIN media_label_rel ON (media_label_rel.media_id = media.id) \
    JOIN labels ON (media_label_rel.label_id = labels.id) \
    ORDER BY media.id \
    OFFSET $1 LIMIT $2";

/// The media entry with the given id, with its label.
pub const SELECT_MEDIA_BY_ID: &'static str =
    "SELECT \
        media.id AS media_id, media.title AS media_title, media.media_type AS media_media_type, \
        media.catalogue AS media_catalogue, media.release_date AS media_release_date, \
        media.purchase_date AS media_purchase_date, \
        media.media_condition AS media_media_condition, \
        media.sleeve_condition AS media_sleeve_condition, media.bought AS media_bought, \
        media.created_at AS media_created_at, media.modified_at AS media_modified_at, \
        media.notes AS media_notes, \
        labels.id AS label_id, labels.name AS label_name, labels.label_code AS label_label_code, \
        labels.urls AS label_urls \
    FROM media \
    JOIN media_label_rel ON (media_label_rel.media_id = media.id) \
    JOIN labels ON (media_label_rel.label_id = labels.id) \
    WHERE media.id = $1";

/// The artists linked to any of the given media entries, each with the id of
/// the entry, in the order of the artists' ids.
pub const SELECT_ARTISTS: &'static str =
    "SELECT \
        artists.id AS artist_id, artists.name AS artist_name, artists.urls AS artist_urls, \
        media_artists_rel.media_id AS media_id \
    FROM artists \
    JOIN media_artists_rel ON (media_artists_rel.media_id = ANY($1)) \
    WHERE artists.id = media_artists_rel.artist_id \
    ORDER BY artists.id";

/// The tracks that belong to any of the given media entries, in the order of
/// the tracks' ids.
pub const SELECT_TRACKS: &'static str =
    "SELECT \
        tracks.id AS track_id, tracks.title AS track_title, tracks.duration AS track_duration, \
        tracks.record_side AS track_record_side, tracks.digital AS track_digital, \
        tracks.urls AS track_urls, tracks.belongs_to AS media_id \
    FROM tracks \
    WHERE tracks.belongs_to = ANY($1) \
    ORDER BY tracks.id";

/// The statement that answers a query.
pub open spec fn spec_statement(query: QueryView) -> Seq<char> {
    match query {
        QueryView::AllMedia { window } => if window.take.is_some() {
            SELECT_MEDIA_WINDOW@
        } else {
            SELECT_MEDIA_FROM@
        },
        QueryView::MediaById { .. } => SELECT_MEDIA_BY_ID@,
        QueryView::ArtistsOf { .. } => SELECT_ARTISTS@,
        QueryView::TracksOf { .. } => SELECT_TRACKS@,
    }
}

/// The statement that answers a query. Its parameters are what the query
/// holds, in the order of its fields: the offset and, where there is one, the
/// limit; the id; or the list of media ids.
pub fn statement(query: &Query) -> (sql: &'static str)
    ensures
        sql@ == spec_statement(query@),
{
    match query {
        Query::AllMedia { window } => if window.take.is_some() {
            SELECT_MEDIA_WINDOW
        } else {
            SELECT_MEDIA_FROM
        },
        Query::MediaById { .. } => SELECT_MEDIA_BY_ID,
        Query::ArtistsOf { .. } => SELECT_ARTISTS,
        Query::TracksOf { .. } => SELECT_TRACKS,
    }
}

} // verus!
