//! Assembly of aggregates: association rows are grouped by the media entry
//! they refer to, and each primary row is merged with its two groups.

use vstd::prelude::*;
use vstd::hash_map::StringHashMap;
use crate::store::models::{ArtistsJoin, MediaJoin, TracksJoin};
use crate::types::{Artist, ArtistView, Media, MediaView, Track, TrackView};

verus! {

/// The artists that `rows` link to the media entry `media_id`, in row order.
pub open spec fn artists_of(rows: Seq<ArtistsJoin>, media_id: Seq<char>) -> Seq<ArtistView> {
    rows.filter(|row: ArtistsJoin| row.media_id@ == media_id).map_values(
        |row: ArtistsJoin| row.artist(),
    )
}

/// The views of a sequence of artists.
pub open spec fn artist_views(artists: Seq<Artist>) -> Seq<ArtistView> {
    artists.map_values(|artist: Artist| artist@)
}

/// Taking one more row into account appends its artist to the group of its own
/// media entry and leaves every other group as it was.
pub proof fn lemma_artists_of_push(rows: Seq<ArtistsJoin>, row: ArtistsJoin, media_id: Seq<char>)
    ensures
        artists_of(rows.push(row), media_id) == if row.media_id@ == media_id {
            artists_of(rows, media_id).push(row.artist())
        } else {
            artists_of(rows, media_id)
        },
{
    let pred = |r: ArtistsJoin| r.media_id@ == media_id;
    reveal(Seq::filter);
    assert(rows.push(row).drop_last() == rows);
    assert(rows.push(row).last() == row);
    let kept = rows.filter(pred);
    if row.media_id@ == media_id {
        assert(rows.push(row).filter(pred) == kept.push(row));
        assert(kept.push(row).map_values(|r: ArtistsJoin| r.artist()) =~= kept.map_values(
            |r: ArtistsJoin| r.artist(),
        ).push(row.artist()));
    } else {
        assert(rows.push(row).filter(pred) == kept);
    }
}

/// Groups artist rows by the media entry they refer to.
///
/// Each media id that occurs in `rows` gets one group, which holds the artists
/// of its rows in row order; a media id that occurs in no row gets none. The
/// rows need not be sorted: a row joins the group of its media id wherever it
/// stands.
pub fn group_artists_by_media_id(rows: Vec<ArtistsJoin>) -> (groups: StringHashMap<Vec<Artist>>)
    ensures
        forall|media_id: Seq<char>|
            groups@.contains_key(media_id) <==> artists_of(rows@, media_id).len() > 0,
        forall|media_id: Seq<char>|
            groups@.contains_key(media_id) ==> artist_views(#[trigger] groups@[media_id]@)
                == artists_of(rows@, media_id),
{
    // `slots` gives each media id seen so far the index of its bucket.
    let mut slots: StringHashMap<usize> = StringHashMap::new();
    let mut ids: Vec<String> = Vec::new();
    let mut buckets: Vec<Vec<Artist>> = Vec::new();
    let mut i: usize = 0;
    while i < rows.len()
        invariant
            i <= rows.len(),
            ids.len() == buckets.len(),
            forall|k: Seq<char>|
                slots@.contains_key(k) <==> artists_of(rows@.take(i as int), k).len() > 0,
            forall|k: Seq<char>| #[trigger]
                slots@.contains_key(k) ==> slots@[k] < buckets.len() && ids@[slots@[k] as int]@
                    == k,
            forall|j: int|
                0 <= j < buckets.len() ==> slots@.contains_key(#[trigger] ids@[j]@)
                    && slots@[ids@[j]@] == j,
            forall|j: int|
                0 <= j < buckets.len() ==> artist_views(#[trigger] buckets@[j]@) == artists_of(
                    rows@.take(i as int),
                    ids@[j]@,
                ),
        decreases rows.len() - i,
    {
        let row = &rows[i];
        let artist = row.to_artist();
        proof {
            assert(rows@.take(i + 1) == rows@.take(i as int).push(rows@[i as int]));
            assert forall|k: Seq<char>|
                artists_of(rows@.take(i + 1), k) == if rows@[i as int].media_id@ == k {
                    artists_of(rows@.take(i as int), k).push(rows@[i as int].artist())
                } else {
                    artists_of(rows@.take(i as int), k)
                } by {
                lemma_artists_of_push(rows@.take(i as int), rows@[i as int], k);
            }
        }
        let found = match slots.get(row.media_id.as_str()) {
            Some(slot) => Some(*slot),
            None => None,
        };
        match found {
            Some(j) => {
                let ghost before = buckets@;
                buckets[j].push(artist);
                proof {
                    assert(artist_views(before[j as int]@.push(artist)) =~= artist_views(
                        before[j as int]@,
                    ).push(artist@));
                    assert forall|m: int| 0 <= m < buckets.len() implies artist_views(
                        #[trigger] buckets@[m]@,
                    ) == artists_of(rows@.take(i + 1), ids@[m]@) by {
                        if m != j {
                            assert(buckets@[m] == before[m]);
                        }
                    }
                }
            },
            None => {
                let mut bucket: Vec<Artist> = Vec::new();
                bucket.push(artist);
                proof {
                    assert(artist_views(bucket@) =~= Seq::<ArtistView>::empty().push(artist@));
                    assert(artists_of(rows@.take(i as int), row.media_id@).len() == 0);
                    assert(artists_of(rows@.take(i as int), row.media_id@)
                        =~= Seq::<ArtistView>::empty());
                }
                slots.insert(row.media_id.clone(), buckets.len());
                ids.push(row.media_id.clone());
                buckets.push(bucket);
            },
        }
        i += 1;
    }
    proof {
        assert(rows@.take(i as int) == rows@);
    }
    let mut groups: StringHashMap<Vec<Artist>> = StringHashMap::new();
    let ghost all_ids = ids@;
    let ghost all_buckets = buckets@;
    while ids.len() > 0
        invariant
            ids.len() == buckets.len(),
            ids.len() <= all_ids.len(),
            all_ids.len() == all_buckets.len(),
            ids@ == all_ids.take(ids.len() as int),
            buckets@ == all_buckets.take(ids.len() as int),
            forall|k: Seq<char>|
                slots@.contains_key(k) <==> artists_of(rows@, k).len() > 0,
            forall|k: Seq<char>| #[trigger]
                slots@.contains_key(k) ==> slots@[k] < all_ids.len() && all_ids[slots@[k] as int]@
                    == k,
            forall|j: int|
                0 <= j < all_ids.len() ==> slots@.contains_key(#[trigger] all_ids[j]@)
                    && slots@[all_ids[j]@] == j,
            forall|j: int|
                0 <= j < all_ids.len() ==> artist_views(#[trigger] all_buckets[j]@) == artists_of(
                    rows@,
                    all_ids[j]@,
                ),
            forall|k: Seq<char>|
                groups@.contains_key(k) <==> slots@.contains_key(k) && slots@[k] >= ids.len(),
            forall|k: Seq<char>|
                groups@.contains_key(k) ==> artist_views(#[trigger] groups@[k]@) == artists_of(
                    rows@,
                    k,
                ),
        decreases ids.len(),
    {
        let ghost n = ids.len() - 1;
        let id = ids.pop().unwrap();
        let bucket = buckets.pop().unwrap();
        proof {
            assert(id == all_ids[n]);
            assert(bucket == all_buckets[n]);
            assert(slots@.contains_key(all_ids[n]@));
        }
        groups.insert(id, bucket);
    }
    groups
}

/// The tracks that `rows` link to the media entry `media_id`, in row order.
pub open spec fn tracks_of(rows: Seq<TracksJoin>, media_id: Seq<char>) -> Seq<TrackView> {
    rows.filter(|row: TracksJoin| row.media_id@ == media_id).map_values(
        |row: TracksJoin| row.track(),
    )
}

/// The views of a sequence of tracks.
pub open spec fn track_views(tracks: Seq<Track>) -> Seq<TrackView> {
    tracks.map_values(|track: Track| track@)
}

/// Taking one more row into account appends its track to the group of its own
/// media entry and leaves every other group as it was.
pub proof fn lemma_tracks_of_push(rows: Seq<TracksJoin>, row: TracksJoin, media_id: Seq<char>)
    ensures
        tracks_of(rows.push(row), media_id) == if row.media_id@ == media_id {
            tracks_of(rows, media_id).push(row.track())
        } else {
            tracks_of(rows, media_id)
        },
{
    let pred = |r: TracksJoin| r.media_id@ == media_id;
    reveal(Seq::filter);
    assert(rows.push(row).drop_last() == rows);
    assert(rows.push(row).last() == row);
    let kept = rows.filter(pred);
    if row.media_id@ == media_id {
        assert(rows.push(row).filter(pred) == kept.push(row));
        assert(kept.push(row).map_values(|r: TracksJoin| r.track()) =~= kept.map_values(
            |r: TracksJoin| r.track(),
        ).push(row.track()));
    } else {
        assert(rows.push(row).filter(pred) == kept);
    }
}

/// Groups track rows by the media entry they refer to.
///
/// Each media id that occurs in `rows` gets one group, which holds the tracks
/// of its rows in row order; a media id that occurs in no row gets none. The
/// rows need not be sorted: a row joins the group of its media id wherever it
/// stands.
pub fn group_tracks_by_media_id(rows: Vec<TracksJoin>) -> (groups: StringHashMap<Vec<Track>>)
    ensures
        forall|media_id: Seq<char>|
            groups@.contains_key(media_id) <==> tracks_of(rows@, media_id).len() > 0,
        forall|media_id: Seq<char>|
            groups@.contains_key(media_id) ==> track_views(#[trigger] groups@[media_id]@)
                == tracks_of(rows@, media_id),
{
    // `slots` gives each media id seen so far the index of its bucket.
    let mut slots: StringHashMap<usize> = StringHashMap::new();
    let mut ids: Vec<String> = Vec::new();
    let mut buckets: Vec<Vec<Track>> = Vec::new();
    let mut i: usize = 0;
    while i < rows.len()
        invariant
            i <= rows.len(),
            ids.len() == buckets.len(),
            forall|k: Seq<char>|
                slots@.contains_key(k) <==> tracks_of(rows@.take(i as int), k).len() > 0,
            forall|k: Seq<char>| #[trigger]
                slots@.contains_key(k) ==> slots@[k] < buckets.len() && ids@[slots@[k] as int]@
                    == k,
            forall|j: int|
                0 <= j < buckets.len() ==> slots@.contains_key(#[trigger] ids@[j]@)
                    && slots@[ids@[j]@] == j,
            forall|j: int|
                0 <= j < buckets.len() ==> track_views(#[trigger] buckets@[j]@) == tracks_of(
                    rows@.take(i as int),
                    ids@[j]@,
                ),
        decreases rows.len() - i,
    {
        let row = &rows[i];
        let track = row.to_track();
        proof {
            assert(rows@.take(i + 1) == rows@.take(i as int).push(rows@[i as int]));
            assert forall|k: Seq<char>|
                tracks_of(rows@.take(i + 1), k) == if rows@[i as int].media_id@ == k {
                    tracks_of(rows@.take(i as int), k).push(rows@[i as int].track())
                } else {
                    tracks_of(rows@.take(i as int), k)
                } by {
                lemma_tracks_of_push(rows@.take(i as int), rows@[i as int], k);
            }
        }
        let found = match slots.get(row.media_id.as_str()) {
            Some(slot) => Some(*slot),
            None => None,
        };
        match found {
            Some(j) => {
                let ghost before = buckets@;
                buckets[j].push(track);
                proof {
                    assert(track_views(before[j as int]@.push(track)) =~= track_views(
                        before[j as int]@,
                    ).push(track@));
                    assert forall|m: int| 0 <= m < buckets.len() implies track_views(
                        #[trigger] buckets@[m]@,
                    ) == tracks_of(rows@.take(i + 1), ids@[m]@) by {
                        if m != j {
                            assert(buckets@[m] == before[m]);
                        }
                    }
                }
            },
            None => {
                let mut bucket: Vec<Track> = Vec::new();
                bucket.push(track);
                proof {
                    assert(track_views(bucket@) =~= Seq::<TrackView>::empty().push(track@));
                    assert(tracks_of(rows@.take(i as int), row.media_id@).len() == 0);
                    assert(tracks_of(rows@.take(i as int), row.media_id@)
                        =~= Seq::<TrackView>::empty());
                }
                slots.insert(row.media_id.clone(), buckets.len());
                ids.push(row.media_id.clone());
                buckets.push(bucket);
            },
        }
        i += 1;
    }
    proof {
        assert(rows@.take(i as int) == rows@);
    }
    let mut groups: StringHashMap<Vec<Track>> = StringHashMap::new();
    let ghost all_ids = ids@;
    let ghost all_buckets = buckets@;
    while ids.len() > 0
        invariant
            ids.len() == buckets.len(),
            ids.len() <= all_ids.len(),
            all_ids.len() == all_buckets.len(),
            ids@ == all_ids.take(ids.len() as int),
            buckets@ == all_buckets.take(ids.len() as int),
            forall|k: Seq<char>|
                slots@.contains_key(k) <==> tracks_of(rows@, k).len() > 0,
            forall|k: Seq<char>| #[trigger]
                slots@.contains_key(k) ==> slots@[k] < all_ids.len() && all_ids[slots@[k] as int]@
                    == k,
            forall|j: int|
                0 <= j < all_ids.len() ==> slots@.contains_key(#[trigger] all_ids[j]@)
                    && slots@[all_ids[j]@] == j,
            forall|j: int|
                0 <= j < all_ids.len() ==> track_views(#[trigger] all_buckets[j]@) == tracks_of(
                    rows@,
                    all_ids[j]@,
                ),
            forall|k: Seq<char>|
                groups@.contains_key(k) <==> slots@.contains_key(k) && slots@[k] >= ids.len(),
            forall|k: Seq<char>|
                groups@.contains_key(k) ==> track_views(#[trigger] groups@[k]@) == tracks_of(
                    rows@,
                    k,
                ),
        decreases ids.len(),
    {
        let ghost n = ids.len() - 1;
        let id = ids.pop().unwrap();
        let bucket = buckets.pop().unwrap();
        proof {
            assert(id == all_ids[n]);
            assert(bucket == all_buckets[n]);
            assert(slots@.contains_key(all_ids[n]@));
        }
        groups.insert(id, bucket);
    }
    groups
}

/// The group of `media_id`, as views; empty where the media entry has none.
pub open spec fn artist_group(groups: Map<Seq<char>, Vec<Artist>>, media_id: Seq<char>) -> Seq<
    ArtistView,
> {
    if groups.contains_key(media_id) {
        artist_views(groups[media_id]@)
    } else {
        Seq::empty()
    }
}

/// The group of `media_id`, as views; empty where the media entry has none.
pub open spec fn track_group(groups: Map<Seq<char>, Vec<Track>>, media_id: Seq<char>) -> Seq<
    TrackView,
> {
    if groups.contains_key(media_id) {
        track_views(groups[media_id]@)
    } else {
        Seq::empty()
    }
}

/// The entry of `row` with the artists and tracks that the groups hold for it.
pub open spec fn merged(
    row: MediaJoin,
    artist_groups: Map<Seq<char>, Vec<Artist>>,
    track_groups: Map<Seq<char>, Vec<Track>>,
) -> MediaView {
    MediaView {
        artists: artist_group(artist_groups, row.media_id@),
        tracks: track_group(track_groups, row.media_id@),
        ..row.entry()
    }
}

/// The aggregate of `row`: its entry with every artist and every track that
/// the association rows link to it, in row order.
pub open spec fn aggregate(
    row: MediaJoin,
    artist_rows: Seq<ArtistsJoin>,
    track_rows: Seq<TracksJoin>,
) -> MediaView {
    MediaView {
        artists: artists_of(artist_rows, row.media_id@),
        tracks: tracks_of(track_rows, row.media_id@),
        ..row.entry()
    }
}

fn copy_artists(artists: &Vec<Artist>) -> (copy: Vec<Artist>)
    ensures
        copy@ == artists@,
{
    let mut copy: Vec<Artist> = Vec::new();
    let mut i: usize = 0;
    while i < artists.len()
        invariant
            i <= artists.len(),
            copy@ == artists@.take(i as int),
        decreases artists.len() - i,
    {
        copy.push(artists[i].clone());
        assert(artists@.take(i + 1) == artists@.take(i as int).push(artists@[i as int]));
        i += 1;
    }
    assert(artists@.take(i as int) == artists@);
    copy
}

fn copy_tracks(tracks: &Vec<Track>) -> (copy: Vec<Track>)
    ensures
        copy@ == tracks@,
{
    let mut copy: Vec<Track> = Vec::new();
    let mut i: usize = 0;
    while i < tracks.len()
        invariant
            i <= tracks.len(),
            copy@ == tracks@.take(i as int),
        decreases tracks.len() - i,
    {
        copy.push(tracks[i].clone());
        assert(tracks@.take(i + 1) == tracks@.take(i as int).push(tracks@[i as int]));
        i += 1;
    }
    assert(tracks@.take(i as int) == tracks@);
    copy
}

/// Builds the aggregate of one primary row: the entry of the row with its
/// label, and the artists and tracks that the groups hold under its id. A
/// media entry without a group gets an empty list, which is no error.
pub fn merge_aggregate(
    row: MediaJoin,
    artist_groups: &StringHashMap<Vec<Artist>>,
    track_groups: &StringHashMap<Vec<Track>>,
) -> (media: Media)
    ensures
        media@ == merged(row, artist_groups@, track_groups@),
{
    let mut media = Media::from(row);
    if let Some(artists) = artist_groups.get(media.id.as_str()) {
        media.artists = copy_artists(artists);
    }
    if let Some(tracks) = track_groups.get(media.id.as_str()) {
        media.tracks = copy_tracks(tracks);
    }
    assert(media@ =~= merged(row, artist_groups@, track_groups@));
    media
}

/// Assembles the aggregate of one media entry from its primary row and the
/// association rows that were fetched for it.
pub fn assemble_media_entry(
    row: MediaJoin,
    artist_rows: Vec<ArtistsJoin>,
    track_rows: Vec<TracksJoin>,
) -> (media: Media)
    ensures
        media@ == aggregate(row, artist_rows@, track_rows@),
{
    let artist_groups = group_artists_by_media_id(artist_rows);
    let track_groups = group_tracks_by_media_id(track_rows);
    let media = merge_aggregate(row, &artist_groups, &track_groups);
    proof {
        lemma_merged_is_aggregate(row, artist_rows@, track_rows@, artist_groups@, track_groups@);
    }
    media
}

/// Merging a row with the groups of some association rows gives the aggregate
/// of the row over those rows.
pub proof fn lemma_merged_is_aggregate(
    row: MediaJoin,
    artist_rows: Seq<ArtistsJoin>,
    track_rows: Seq<TracksJoin>,
    artist_groups: Map<Seq<char>, Vec<Artist>>,
    track_groups: Map<Seq<char>, Vec<Track>>,
)
    requires
        forall|media_id: Seq<char>|
            artist_groups.contains_key(media_id) <==> artists_of(artist_rows, media_id).len() > 0,
        forall|media_id: Seq<char>|
            artist_groups.contains_key(media_id) ==> artist_views(
                #[trigger] artist_groups[media_id]@,
            ) == artists_of(artist_rows, media_id),
        forall|media_id: Seq<char>|
            track_groups.contains_key(media_id) <==> tracks_of(track_rows, media_id).len() > 0,
        forall|media_id: Seq<char>|
            track_groups.contains_key(media_id) ==> track_views(#[trigger] track_groups[media_id]@)
                == tracks_of(track_rows, media_id),
    ensures
        merged(row, artist_groups, track_groups) == aggregate(row, artist_rows, track_rows),
{
    let id = row.media_id@;
    if !artist_groups.contains_key(id) {
        assert(artists_of(artist_rows, id) =~= Seq::empty());
    }
    if !track_groups.contains_key(id) {
        assert(tracks_of(track_rows, id) =~= Seq::empty());
    }
}

/// Assembles the aggregates of a list of media entries: one per primary row,
/// in the order of the primary rows, each with the artists and tracks that
/// the association rows link to it. The association rows are grouped once for
/// the whole list.
pub fn assemble_media_entries(
    rows: Vec<MediaJoin>,
    artist_rows: Vec<ArtistsJoin>,
    track_rows: Vec<TracksJoin>,
) -> (entries: Vec<Media>)
    ensures
        entries.len() == rows.len(),
        forall|i: int|
            0 <= i < rows.len() ==> (#[trigger] entries[i])@ == aggregate(
                rows[i],
                artist_rows@,
                track_rows@,
            ),
{
    let artist_groups = group_artists_by_media_id(artist_rows);
    let track_groups = group_tracks_by_media_id(track_rows);
    let mut entries: Vec<Media> = Vec::new();
    for row in iter: rows
        invariant
            iter.seq() == rows@,
            entries.len() == iter.index(),
            forall|media_id: Seq<char>|
                artist_groups@.contains_key(media_id) <==> artists_of(artist_rows@, media_id).len()
                    > 0,
            forall|media_id: Seq<char>|
                artist_groups@.contains_key(media_id) ==> artist_views(
                    #[trigger] artist_groups@[media_id]@,
                ) == artists_of(artist_rows@, media_id),
            forall|media_id: Seq<char>|
                track_groups@.contains_key(media_id) <==> tracks_of(track_rows@, media_id).len()
                    > 0,
            forall|media_id: Seq<char>|
                track_groups@.contains_key(media_id) ==> track_views(
                    #[trigger] track_groups@[media_id]@,
                ) == tracks_of(track_rows@, media_id),
            forall|i: int|
                0 <= i < entries.len() ==> (#[trigger] entries[i])@ == aggregate(
                    rows[i],
                    artist_rows@,
                    track_rows@,
                ),
    {
        proof {
            lemma_merged_is_aggregate(
                row,
                artist_rows@,
                track_rows@,
                artist_groups@,
                track_groups@,
            );
        }
        let media = merge_aggregate(row, &artist_groups, &track_groups);
        entries.push(media);
    }
    entries
}

} // verus!
