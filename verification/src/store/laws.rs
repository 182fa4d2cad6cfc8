//! What holds of every read, whatever the store answers.

use vstd::prelude::*;
use crate::store::assemble::{
    aggregate, artists_of, lemma_artists_of_push, lemma_tracks_of_push, tracks_of,
};
use crate::store::error::StoreErrorKind;
use crate::store::fetch::{
    aggregates, failure, is_media_id, media_ids, ActionView, FetchView, NO_SUCH_ENTRY,
};
use crate::store::models::{ArtistsJoin, MediaJoin, TracksJoin};
use crate::store::query::{QueryView, Reply};
use crate::types::{ArtistView, TrackView};

verus! {

/// The queries that a read asks for as the replies come in one after the
/// other, from where it stands: the query that is pending at the start is not
/// among them.
pub open spec fn queries_asked(state: FetchView, replies: Seq<Reply>) -> Seq<QueryView>
    decreases replies.len(),
{
    if replies.len() == 0 {
        Seq::empty()
    } else {
        let (next, action) = state.advance(replies[0]);
        let rest = queries_asked(next, replies.drop_first());
        match action {
            ActionView::Run(query) => seq![query] + rest,
            _ => rest,
        }
    }
}

/// Once a read is over it asks for nothing more, whatever it is told.
pub proof fn lemma_finished_read_asks_nothing(replies: Seq<Reply>)
    ensures
        queries_asked(FetchView::Finished, replies) == Seq::<QueryView>::empty(),
    decreases replies.len(),
{
    if replies.len() > 0 {
        lemma_finished_read_asks_nothing(replies.drop_first());
    }
}

/// After the track query a read asks for nothing more.
pub proof fn lemma_after_tracks_nothing(
    single: bool,
    rows: Seq<MediaJoin>,
    artist_rows: Seq<ArtistsJoin>,
    replies: Seq<Reply>,
)
    ensures
        queries_asked(FetchView::Tracks { single, rows, artist_rows }, replies) == Seq::<
            QueryView,
        >::empty(),
{
    if replies.len() > 0 {
        lemma_finished_read_asks_nothing(replies.drop_first());
    }
}

/// After the artist query a read asks for the tracks of the same media
/// entries at most, and for nothing else.
pub proof fn lemma_after_artists_tracks_only(
    single: bool,
    rows: Seq<MediaJoin>,
    replies: Seq<Reply>,
)
    ensures
        ({
            let asked = queries_asked(FetchView::Artists { single, rows }, replies);
            asked.len() == 0 || asked == seq![QueryView::TracksOf { media_ids: media_ids(rows) }]
        }),
{
    if replies.len() > 0 {
        let state = FetchView::Artists { single, rows };
        let (next, action) = state.advance(replies[0]);
        let rest = queries_asked(next, replies.drop_first());
        match replies[0] {
            Reply::Artists(artist_rows) => {
                lemma_after_tracks_nothing(single, rows, artist_rows@, replies.drop_first());
                assert(seq![QueryView::TracksOf { media_ids: media_ids(rows) }] + rest =~= seq![
                    QueryView::TracksOf { media_ids: media_ids(rows) },
                ]);
            },
            _ => {
                lemma_finished_read_asks_nothing(replies.drop_first());
            },
        }
    }
}

/// A read is batched: after its primary query it asks at most once for
/// artists and, after that, at most once for tracks, each time for all the
/// media entries it keeps at once. This holds however many primary rows come
/// back and whatever the replies are.
pub proof fn lemma_read_is_batched(id: Option<Seq<char>>, replies: Seq<Reply>)
    ensures
        ({
            let asked = queries_asked(FetchView::Media { id }, replies);
            &&& asked.len() <= 2
            &&& asked.len() >= 1 ==> asked[0] is ArtistsOf
            &&& asked.len() == 2 ==> asked[1] is TracksOf && asked[1]->TracksOf_media_ids
                == asked[0]->ArtistsOf_media_ids
        }),
{
    if replies.len() > 0 {
        let state = FetchView::Media { id };
        let (next, action) = state.advance(replies[0]);
        let rest = queries_asked(next, replies.drop_first());
        match next {
            FetchView::Artists { single, rows } => {
                lemma_after_artists_tracks_only(single, rows, replies.drop_first());
                assert(action == ActionView::Run(
                    QueryView::ArtistsOf { media_ids: media_ids(rows) },
                ));
            },
            FetchView::Finished => {
                lemma_finished_read_asks_nothing(replies.drop_first());
            },
            _ => {},
        }
    }
}

/// A list read that is answered in full asks for artists exactly once and for
/// tracks exactly once, for the ids of all its primary rows, and returns one
/// aggregate per primary row, in row order.
pub proof fn lemma_list_read_in_full(
    rows: Vec<MediaJoin>,
    artist_rows: Vec<ArtistsJoin>,
    track_rows: Vec<TracksJoin>,
)
    requires
        rows.len() > 0,
    ensures
        ({
            let start = FetchView::Media { id: None };
            let (second, first_action) = start.advance(Reply::Media(rows));
            let (third, second_action) = second.advance(Reply::Artists(artist_rows));
            let (last, last_action) = third.advance(Reply::Tracks(track_rows));
            &&& first_action == ActionView::Run(
                QueryView::ArtistsOf { media_ids: media_ids(rows@) },
            )
            &&& second_action == ActionView::Run(
                QueryView::TracksOf { media_ids: media_ids(rows@) },
            )
            &&& last_action == ActionView::Entries(aggregates(rows@, artist_rows@, track_rows@))
            &&& last == FetchView::Finished
        }),
{
}

/// A read by id that is answered in full asks for artists exactly once and
/// for tracks exactly once, for the id of the first primary row, and returns
/// the aggregate of that row.
pub proof fn lemma_single_read_in_full(
    id: Seq<char>,
    rows: Vec<MediaJoin>,
    artist_rows: Vec<ArtistsJoin>,
    track_rows: Vec<TracksJoin>,
)
    requires
        rows.len() > 0,
    ensures
        ({
            let start = FetchView::Media { id: Some(id) };
            let (second, first_action) = start.advance(Reply::Media(rows));
            let (third, second_action) = second.advance(Reply::Artists(artist_rows));
            let (last, last_action) = third.advance(Reply::Tracks(track_rows));
            &&& first_action == ActionView::Run(
                QueryView::ArtistsOf { media_ids: seq![rows[0].media_id@] },
            )
            &&& second_action == ActionView::Run(
                QueryView::TracksOf { media_ids: seq![rows[0].media_id@] },
            )
            &&& last_action == ActionView::Entry(aggregate(rows[0], artist_rows@, track_rows@))
            &&& last == FetchView::Finished
        }),
{
    assert(media_ids(rows@.take(1)) =~= seq![rows[0].media_id@]);
}

/// A read by a well-formed id that the store does not hold fails as not
/// found, and asks for nothing after the primary query.
pub proof fn lemma_absent_entry_is_not_found(id: Seq<char>, rows: Vec<MediaJoin>)
    requires
        is_media_id(id),
        rows.len() == 0,
    ensures
        (FetchView::Media { id: Some(id) }).advance(Reply::Media(rows)) == (
            FetchView::Finished,
            failure(StoreErrorKind::NotFound, NO_SUCH_ENTRY@, id),
        ),
{
}

/// An artist is among the artists of a media entry exactly if some
/// association row links that artist to that entry.
pub proof fn lemma_artists_of_exact(rows: Seq<ArtistsJoin>, media_id: Seq<char>, artist: ArtistView)
    ensures
        artists_of(rows, media_id).contains(artist) <==> exists|i: int|
            0 <= i < rows.len() && (#[trigger] rows[i]).media_id@ == media_id && rows[i].artist()
                == artist,
    decreases rows.len(),
{
    if rows.len() == 0 {
        assert(artists_of(rows, media_id) =~= Seq::empty());
    } else {
        let front = rows.drop_last();
        let last = rows.last();
        assert(rows == front.push(last));
        lemma_artists_of_push(front, last, media_id);
        lemma_artists_of_exact(front, media_id, artist);
        let found = artists_of(rows, media_id);
        let before = artists_of(front, media_id);
        if found.contains(artist) {
            let k = choose|k: int| 0 <= k < found.len() && found[k] == artist;
            if last.media_id@ == media_id && k == before.len() {
                assert(rows[rows.len() - 1].media_id@ == media_id);
            } else {
                assert(before[k] == artist);
                assert(before.contains(artist));
                let i = choose|i: int|
                    0 <= i < front.len() && (#[trigger] front[i]).media_id@ == media_id
                        && front[i].artist() == artist;
                assert(rows[i] == front[i]);
            }
        }
        if exists|i: int|
            0 <= i < rows.len() && (#[trigger] rows[i]).media_id@ == media_id && rows[i].artist()
                == artist {
            let i = choose|i: int|
                0 <= i < rows.len() && (#[trigger] rows[i]).media_id@ == media_id
                    && rows[i].artist() == artist;
            if i == rows.len() - 1 {
                assert(found[before.len() as int] == artist);
            } else {
                assert(front[i] == rows[i]);
                assert(before.contains(artist));
                let k = choose|k: int| 0 <= k < before.len() && before[k] == artist;
                assert(found[k] == artist);
            }
        }
    }
}

/// The aggregate of a primary row holds exactly what the association rows
/// link to its media entry: an artist is among its artists exactly if some
/// artist row with the id of the entry carries that artist, and likewise for
/// its tracks.
pub proof fn lemma_aggregate_holds_exactly_its_rows(
    row: MediaJoin,
    artist_rows: Seq<ArtistsJoin>,
    track_rows: Seq<TracksJoin>,
    artist: ArtistView,
    track: TrackView,
)
    ensures
        aggregate(row, artist_rows, track_rows).artists.contains(artist) <==> exists|i: int|
            0 <= i < artist_rows.len() && (#[trigger] artist_rows[i]).media_id@ == row.media_id@
                && artist_rows[i].artist() == artist,
        aggregate(row, artist_rows, track_rows).tracks.contains(track) <==> exists|i: int|
            0 <= i < track_rows.len() && (#[trigger] track_rows[i]).media_id@ == row.media_id@
                && track_rows[i].track() == track,
{
    lemma_artists_of_exact(artist_rows, row.media_id@, artist);
    lemma_tracks_of_exact(track_rows, row.media_id@, track);
}

/// A track is among the tracks of a media entry exactly if some association
/// row links that track to that entry.
pub proof fn lemma_tracks_of_exact(rows: Seq<TracksJoin>, media_id: Seq<char>, track: TrackView)
    ensures
        tracks_of(rows, media_id).contains(track) <==> exists|i: int|
            0 <= i < rows.len() && (#[trigger] rows[i]).media_id@ == media_id && rows[i].track()
                == track,
    decreases rows.len(),
{
    if rows.len() == 0 {
        assert(tracks_of(rows, media_id) =~= Seq::empty());
    } else {
        let front = rows.drop_last();
        let last = rows.last();
        assert(rows == front.push(last));
        lemma_tracks_of_push(front, last, media_id);
        lemma_tracks_of_exact(front, media_id, track);
        let found = tracks_of(rows, media_id);
        let before = tracks_of(front, media_id);
        if found.contains(track) {
            let k = choose|k: int| 0 <= k < found.len() && found[k] == track;
            if last.media_id@ == media_id && k == before.len() {
                assert(rows[rows.len() - 1].media_id@ == media_id);
            } else {
                assert(before[k] == track);
                assert(before.contains(track));
                let i = choose|i: int|
                    0 <= i < front.len() && (#[trigger] front[i]).media_id@ == media_id
                        && front[i].track() == track;
                assert(rows[i] == front[i]);
            }
        }
        if exists|i: int|
            0 <= i < rows.len() && (#[trigger] rows[i]).media_id@ == media_id && rows[i].track()
                == track {
            let i = choose|i: int|
                0 <= i < rows.len() && (#[trigger] rows[i]).media_id@ == media_id
                    && rows[i].track() == track;
            if i == rows.len() - 1 {
                assert(found[before.len() as int] == track);
            } else {
                assert(front[i] == rows[i]);
                assert(before.contains(track));
                let k = choose|k: int| 0 <= k < before.len() && before[k] == track;
                assert(found[k] == track);
            }
        }
    }
}

} // verus!
