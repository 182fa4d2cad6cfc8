use vinyld::store::error::StoreErrorKind;
use vinyld::store::fetch::{collect_media_ids, validate_media_id, Action, Fetch};
use vinyld::store::models::{ArtistsJoin, MediaJoin, TracksJoin};
use vinyld::store::query::{Query, QueryKind, Reply, Window};
use vinyld::types::{BuyCondition, Condition, DateTime, MediaType};

const M1: &str = "m1AAAAAAAAAAAAAAAAAAAA";
const M2: &str = "m2AAAAAAAAAAAAAAAAAAAA";
const M3: &str = "m3AAAAAAAAAAAAAAAAAAAA";

fn artist(artist: &str, media: &str) -> ArtistsJoin {
    ArtistsJoin {
        artist_id: artist.to_string(),
        artist_name: String::new(),
        artist_urls: String::new(),
        media_id: media.to_string(),
    }
}

fn track(track: &str, media: &str) -> TracksJoin {
    TracksJoin {
        track_id: track.to_string(),
        track_title: String::new(),
        track_duration: 180,
        track_record_side: String::new(),
        track_digital: true,
        track_urls: String::new(),
        media_id: media.to_string(),
    }
}

fn media(media: &str, label: &str) -> MediaJoin {
    let day = DateTime::new(2022, 100, 10, 0, 0, 0).unwrap();
    MediaJoin {
        media_id: media.to_string(),
        media_title: String::new(),
        media_media_type: MediaType::Vinyl,
        media_catalogue: String::new(),
        media_release_date: day,
        media_purchase_date: day,
        media_media_condition: Condition::Mint,
        media_sleeve_condition: Condition::Mint,
        media_bought: BuyCondition::New,
        media_created_at: day,
        media_modified_at: day,
        media_notes: String::new(),
        label_id: label.to_string(),
        label_name: String::new(),
        label_label_code: String::new(),
        label_urls: String::new(),
    }
}

fn failure(action: Action) -> (StoreErrorKind, String) {
    match action {
        Action::Fail(error) => (error.kind(), error.to_text()),
        other => panic!("the read did not fail: {:?}", other),
    }
}

fn asked_ids(action: Action, kind: QueryKind) -> Vec<String> {
    match action {
        Action::Run(query) => {
            assert_eq!(query.kind(), kind);
            match query {
                Query::ArtistsOf { media_ids } => media_ids,
                Query::TracksOf { media_ids } => media_ids,
                other => panic!("the query asks for no ids: {:?}", other),
            }
        }
        other => panic!("no query is asked: {:?}", other),
    }
}

#[test]
fn id_of_22_characters_is_accepted() {
    assert!(validate_media_id(M1).is_ok());
    assert!(validate_media_id("0123456789_-abcdefABCD").is_ok());
}

#[test]
fn id_of_another_length_is_refused() {
    let short = validate_media_id("0123456789_-abcdefABC").unwrap_err();
    assert_eq!(short.kind(), StoreErrorKind::Validation);
    assert_eq!(short.message(), "Invalid media ID");
    let long = validate_media_id("0123456789_-abcdefABCDE").unwrap_err();
    assert_eq!(long.kind(), StoreErrorKind::Validation);
    assert_eq!(long.message(), "Invalid media ID");
    let one = validate_media_id("m").unwrap_err();
    assert_eq!(one.message(), "Invalid media ID");
}

#[test]
fn empty_id_is_refused_as_missing() {
    let error = validate_media_id("").unwrap_err();
    assert_eq!(error.kind(), StoreErrorKind::Validation);
    assert_eq!(error.message(), "Missing media ID");
}

#[test]
fn id_length_counts_characters() {
    let id = "ääääääääääääääääääääää";
    assert_eq!(id.chars().count(), 22);
    assert!(validate_media_id(id).is_ok());
    let bytes = "äääääääääää";
    assert_eq!(bytes.len(), 22);
    assert!(validate_media_id(bytes).is_err());
}

#[test]
fn read_by_malformed_id_fails_before_any_query() {
    let (fetch, action) = Fetch::media_entry("short".to_string());
    assert!(fetch.is_finished());
    assert_eq!(failure(action), (StoreErrorKind::Validation, "Invalid media ID".to_string()));
    let (fetch, action) = Fetch::media_entry(String::new());
    assert!(fetch.is_finished());
    assert_eq!(failure(action), (StoreErrorKind::Validation, "Missing media ID".to_string()));
}

#[test]
fn read_by_id_asks_for_the_entry_first() {
    let (fetch, action) = Fetch::media_entry(M1.to_string());
    assert!(!fetch.is_finished());
    match action {
        Action::Run(Query::MediaById { id }) => assert_eq!(id, M1),
        other => panic!("unexpected action: {:?}", other),
    }
}

#[test]
fn read_by_absent_id_is_not_found() {
    let (fetch, _) = Fetch::media_entry(M1.to_string());
    let (fetch, action) = fetch.advance(Reply::Media(Vec::new()));
    assert!(fetch.is_finished());
    assert_eq!(
        failure(action),
        (StoreErrorKind::NotFound, format!("No media entry with id {}", M1))
    );
}

#[test]
fn read_by_id_end_to_end() {
    let (fetch, _) = Fetch::media_entry(M1.to_string());
    let (fetch, action) = fetch.advance(Reply::Media(vec![media(M1, "l1")]));
    assert_eq!(asked_ids(action, QueryKind::Artists), vec![M1]);
    let (fetch, action) = fetch.advance(Reply::Artists(vec![artist("a1", M1), artist("a2", M1)]));
    assert_eq!(asked_ids(action, QueryKind::Tracks), vec![M1]);
    assert!(!fetch.is_finished());
    let (fetch, action) = fetch.advance(Reply::Tracks(vec![track("t1", M1)]));
    assert!(fetch.is_finished());
    match action {
        Action::Entry(entry) => {
            assert_eq!(entry.id, M1);
            assert_eq!(entry.label.id, "l1");
            let artists: Vec<&str> = entry.artists.iter().map(|a| a.id.as_str()).collect();
            let tracks: Vec<&str> = entry.tracks.iter().map(|t| t.id.as_str()).collect();
            assert_eq!(artists, vec!["a1", "a2"]);
            assert_eq!(tracks, vec!["t1"]);
            assert_eq!(entry.tracks[0].duration, 180);
            assert!(entry.tracks[0].digital);
            assert_eq!(entry.release_date, "2022-04-10 10:00:00.0");
        }
        other => panic!("unexpected action: {:?}", other),
    }
}

#[test]
fn read_by_id_without_children_gives_empty_lists() {
    let (fetch, _) = Fetch::media_entry(M2.to_string());
    let (fetch, _) = fetch.advance(Reply::Media(vec![media(M2, "l1")]));
    let (fetch, _) = fetch.advance(Reply::Artists(Vec::new()));
    let (_, action) = fetch.advance(Reply::Tracks(Vec::new()));
    match action {
        Action::Entry(entry) => {
            assert_eq!(entry.id, M2);
            assert!(entry.artists.is_empty());
            assert!(entry.tracks.is_empty());
        }
        other => panic!("unexpected action: {:?}", other),
    }
}

#[test]
fn read_by_id_keeps_the_first_row() {
    let (fetch, _) = Fetch::media_entry(M1.to_string());
    let (fetch, action) = fetch.advance(Reply::Media(vec![media(M1, "l1"), media(M1, "l2")]));
    assert_eq!(asked_ids(action, QueryKind::Artists), vec![M1]);
    let (fetch, _) = fetch.advance(Reply::Artists(Vec::new()));
    let (_, action) = fetch.advance(Reply::Tracks(Vec::new()));
    match action {
        Action::Entry(entry) => assert_eq!(entry.label.id, "l1"),
        other => panic!("unexpected action: {:?}", other),
    }
}

#[test]
fn list_read_asks_for_the_window_first() {
    let (_, action) = Fetch::media_entries(0, 0);
    match action {
        Action::Run(Query::AllMedia { window }) => {
            assert_eq!(window, Window { skip: 0, take: None });
            assert!(window.is_unbounded());
        }
        other => panic!("unexpected action: {:?}", other),
    }
    let (_, action) = Fetch::media_entries(20, 10);
    match action {
        Action::Run(Query::AllMedia { window }) => {
            assert_eq!(window, Window { skip: 20, take: Some(10) });
            assert!(!window.is_unbounded());
        }
        other => panic!("unexpected action: {:?}", other),
    }
}

#[test]
fn window_of_offset_and_limit() {
    assert_eq!(Window::from_offset_limit(0, 0), Window { skip: 0, take: None });
    assert_eq!(Window::from_offset_limit(5, 0), Window { skip: 5, take: None });
    assert_eq!(Window::from_offset_limit(0, 5), Window { skip: 0, take: Some(5) });
    assert!(!Window::from_offset_limit(5, 0).is_unbounded());
    assert!(!Window::from_offset_limit(0, 5).is_unbounded());
}

#[test]
fn list_read_is_batched() {
    for count in [1usize, 2, 3, 50] {
        let rows: Vec<MediaJoin> =
            (0..count).map(|i| media(&format!("m{:021}", i), "l1")).collect();
        let ids: Vec<String> = (0..count).map(|i| format!("m{:021}", i)).collect();
        let mut queries = Vec::new();
        let (fetch, action) = Fetch::media_entries(0, 0);
        if let Action::Run(query) = &action {
            queries.push(query.kind());
        }
        let (fetch, action) = fetch.advance(Reply::Media(rows));
        if let Action::Run(query) = &action {
            queries.push(query.kind());
        }
        assert_eq!(asked_ids(action, QueryKind::Artists), ids);
        let (fetch, action) = fetch.advance(Reply::Artists(Vec::new()));
        if let Action::Run(query) = &action {
            queries.push(query.kind());
        }
        assert_eq!(asked_ids(action, QueryKind::Tracks), ids);
        let (fetch, action) = fetch.advance(Reply::Tracks(Vec::new()));
        assert!(fetch.is_finished());
        match action {
            Action::Entries(entries) => assert_eq!(entries.len(), count),
            other => panic!("unexpected action: {:?}", other),
        }
        assert_eq!(queries, vec![QueryKind::Media, QueryKind::Artists, QueryKind::Tracks]);
    }
}

#[test]
fn list_read_end_to_end() {
    let (fetch, _) = Fetch::media_entries(0, 0);
    let (fetch, _) =
        fetch.advance(Reply::Media(vec![media(M2, "l2"), media(M1, "l1"), media(M3, "l1")]));
    let (fetch, _) = fetch.advance(Reply::Artists(vec![
        artist("a1", M1),
        artist("a2", M2),
        artist("a3", M1),
    ]));
    let (_, action) = fetch.advance(Reply::Tracks(vec![track("t1", M3), track("t2", M1)]));
    match action {
        Action::Entries(entries) => {
            let ids: Vec<&str> = entries.iter().map(|e| e.id.as_str()).collect();
            assert_eq!(ids, vec![M2, M1, M3]);
            let artists: Vec<Vec<&str>> = entries
                .iter()
                .map(|e| e.artists.iter().map(|a| a.id.as_str()).collect())
                .collect();
            assert_eq!(artists, vec![vec!["a2"], vec!["a1", "a3"], vec![]]);
            let tracks: Vec<Vec<&str>> =
                entries.iter().map(|e| e.tracks.iter().map(|t| t.id.as_str()).collect()).collect();
            assert_eq!(tracks, vec![vec![], vec!["t2"], vec!["t1"]]);
            assert_eq!(entries[0].label.id, "l2");
        }
        other => panic!("unexpected action: {:?}", other),
    }
}

#[test]
fn list_read_of_an_empty_store_asks_nothing_more() {
    let (fetch, _) = Fetch::media_entries(0, 0);
    let (fetch, action) = fetch.advance(Reply::Media(Vec::new()));
    assert!(fetch.is_finished());
    match action {
        Action::Entries(entries) => assert!(entries.is_empty()),
        other => panic!("unexpected action: {:?}", other),
    }
}

#[test]
fn failed_query_fails_the_read() {
    let (fetch, _) = Fetch::media_entries(0, 0);
    let (fetch, action) = fetch.advance(Reply::Failed("connection reset".to_string()));
    assert!(fetch.is_finished());
    assert_eq!(
        failure(action),
        (
            StoreErrorKind::Query,
            "Failed to fetch media entries from 'media' table: connection reset".to_string()
        )
    );

    let (fetch, _) = Fetch::media_entries(0, 0);
    let (fetch, _) = fetch.advance(Reply::Media(vec![media(M1, "l1")]));
    let (fetch, action) = fetch.advance(Reply::Failed("timeout".to_string()));
    assert!(fetch.is_finished());
    assert_eq!(
        failure(action),
        (
            StoreErrorKind::Query,
            "Failed to fetch artists from 'artists' table: timeout".to_string()
        )
    );

    let (fetch, _) = Fetch::media_entry(M1.to_string());
    let (fetch, _) = fetch.advance(Reply::Media(vec![media(M1, "l1")]));
    let (fetch, _) = fetch.advance(Reply::Artists(Vec::new()));
    let (fetch, action) = fetch.advance(Reply::Failed("timeout".to_string()));
    assert!(fetch.is_finished());
    assert_eq!(
        failure(action),
        (StoreErrorKind::Query, "Failed to fetch tracks from 'tracks' table: timeout".to_string())
    );
}

#[test]
fn reply_of_the_wrong_table_fails_the_read() {
    let (fetch, _) = Fetch::media_entries(0, 0);
    let (fetch, action) = fetch.advance(Reply::Tracks(Vec::new()));
    assert!(fetch.is_finished());
    assert_eq!(
        failure(action),
        (StoreErrorKind::Query, "The reply does not answer the query".to_string())
    );

    let (fetch, _) = Fetch::media_entries(0, 0);
    let (fetch, _) = fetch.advance(Reply::Media(vec![media(M1, "l1")]));
    let (fetch, action) = fetch.advance(Reply::Media(Vec::new()));
    assert!(fetch.is_finished());
    assert_eq!(
        failure(action),
        (StoreErrorKind::Query, "The reply does not answer the query".to_string())
    );
}

#[test]
fn finished_read_takes_no_reply() {
    let (fetch, _) = Fetch::media_entry("bad".to_string());
    let (fetch, action) = fetch.advance(Reply::Media(vec![media(M1, "l1")]));
    assert!(fetch.is_finished());
    assert_eq!(failure(action), (StoreErrorKind::Query, "No query is pending".to_string()));
}

#[test]
fn ids_are_collected_in_row_order() {
    let rows = vec![media(M3, "l1"), media(M1, "l1"), media(M3, "l1")];
    assert_eq!(collect_media_ids(&rows), vec![M3, M1, M3]);
    assert!(collect_media_ids(&Vec::new()).is_empty());
}
