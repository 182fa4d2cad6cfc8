use vinyld::store::query::{Query, QueryKind, Window};
use vinyld::store::sql::{
    statement, SELECT_ARTISTS, SELECT_MEDIA_BY_ID, SELECT_MEDIA_FROM, SELECT_MEDIA_WINDOW,
    SELECT_TRACKS,
};

#[test]
fn each_query_has_its_statement() {
    let whole = Query::AllMedia { window: Window::from_offset_limit(0, 0) };
    let from = Query::AllMedia { window: Window::from_offset_limit(10, 0) };
    let part = Query::AllMedia { window: Window::from_offset_limit(10, 5) };
    let one = Query::MediaById { id: "m1".to_string() };
    let artists = Query::ArtistsOf { media_ids: vec!["m1".to_string()] };
    let tracks = Query::TracksOf { media_ids: Vec::new() };
    assert_eq!(statement(&whole), SELECT_MEDIA_FROM);
    assert_eq!(statement(&from), SELECT_MEDIA_FROM);
    assert_eq!(statement(&part), SELECT_MEDIA_WINDOW);
    assert_eq!(statement(&one), SELECT_MEDIA_BY_ID);
    assert_eq!(statement(&artists), SELECT_ARTISTS);
    assert_eq!(statement(&tracks), SELECT_TRACKS);
}

#[test]
fn each_query_has_its_kind() {
    let whole = Query::AllMedia { window: Window::from_offset_limit(0, 0) };
    let one = Query::MediaById { id: "m1".to_string() };
    let artists = Query::ArtistsOf { media_ids: Vec::new() };
    let tracks = Query::TracksOf { media_ids: Vec::new() };
    assert_eq!(whole.kind(), QueryKind::Media);
    assert_eq!(one.kind(), QueryKind::Media);
    assert_eq!(artists.kind(), QueryKind::Artists);
    assert_eq!(tracks.kind(), QueryKind::Tracks);
}

#[test]
fn primary_statements_join_the_label() {
    for sql in [SELECT_MEDIA_FROM, SELECT_MEDIA_WINDOW, SELECT_MEDIA_BY_ID] {
        assert!(sql.starts_with("SELECT media.id AS media_id, "));
        assert!(sql.contains(" FROM media JOIN media_label_rel ON (media_label_rel.media_id = media.id) JOIN labels ON (media_label_rel.label_id = labels.id) "));
        assert!(!sql.contains("LEFT JOIN"));
    }
    assert!(SELECT_MEDIA_FROM.ends_with(" ORDER BY media.id OFFSET $1"));
    assert!(SELECT_MEDIA_WINDOW.ends_with(" ORDER BY media.id OFFSET $1 LIMIT $2"));
    assert!(SELECT_MEDIA_BY_ID.ends_with(" WHERE media.id = $1"));
}

#[test]
fn association_statements_take_the_whole_list_of_ids() {
    assert!(SELECT_ARTISTS.contains("media_artists_rel.media_id = ANY($1)"));
    assert!(SELECT_ARTISTS.ends_with(" ORDER BY artists.id"));
    assert!(SELECT_TRACKS.contains("tracks.belongs_to = ANY($1)"));
    assert!(SELECT_TRACKS.ends_with(" ORDER BY tracks.id"));
}
