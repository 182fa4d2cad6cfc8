use vinyld::store::error::StoreErrorKind;
use vinyld::store::remove::{begin_delete, finish_delete, Removal};

const ID: &str = "V1StGXR8_Z5jdHi6B-myTq";

#[test]
fn removal_takes_the_links_first() {
    let statements = begin_delete(ID).unwrap();
    assert_eq!(
        statements,
        vec![
            "DELETE FROM media_artists_rel WHERE media_id = $1",
            "DELETE FROM tracks WHERE belongs_to = $1",
            "DELETE FROM media_label_rel WHERE media_id = $1",
            "DELETE FROM media WHERE id = $1",
        ]
    );
}

#[test]
fn removal_by_malformed_id_runs_nothing() {
    let error = begin_delete("V1StGXR8").unwrap_err();
    assert_eq!(error.kind(), StoreErrorKind::Validation);
    assert_eq!(error.message(), "Invalid media ID");
    let error = begin_delete("").unwrap_err();
    assert_eq!(error.kind(), StoreErrorKind::Validation);
    assert_eq!(error.message(), "Missing media ID");
}

#[test]
fn removal_of_an_entry_succeeds() {
    assert!(finish_delete(ID, Removal::Applied { entries: 1 }).is_ok());
    assert!(finish_delete(ID, Removal::Applied { entries: 2 }).is_ok());
}

#[test]
fn removal_of_an_absent_entry_is_not_found() {
    let error = finish_delete(ID, Removal::Applied { entries: 0 }).unwrap_err();
    assert_eq!(error.kind(), StoreErrorKind::NotFound);
    assert_eq!(error.message(), "No media entry with id V1StGXR8_Z5jdHi6B-myTq");
}

#[test]
fn removal_that_the_engine_refused_fails() {
    let error = finish_delete(ID, Removal::Failed("deadlock detected".to_string())).unwrap_err();
    assert_eq!(error.kind(), StoreErrorKind::Query);
    assert_eq!(error.message(), "Failed to delete media entry: deadlock detected");
}
