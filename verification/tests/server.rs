use vinyld::config::{Config, ServerOptions, StoreOptions};
use vinyld::id::generate_id;
use vinyld::server::error::ServerError;
use vinyld::server::routes::{failure_status, get_media_entries, get_media_entry, StatusCode};
use vinyld::server::{Server, Startup, StartupStep};
use vinyld::store::error::{StoreError, StoreErrorKind};
use vinyld::store::fetch::validate_media_id;
use vinyld::store::{connection_failure, migration_failure};
use vinyld::types::{
    BuyCondition, Condition, CreateVinylResponse, GetMediaEntriesResponse, GetMediaEntryResponse,
    Label, Media, MediaType,
};

fn config() -> Config {
    Config {
        server: ServerOptions { address: "127.0.0.1:8000".to_string() },
        store: StoreOptions {
            username: "u".to_string(),
            password: "p".to_string(),
            database: "d".to_string(),
            host: "h".to_string(),
        },
    }
}

fn entry(id: &str) -> Media {
    Media {
        id: id.to_string(),
        title: "title".to_string(),
        media_type: MediaType::Cd,
        artists: Vec::new(),
        label: Label::default(),
        catalogue: String::new(),
        tracks: Vec::new(),
        release_date: String::new(),
        purchase_date: String::new(),
        media_condition: Condition::Generic,
        sleeve_condition: Condition::Poor,
        bought: BuyCondition::New,
        created_at: String::new(),
        modified_at: String::new(),
        notes: String::new(),
    }
}

#[test]
fn new_server_is_not_running() {
    let server = Server::new(config());
    assert!(!server.is_running());
    assert_eq!(server.config().server.address, "127.0.0.1:8000");
    assert_eq!(server.config().store.password, "p");
}

#[test]
fn server_starts_once() {
    let mut server = Server::new(config());
    assert!(server.start().is_ok());
    assert!(server.is_running());
    let error = server.start().unwrap_err();
    assert_eq!(error.message(), "Server already running");
    assert!(server.is_running());
    assert_eq!(server.config().store.host, "h");
}

#[test]
fn startup_failures_name_their_step() {
    assert_eq!(
        StartupStep::Connect.failure("no route to host").to_text(),
        "Store creation failed: no route to host"
    );
    assert_eq!(
        StartupStep::Migrate.failure("syntax error").to_text(),
        "Failed to migrate one ore more tables: syntax error"
    );
    assert_eq!(
        StartupStep::Bind.failure("invalid socket address syntax").to_text(),
        "Failed to parse socket address: invalid socket address syntax"
    );
}

#[test]
fn server_error_keeps_its_message() {
    let error = ServerError::new("Server already running");
    assert_eq!(error.message(), "Server already running");
    assert_eq!(error.to_text(), "Server already running");
}

#[test]
fn store_error_keeps_its_message() {
    let error = StoreError::new("broken pipe");
    assert_eq!(error.kind(), StoreErrorKind::Query);
    assert_eq!(error.message(), "broken pipe");
    assert_eq!(error.to_text(), "broken pipe");
    let error = StoreError::with_kind(StoreErrorKind::Conflict, "id taken");
    assert_eq!(error.kind(), StoreErrorKind::Conflict);
    assert_eq!(error.message(), "id taken");
}

#[test]
fn store_failures_carry_the_cause() {
    let error = connection_failure("password authentication failed");
    assert_eq!(error.kind(), StoreErrorKind::Connection);
    assert_eq!(error.message(), "Failed to connect to database: password authentication failed");
    let error = migration_failure("relation exists");
    assert_eq!(error.kind(), StoreErrorKind::Migration);
    assert_eq!(error.message(), "Migration failed: relation exists");
}

#[test]
fn status_numbers() {
    assert_eq!(StatusCode::Success.number(), 200);
    assert_eq!(StatusCode::BadRequest.number(), 400);
    assert_eq!(StatusCode::InternalServerError.number(), 500);
}

#[test]
fn only_a_validation_failure_is_the_callers_fault() {
    assert_eq!(failure_status(StoreErrorKind::Validation), StatusCode::BadRequest);
    assert_eq!(failure_status(StoreErrorKind::NotFound), StatusCode::InternalServerError);
    assert_eq!(failure_status(StoreErrorKind::Query), StatusCode::InternalServerError);
    assert_eq!(failure_status(StoreErrorKind::Conflict), StatusCode::InternalServerError);
    assert_eq!(failure_status(StoreErrorKind::Connection), StatusCode::InternalServerError);
    assert_eq!(failure_status(StoreErrorKind::Migration), StatusCode::InternalServerError);
}

#[test]
fn found_entry_is_answered_with_success() {
    let (status, response) = get_media_entry(Ok(entry("m1")));
    assert_eq!(status, StatusCode::Success);
    assert_eq!(response.status(), "success");
    let (status, error, found) = response.into_parts();
    assert_eq!(status, "success");
    assert!(error.is_none());
    assert_eq!(found.unwrap().id, "m1");
}

#[test]
fn failed_read_is_answered_with_its_message() {
    let (status, response) = get_media_entry(Err(StoreError::new("timeout")));
    assert_eq!(status, StatusCode::InternalServerError);
    let (status, error, found) = response.into_parts();
    assert_eq!(status, "error");
    assert_eq!(error.unwrap(), "timeout");
    assert!(found.is_none());

    let refused = validate_media_id("short").unwrap_err();
    let (status, response) = get_media_entry(Err(refused));
    assert_eq!(status, StatusCode::BadRequest);
    let (_, error, _) = response.into_parts();
    assert_eq!(error.unwrap(), "Invalid media ID");
}

#[test]
fn list_is_answered_with_success() {
    let (status, response) = get_media_entries(Ok(vec![entry("m1"), entry("m2")]));
    assert_eq!(status, StatusCode::Success);
    assert_eq!(response.status(), "success");
    let (status, error, entries) = response.into_parts();
    assert_eq!(status, "success");
    assert!(error.is_none());
    let entries = entries.unwrap();
    assert_eq!(entries.len(), 2);
    assert_eq!(entries[0].id, "m1");
    assert_eq!(entries[1].id, "m2");
}

#[test]
fn empty_list_is_answered_with_success() {
    let (status, response) = get_media_entries(Ok(Vec::new()));
    assert_eq!(status, StatusCode::Success);
    let (status, error, entries) = response.into_parts();
    assert_eq!(status, "success");
    assert!(error.is_none());
    assert!(entries.unwrap().is_empty());
}

#[test]
fn failed_list_read_is_answered_with_its_message() {
    let (status, response) = get_media_entries(Err(StoreError::new("connection reset")));
    assert_eq!(status, StatusCode::InternalServerError);
    assert_eq!(status.number(), 500);
    assert_eq!(response.status(), "error");
    let (status, error, entries) = response.into_parts();
    assert_eq!(status, "error");
    assert_eq!(error.unwrap(), "connection reset");
    assert!(entries.is_none());
}

#[test]
fn failed_list_read_of_every_kind_has_its_status() {
    let kinds = [
        (StoreErrorKind::Validation, StatusCode::BadRequest),
        (StoreErrorKind::NotFound, StatusCode::InternalServerError),
        (StoreErrorKind::Query, StatusCode::InternalServerError),
        (StoreErrorKind::Conflict, StatusCode::InternalServerError),
        (StoreErrorKind::Connection, StatusCode::InternalServerError),
        (StoreErrorKind::Migration, StatusCode::InternalServerError),
    ];
    for (kind, expected) in kinds {
        let (status, response) = get_media_entries(Err(StoreError::with_kind(kind, "cause")));
        assert_eq!(status, expected);
        let (_, error, entries) = response.into_parts();
        assert_eq!(error.unwrap(), "cause");
        assert!(entries.is_none());
    }
}

#[test]
fn start_takes_its_steps_in_order() {
    let mut server = Server::new(config());
    match server.begin() {
        Startup::Take(step) => assert_eq!(step, StartupStep::Connect),
        other => panic!("unexpected: {:?}", other),
    }
    assert!(server.is_running());
    match StartupStep::Connect.after(Ok(())) {
        Startup::Take(step) => assert_eq!(step, StartupStep::Migrate),
        other => panic!("unexpected: {:?}", other),
    }
    match StartupStep::Migrate.after(Ok(())) {
        Startup::Take(step) => assert_eq!(step, StartupStep::Bind),
        other => panic!("unexpected: {:?}", other),
    }
    assert!(matches!(StartupStep::Bind.after(Ok(())), Startup::Serve));
}

#[test]
fn start_stops_at_the_first_failure() {
    match StartupStep::Connect.after(Err("no route to host".to_string())) {
        Startup::Fail(error) => {
            assert_eq!(error.message(), "Store creation failed: no route to host")
        }
        other => panic!("unexpected: {:?}", other),
    }
    match StartupStep::Migrate.after(Err("syntax error".to_string())) {
        Startup::Fail(error) => {
            assert_eq!(error.message(), "Failed to migrate one ore more tables: syntax error")
        }
        other => panic!("unexpected: {:?}", other),
    }
    match StartupStep::Bind.after(Err("invalid socket address syntax".to_string())) {
        Startup::Fail(error) => assert_eq!(
            error.message(),
            "Failed to parse socket address: invalid socket address syntax"
        ),
        other => panic!("unexpected: {:?}", other),
    }
}

#[test]
fn second_start_takes_no_step() {
    let mut server = Server::new(config());
    assert!(matches!(server.begin(), Startup::Take(_)));
    match server.begin() {
        Startup::Fail(error) => assert_eq!(error.message(), "Server already running"),
        other => panic!("unexpected: {:?}", other),
    }
    assert!(server.is_running());
}

#[test]
fn responses_carry_their_status() {
    let response = GetMediaEntriesResponse::success(Vec::new());
    assert_eq!(response.status(), "success");
    let response = GetMediaEntriesResponse::error("timeout");
    assert_eq!(response.status(), "error");
    let (_, error, entries) = response.into_parts();
    assert_eq!(error.unwrap(), "timeout");
    assert!(entries.is_none());
    let response = GetMediaEntryResponse::success(entry("m1"));
    assert_eq!(response.status(), "success");
    let response = GetMediaEntryResponse::error("Missing media ID");
    assert_eq!(response.status(), "error");
    let (_, error, found) = response.into_parts();
    assert_eq!(error.unwrap(), "Missing media ID");
    assert!(found.is_none());
    let response = CreateVinylResponse::success("Vinyl created");
    assert_eq!(response.message, "Vinyl created");
    assert_eq!(response.status, "success");
    let response = CreateVinylResponse::error("Internal Server Error");
    assert_eq!(response.message, "Internal Server Error");
    assert_eq!(response.status, "error");
}

#[test]
fn default_label_is_empty() {
    let label = Label::default();
    assert_eq!(label.id, "");
    assert_eq!(label.name, "");
    assert_eq!(label.label_code, "");
    assert_eq!(label.urls, "");
}

#[test]
fn conditions_rank_from_best_to_worst() {
    let order = [
        Condition::Mint,
        Condition::NearMint,
        Condition::VeryGoodPlus,
        Condition::VeryGood,
        Condition::Good,
        Condition::Poor,
        Condition::Generic,
    ];
    let ranks: Vec<u8> = order.iter().map(|c| c.rank()).collect();
    assert_eq!(ranks, vec![0, 1, 2, 3, 4, 5, 6]);
}

#[test]
fn fresh_id_has_the_form_of_an_id() {
    for _ in 0..50 {
        let id = generate_id();
        assert_eq!(id.chars().count(), 22);
        assert!(id.chars().all(|c| c.is_ascii_alphanumeric() || c == '_' || c == '-'));
        assert!(validate_media_id(&id).is_ok());
    }
}

#[test]
fn fresh_ids_differ() {
    assert_ne!(generate_id(), generate_id());
}
