use vinyld::types::{MediaType, UnknownMediaType};

#[test]
fn kind_from_its_name() {
    assert_eq!(MediaType::try_from("vinyl".to_string()).unwrap(), MediaType::Vinyl);
    assert_eq!(MediaType::try_from("tape".to_string()).unwrap(), MediaType::Tape);
    assert_eq!(MediaType::try_from("cd".to_string()).unwrap(), MediaType::Cd);
}

#[test]
fn kind_from_its_name_in_any_case() {
    assert_eq!(MediaType::try_from("VINYL".to_string()).unwrap(), MediaType::Vinyl);
    assert_eq!(MediaType::try_from("Tape".to_string()).unwrap(), MediaType::Tape);
    assert_eq!(MediaType::try_from("cD".to_string()).unwrap(), MediaType::Cd);
}

#[test]
fn kind_from_an_unknown_name_is_refused() {
    for name in ["cassette", "dvd", "", " tape", "vinyl ", "Vinyls"] {
        let refusal = MediaType::try_from(name.to_string()).unwrap_err();
        assert_eq!(refusal.name, name);
    }
}

#[test]
fn refusal_names_what_was_refused() {
    let refusal = MediaType::try_from("DVD".to_string()).unwrap_err();
    assert_eq!(refusal.name, "DVD");
    assert_eq!(refusal.to_text(), "Unknown media type: DVD");
    let refusal = UnknownMediaType { name: String::new() };
    assert_eq!(refusal.to_text(), "Unknown media type: ");
}

#[test]
fn parse_refuses_an_unknown_name() {
    assert_eq!(MediaType::parse("TAPE"), Some(MediaType::Tape));
    assert_eq!(MediaType::parse("Cd"), Some(MediaType::Cd));
    assert_eq!(MediaType::parse("cassette"), None);
    assert_eq!(MediaType::parse(""), None);
}

#[test]
fn parse_lowercase_is_strict_about_case() {
    assert_eq!(MediaType::parse_lowercase("vinyl"), Some(MediaType::Vinyl));
    assert_eq!(MediaType::parse_lowercase("tape"), Some(MediaType::Tape));
    assert_eq!(MediaType::parse_lowercase("cd"), Some(MediaType::Cd));
    assert_eq!(MediaType::parse_lowercase("Tape"), None);
    assert_eq!(MediaType::parse_lowercase("CD"), None);
}

#[test]
fn name_reads_back_as_the_kind() {
    assert_eq!(MediaType::Vinyl.name(), "vinyl");
    assert_eq!(MediaType::Tape.name(), "tape");
    assert_eq!(MediaType::Cd.name(), "cd");
    for kind in [MediaType::Vinyl, MediaType::Tape, MediaType::Cd] {
        assert_eq!(MediaType::parse_lowercase(&kind.name()), Some(kind));
    }
}
