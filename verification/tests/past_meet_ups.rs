use rustcwb::ids::Ulid;
use rustcwb::meetups::{Date, Link};
use rustcwb::past_meet_ups::{
    decode_past_meet_up, decode_past_meet_up_list, decode_past_meet_up_metadata,
    past_meet_up_from_query, GetPastMeetUpError, PastMeetUpMetadataRow, PastMeetUpRow,
    RowDecodeError,
};

fn id_bytes(n: u8) -> Vec<u8> {
    let mut bytes = vec![0u8; 16];
    bytes[15] = n;
    bytes
}

fn date() -> Date {
    Date { year: 2021, month: 10, day: 10 }
}

fn row(id: Vec<u8>, link: &str) -> PastMeetUpRow {
    PastMeetUpRow {
        id,
        title: "Rust Meetup".to_string(),
        description: "This is a Rust Meetup".to_string(),
        speaker: "Bruno Clemente".to_string(),
        date: date(),
        link: link.to_string(),
    }
}

#[test]
fn link_parse_normalizes_the_url() {
    let link = Link::parse("https://www.rust-lang.org").unwrap();
    assert_eq!(link.href, "https://www.rust-lang.org/");
    let link = Link::parse("HTTPS://Example.COM/a/../b").unwrap();
    assert_eq!(link.href, "https://example.com/b");
    assert!(Link::parse("not a url").is_err());
}

#[test]
fn decodes_a_past_meet_up_row() {
    let m = decode_past_meet_up(&row(id_bytes(5), "https://www.rust-lang.org")).unwrap();
    assert_eq!(m.id, Ulid(5));
    assert_eq!(m.title, "Rust Meetup");
    assert_eq!(m.description, "This is a Rust Meetup");
    assert_eq!(m.speaker, "Bruno Clemente");
    assert_eq!(m.date, date());
    assert_eq!(m.link.href, "https://www.rust-lang.org/");
}

#[test]
fn row_with_short_id_does_not_decode() {
    let result = decode_past_meet_up(&row(vec![1, 2, 3], "not a url"));
    assert!(matches!(result, Err(RowDecodeError::InvalidId { length: 3 })));
}

#[test]
fn row_with_bad_link_does_not_decode() {
    let result = decode_past_meet_up(&row(id_bytes(1), "not a url"));
    assert!(matches!(
        result,
        Err(RowDecodeError::InvalidLink(url::ParseError::RelativeUrlWithoutBase))
    ));
}

#[test]
fn decodes_a_metadata_row() {
    let r = PastMeetUpMetadataRow { id: id_bytes(9), title: "Rust".to_string(), date: date() };
    let m = decode_past_meet_up_metadata(&r).unwrap();
    assert_eq!(m.id, Ulid(9));
    assert_eq!(m.title, "Rust");
    assert_eq!(m.date, date());
    let bad = PastMeetUpMetadataRow { id: vec![0; 20], title: String::new(), date: date() };
    assert!(matches!(
        decode_past_meet_up_metadata(&bad),
        Err(RowDecodeError::InvalidId { length: 20 })
    ));
}

#[test]
fn list_keeps_row_order() {
    let rows: Vec<PastMeetUpMetadataRow> = (1..=3)
        .map(|n| PastMeetUpMetadataRow { id: id_bytes(n), title: format!("m{n}"), date: date() })
        .collect();
    let list = decode_past_meet_up_list(&rows).unwrap();
    let ids: Vec<Ulid> = list.iter().map(|m| m.id).collect();
    assert_eq!(ids, vec![Ulid(1), Ulid(2), Ulid(3)]);
    assert_eq!(list[2].title, "m3");
    assert!(decode_past_meet_up_list(&vec![]).unwrap().is_empty());
}

#[test]
fn list_stops_at_first_bad_row() {
    let rows = vec![
        PastMeetUpMetadataRow { id: id_bytes(1), title: "a".to_string(), date: date() },
        PastMeetUpMetadataRow { id: vec![0; 4], title: "b".to_string(), date: date() },
        PastMeetUpMetadataRow { id: vec![0; 8], title: "c".to_string(), date: date() },
    ];
    assert!(matches!(
        decode_past_meet_up_list(&rows),
        Err(RowDecodeError::InvalidId { length: 4 })
    ));
}

#[test]
fn query_without_row_is_not_found() {
    let result = past_meet_up_from_query(Ulid(77), Ok(None));
    assert!(matches!(result, Err(GetPastMeetUpError::NotFound(Ulid(77)))));
}

#[test]
fn query_failure_is_a_database_error() {
    let result = past_meet_up_from_query(Ulid(77), Err(anyhow::Error::msg("locked")));
    match result {
        Err(GetPastMeetUpError::Database(e)) => assert_eq!(e.to_string(), "locked"),
        other => panic!("unexpected {other:?}"),
    }
}

#[test]
fn query_with_row_decodes_it() {
    let m = past_meet_up_from_query(Ulid(5), Ok(Some(row(id_bytes(5), "https://rust.cwb/x"))))
        .unwrap();
    assert_eq!(m.id, Ulid(5));
    assert_eq!(m.link.href, "https://rust.cwb/x");
    let bad = past_meet_up_from_query(Ulid(5), Ok(Some(row(id_bytes(5), "::"))));
    assert!(matches!(bad, Err(GetPastMeetUpError::Decode(RowDecodeError::InvalidLink(_)))));
}

#[test]
fn sample_past_meet_up_fields() {
    let m = rustcwb::meetups::sample_past_meet_up(Ulid(12)).unwrap();
    assert_eq!(m.id, Ulid(12));
    assert_eq!(m.title, "Rust Meetup");
    assert_eq!(m.description, "This is a Rust Meetup");
    assert_eq!(m.speaker, "Bruno Clemente");
    assert_eq!(m.date, Date { year: 2021, month: 10, day: 10 });
    assert_eq!(m.link.href, "https://www.rust-lang.org/");
    let meta = rustcwb::meetups::sample_past_meet_up_metadata(Ulid(13));
    assert_eq!(meta.id, Ulid(13));
    assert_eq!(meta.title, "Rust Meetup");
    assert_eq!(meta.date, Date { year: 2021, month: 10, day: 10 });
}

#[test]
fn link_parse_carries_the_parsers_error() {
    assert!(matches!(Link::parse(""), Err(url::ParseError::RelativeUrlWithoutBase)));
    assert!(matches!(Link::parse("http://"), Err(url::ParseError::EmptyHost)));
    assert!(matches!(Link::parse("http://example.com:99999"), Err(url::ParseError::InvalidPort)));
    let result = decode_past_meet_up(&row(id_bytes(1), "http://"));
    assert!(matches!(result, Err(RowDecodeError::InvalidLink(url::ParseError::EmptyHost))));
}
