use rustcwb::ids::Ulid;
use rustcwb::meetups::{Date, FutureMeetUp, FutureMeetUpState, User};
use rustcwb::presenters::{md_to_html, FutureMeetUpPresenter, UserPresenter};

fn user(nickname: &str) -> User {
    User { id: Ulid(1), nickname: nickname.to_string() }
}

#[test]
fn nickname_is_cut_to_ten_characters() {
    assert_eq!(UserPresenter::from(user("abcdefghijklmnop")).nickname, "abcdefghij");
    assert_eq!(UserPresenter::from(user("abcdefghij")).nickname, "abcdefghij");
    assert_eq!(UserPresenter::from(user("short")).nickname, "short");
    assert_eq!(UserPresenter::from(user("")).nickname, "");
}

#[test]
fn nickname_is_cut_by_characters_not_bytes() {
    assert_eq!(UserPresenter::from(user("ÁÉÍÓÚáéíóúçã")).nickname, "ÁÉÍÓÚáéíóú");
}

fn future(state: FutureMeetUpState) -> FutureMeetUp {
    FutureMeetUp {
        id: Ulid(3),
        state,
        date: Date { year: 2024, month: 6, day: 20 },
        location: "Curitiba".to_string(),
    }
}

#[test]
fn scheduled_meet_up_shows_its_talk() {
    let p = FutureMeetUpPresenter::from(future(FutureMeetUpState::Scheduled {
        title: "Async".to_string(),
        description: "About async".to_string(),
        speaker: "Ana".to_string(),
    }));
    assert_eq!(p.state, "Scheduled");
    assert_eq!(p.title, "Async");
    assert_eq!(p.description, "About async");
    assert_eq!(p.speaker, "Ana");
    assert_eq!(p.id, Ulid(3));
    assert_eq!(p.date, Date { year: 2024, month: 6, day: 20 });
    assert_eq!(p.location, "Curitiba");
}

#[test]
fn unscheduled_meet_ups_show_no_talk() {
    let p = FutureMeetUpPresenter::from(future(FutureMeetUpState::CallForPapers));
    assert_eq!(p.state, "CallForPapers");
    assert_eq!((p.title.as_str(), p.description.as_str(), p.speaker.as_str()), ("", "", ""));
    let p = FutureMeetUpPresenter::from(future(FutureMeetUpState::Voting));
    assert_eq!(p.state, "Voting");
    assert_eq!(p.title, "");
    assert_eq!(p.location, "Curitiba");
}

#[test]
fn markdown_description_becomes_html() {
    assert_eq!(md_to_html("# Hi Mercury!"), "<h1>Hi Mercury!</h1>");
    assert_eq!(md_to_html("*Rust*"), "<p><em>Rust</em></p>");
}
