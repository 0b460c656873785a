//! What the pages show of users, of the next meetup and of talk
//! descriptions.

use crate::ids::Ulid;
use crate::meetups::{Date, FutureMeetUp, FutureMeetUpState, User};
use vstd::prelude::*;

verus! {

/// How many characters of a nickname the pages show.
pub const NICKNAME_SHOWN_CHARS: usize = 10;

/// A user as the pages show them.
#[derive(Clone, Debug)]
pub struct UserPresenter {
    pub nickname: String,
}

/// The next meetup as the pages show it.
#[derive(Clone, Debug)]
pub struct FutureMeetUpPresenter {
    pub id: Ulid,
    pub title: String,
    pub state: String,
    pub description: String,
    pub speaker: String,
    pub date: Date,
    pub location: String,
}

/// The first `NICKNAME_SHOWN_CHARS` characters of a nickname (all of it
/// when shorter).
pub open spec fn shown_nickname(nickname: Seq<char>) -> Seq<char> {
    if nickname.len() <= NICKNAME_SHOWN_CHARS {
        nickname
    } else {
        nickname.subrange(0, NICKNAME_SHOWN_CHARS as int)
    }
}

/// The name under which a meetup state is shown.
pub open spec fn state_label(state: FutureMeetUpState) -> Seq<char> {
    match state {
        FutureMeetUpState::Scheduled { .. } => "Scheduled"@,
        FutureMeetUpState::CallForPapers => "CallForPapers"@,
        FutureMeetUpState::Voting => "Voting"@,
    }
}

impl UserPresenter {
    /// Shows a user by the first ten characters of their nickname.
    pub fn from(user: User) -> (presenter: UserPresenter)
        ensures
            presenter.nickname@ == shown_nickname(user.nickname@),
    {
        let nickname = user.nickname.as_str();
        let n = nickname.unicode_len();
        let shown = if n <= NICKNAME_SHOWN_CHARS {
            n
        } else {
            NICKNAME_SHOWN_CHARS
        };
        let kept = nickname.substring_char(0, shown).to_owned();
        proof {
            if n <= NICKNAME_SHOWN_CHARS {
                assert(user.nickname@.subrange(0, n as int) =~= user.nickname@);
            }
        }
        UserPresenter { nickname: kept }
    }
}

impl FutureMeetUpPresenter {
    /// Shows the next meetup: its state by name, and the title, description
    /// and speaker of its talk once it is scheduled (empty before).
    pub fn from(meetup: FutureMeetUp) -> (presenter: FutureMeetUpPresenter)
        ensures
            presenter.id == meetup.id,
            presenter.date == meetup.date,
            presenter.location@ == meetup.location@,
            presenter.state@ == state_label(meetup.state),
            match meetup.state {
                FutureMeetUpState::Scheduled { title, description, speaker } => {
                    &&& presenter.title@ == title@
                    &&& presenter.description@ == description@
                    &&& presenter.speaker@ == speaker@
                },
                _ => {
                    &&& presenter.title@ == Seq::<char>::empty()
                    &&& presenter.description@ == Seq::<char>::empty()
                    &&& presenter.speaker@ == Seq::<char>::empty()
                },
            },
    {
        let (state, title, description, speaker) = match meetup.state {
            FutureMeetUpState::Scheduled { title, description, speaker } => (
                String::from_str("Scheduled"),
                title,
                description,
                speaker,
            ),
            FutureMeetUpState::CallForPapers => (
                String::from_str("CallForPapers"),
                String::new(),
                String::new(),
                String::new(),
            ),
            FutureMeetUpState::Voting => (
                String::from_str("Voting"),
                String::new(),
                String::new(),
                String::new(),
            ),
        };
        FutureMeetUpPresenter {
            id: meetup.id,
            title,
            state,
            description,
            speaker,
            date: meetup.date,
            location: meetup.location,
        }
    }
}

/// Law: a presented nickname is a prefix of the nickname of at most
/// `NICKNAME_SHOWN_CHARS` characters, and a nickname that short is shown
/// whole.
pub proof fn law_shown_nickname_is_short_prefix(nickname: Seq<char>)
    ensures
        shown_nickname(nickname).len() <= NICKNAME_SHOWN_CHARS,
        shown_nickname(nickname).is_prefix_of(nickname),
        nickname.len() <= NICKNAME_SHOWN_CHARS ==> shown_nickname(nickname) == nickname,
        nickname.len() >= NICKNAME_SHOWN_CHARS ==> shown_nickname(nickname).len()
            == NICKNAME_SHOWN_CHARS,
{
    assert(shown_nickname(nickname).is_prefix_of(nickname)) by {
        assert(nickname.subrange(0, shown_nickname(nickname).len() as int) =~= shown_nickname(nickname));
    }
}

/// The HTML that `markdown::to_html` (CommonMark) makes of `md`.
pub uninterp spec fn markdown_html(md: Seq<char>) -> Seq<char>;

/// Calls `markdown::to_html`; the contract names its result
/// `markdown_html`.
#[verifier::external_body]
fn markdown_to_html(md: &str) -> (html: String)
    ensures
        html@ == markdown_html(md@),
{
    markdown::to_html(md)
}

/// Renders a talk description, written in Markdown, as HTML.
pub fn md_to_html(md: &str) -> (html: String)
    ensures
        html@ == markdown_html(md@),
{
    markdown_to_html(md)
}

} // verus!
