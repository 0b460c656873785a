//! The meetup domain: meetups and their states, papers, users, and the
//! records kept of past meetups.

use crate::ids::Ulid;
use vstd::prelude::*;

verus! {

/// Where a meetup stands in its planning.
#[derive(Clone, Copy, Debug, PartialEq, Eq, Structural)]
pub enum MeetUpState {
    CallForPapers,
    Voting,
    Scheduled,
}

/// A meetup as the call-for-papers use cases see it.
#[derive(Clone, Copy, Debug, PartialEq, Eq, Structural)]
pub struct MeetUp {
    pub id: Ulid,
    pub state: MeetUpState,
}

/// A member of the site.
#[derive(Clone, Debug)]
pub struct User {
    pub id: Ulid,
    pub nickname: String,
}

/// A talk proposal sent by a user for a meetup.
#[derive(Clone, Debug)]
pub struct Paper {
    pub id: Ulid,
    pub user_id: Ulid,
    pub title: String,
    pub description: String,
}

/// A calendar date (what `chrono::NaiveDate` holds), by year, month and day.
#[derive(Clone, Copy, Debug, PartialEq, Eq, Structural)]
pub struct Date {
    pub year: i32,
    pub month: u32,
    pub day: u32,
}

/// The planning state of the next meetup, with the talk once scheduled.
#[derive(Clone, Debug)]
pub enum FutureMeetUpState {
    Scheduled { title: String, description: String, speaker: String },
    CallForPapers,
    Voting,
}

/// The next meetup.
#[derive(Clone, Debug)]
pub struct FutureMeetUp {
    pub id: Ulid,
    pub state: FutureMeetUpState,
    pub date: Date,
    pub location: String,
}

/// A link, held as the serialization of the URL it was parsed into.
#[derive(Clone, Debug)]
pub struct Link {
    pub href: String,
}

/// A refusal of `url::Url::parse`.
#[verifier::external_type_specification]
#[verifier::external_body]
pub struct ExUrlParseError(url::ParseError);

/// What `url::Url::parse` makes of `input`: the serialization of the
/// parsed URL (`Url::as_str`), or the `ParseError` it refuses the input
/// with.
pub uninterp spec fn url_parse(input: Seq<char>) -> Result<Seq<char>, url::ParseError>;

/// Calls `url::Url::parse` and hands back the parsed URL's serialization,
/// or the parser's own error. The contract ties both to the name
/// `url_parse`.
#[verifier::external_body]
fn parse_url(input: &str) -> (parsed: Result<String, url::ParseError>)
    ensures
        match parsed {
            Ok(href) => url_parse(input@) == Ok::<Seq<char>, url::ParseError>(href@),
            Err(e) => url_parse(input@) == Err::<Seq<char>, url::ParseError>(e),
        },
{
    match url::Url::parse(input) {
        Ok(url) => Ok(String::from(url.as_str())),
        Err(e) => Err(e),
    }
}

impl Link {
    /// Parses a URL into a link: `Ok` exactly where `url::Url::parse`
    /// accepts the input, holding the parsed URL's serialization, and
    /// otherwise the error the parser refused it with.
    pub fn parse(input: &str) -> (link: Result<Link, url::ParseError>)
        ensures
            match link {
                Ok(l) => url_parse(input@) == Ok::<Seq<char>, url::ParseError>(l.href@),
                Err(e) => url_parse(input@) == Err::<Seq<char>, url::ParseError>(e),
            },
    {
        match parse_url(input) {
            Ok(href) => Ok(Link { href }),
            Err(e) => Err(e),
        }
    }
}

/// What the list of past meetups shows of each.
#[derive(Clone, Debug)]
pub struct PastMeetUpMetadata {
    pub id: Ulid,
    pub title: String,
    pub date: Date,
}

/// A past meetup with its talk.
#[derive(Clone, Debug)]
pub struct PastMeetUp {
    pub id: Ulid,
    pub title: String,
    pub description: String,
    pub speaker: String,
    pub date: Date,
    pub link: Link,
}

impl PastMeetUpMetadata {
    /// Gathers the listed fields of a past meetup.
    pub fn new(id: Ulid, title: String, date: Date) -> (m: PastMeetUpMetadata)
        ensures
            m.id == id,
            m.title@ == title@,
            m.date == date,
    {
        PastMeetUpMetadata { id, title, date }
    }
}

impl PastMeetUp {
    /// Gathers the fields of a past meetup.
    pub fn new(
        id: Ulid,
        title: String,
        description: String,
        speaker: String,
        date: Date,
        link: Link,
    ) -> (m: PastMeetUp)
        ensures
            m.id == id,
            m.title@ == title@,
            m.description@ == description@,
            m.speaker@ == speaker@,
            m.date == date,
            m.link.href@ == link.href@,
    {
        PastMeetUp { id, title, description, speaker, date, link }
    }
}

/// The date the sample past meetup is shown with: 10 October 2021.
pub open spec fn sample_date() -> Date {
    Date { year: 2021, month: 10, day: 10 }
}

/// The past meetup that the meetup pages show under the id `id` (the pages
/// show this sample whatever meetup is asked for). `Err` only where
/// `url::Url::parse` refuses its link, with the parser's error.
pub fn sample_past_meet_up(id: Ulid) -> (m: Result<PastMeetUp, url::ParseError>)
    ensures
        match m {
            Ok(m) => {
                &&& m.id == id
                &&& m.title@ == "Rust Meetup"@
                &&& m.description@ == "This is a Rust Meetup"@
                &&& m.speaker@ == "Bruno Clemente"@
                &&& m.date == sample_date()
                &&& url_parse("https://www.rust-lang.org"@) == Ok::<Seq<char>, url::ParseError>(
                    m.link.href@,
                )
            },
            Err(e) => url_parse("https://www.rust-lang.org"@) == Err::<Seq<char>, url::ParseError>(
                e,
            ),
        },
{
    let link = match Link::parse("https://www.rust-lang.org") {
        Ok(link) => link,
        Err(e) => return Err(e),
    };
    Ok(
        PastMeetUp::new(
            id,
            String::from_str("Rust Meetup"),
            String::from_str("This is a Rust Meetup"),
            String::from_str("Bruno Clemente"),
            Date { year: 2021, month: 10, day: 10 },
            link,
        ),
    )
}

/// What the list shows of the sample past meetup, under the id `id`.
pub fn sample_past_meet_up_metadata(id: Ulid) -> (m: PastMeetUpMetadata)
    ensures
        m.id == id,
        m.title@ == "Rust Meetup"@,
        m.date == sample_date(),
{
    PastMeetUpMetadata::new(id, String::from_str("Rust Meetup"), Date { year: 2021, month: 10, day: 10 })
}

} // verus!
