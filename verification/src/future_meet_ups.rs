//! The next meetup as the database stores it: decoding of the row the
//! gateway reads.

use crate::ids::{be_value, Ulid};
use crate::meetups::{Date, FutureMeetUp, FutureMeetUpState};
use vstd::prelude::*;

verus! {

/// A row of the future-meetup query; the talk columns are empty until the
/// meetup is scheduled.
#[derive(Clone, Debug)]
pub struct FutureMeetUpRow {
    pub id: Vec<u8>,
    pub state: String,
    pub title: Option<String>,
    pub description: Option<String>,
    pub speaker: Option<String>,
    pub date: Date,
    pub location: String,
}

/// Why a stored future-meetup row does not decode.
#[derive(Debug)]
pub enum FutureMeetUpDecodeError {
    /// The id column does not hold 16 bytes; it holds `length`.
    InvalidId { length: usize },
    /// The state column names no state; it holds this text.
    UnknownState(String),
    /// The meetup is scheduled but its title, description or speaker is
    /// missing.
    MissingTalk,
}

/// The state stored under a name, with its talk where it is scheduled.
pub open spec fn stored_state_decodes_to(row: FutureMeetUpRow, state: FutureMeetUpState) -> bool {
    match state {
        FutureMeetUpState::Scheduled { title, description, speaker } => {
            &&& row.state@ == "Scheduled"@
            &&& row.title matches Some(t) && t@ == title@
            &&& row.description matches Some(d) && d@ == description@
            &&& row.speaker matches Some(s) && s@ == speaker@
        },
        FutureMeetUpState::CallForPapers => row.state@ == "CallForPapers"@,
        FutureMeetUpState::Voting => row.state@ == "Voting"@,
    }
}

/// The row names one of the three states.
pub open spec fn names_a_state(name: Seq<char>) -> bool {
    name == "Scheduled"@ || name == "CallForPapers"@ || name == "Voting"@
}

/// What decoding a future-meetup row gives: the meetup with the row's id,
/// state, date and location, or the error of the first column that does not
/// decode.
pub open spec fn future_meet_up_decode_result(
    row: FutureMeetUpRow,
    decoded: Result<FutureMeetUp, FutureMeetUpDecodeError>,
) -> bool {
    match decoded {
        Ok(m) => {
            &&& row.id@.len() == 16
            &&& m.id.0 == be_value(row.id@)
            &&& stored_state_decodes_to(row, m.state)
            &&& m.date == row.date
            &&& m.location@ == row.location@
        },
        Err(FutureMeetUpDecodeError::InvalidId { length }) => row.id@.len() != 16 && length
            == row.id.len(),
        Err(FutureMeetUpDecodeError::UnknownState(name)) => {
            &&& row.id@.len() == 16
            &&& !names_a_state(row.state@)
            &&& name@ == row.state@
        },
        Err(FutureMeetUpDecodeError::MissingTalk) => {
            &&& row.id@.len() == 16
            &&& row.state@ == "Scheduled"@
            &&& (row.title is None || row.description is None || row.speaker is None)
        },
    }
}

/// Decodes the row of the future-meetup query; the id is checked first,
/// then the state.
pub fn decode_future_meet_up(row: &FutureMeetUpRow) -> (decoded: Result<
    FutureMeetUp,
    FutureMeetUpDecodeError,
>)
    ensures
        future_meet_up_decode_result(*row, decoded),
{
    let id = match Ulid::from_slice(row.id.as_slice()) {
        Some(id) => id,
        None => return Err(FutureMeetUpDecodeError::InvalidId { length: row.id.len() }),
    };
    let state = if row.state == String::from_str("Scheduled") {
        let (title, description, speaker) = match (&row.title, &row.description, &row.speaker) {
            (Some(t), Some(d), Some(s)) => (t.clone(), d.clone(), s.clone()),
            _ => return Err(FutureMeetUpDecodeError::MissingTalk),
        };
        FutureMeetUpState::Scheduled { title, description, speaker }
    } else if row.state == String::from_str("CallForPapers") {
        FutureMeetUpState::CallForPapers
    } else if row.state == String::from_str("Voting") {
        FutureMeetUpState::Voting
    } else {
        return Err(FutureMeetUpDecodeError::UnknownState(row.state.clone()));
    };
    Ok(FutureMeetUp { id, state, date: row.date, location: row.location.clone() })
}

/// Law: the decoded state is the one the state column names, whatever the
/// talk columns hold: a `"Voting"` row is read as `Voting`, a
/// `"CallForPapers"` row as `CallForPapers`, and a decoded state comes only
/// from a row that names it, and the page shows it under the name the
/// row stored; the id keeps its bytes, and the date and location are the
/// row's.
pub proof fn law_future_meet_up_state_follows_state_column(
    row: FutureMeetUpRow,
    decoded: Result<FutureMeetUp, FutureMeetUpDecodeError>,
)
    requires
        future_meet_up_decode_result(row, decoded),
    ensures
        row.id@.len() == 16 && row.state@ == "Voting"@ ==> (decoded matches Ok(m)
            && m.state is Voting),
        row.id@.len() == 16 && row.state@ == "CallForPapers"@ ==> (decoded matches Ok(m)
            && m.state is CallForPapers),
        decoded matches Ok(m) ==> {
            &&& (m.state is Voting <==> row.state@ == "Voting"@)
            &&& (m.state is CallForPapers <==> row.state@ == "CallForPapers"@)
            &&& (m.state is Scheduled <==> row.state@ == "Scheduled"@)
            &&& crate::ids::be_bytes(m.id.0 as nat, 16) == row.id@
            &&& m.date.year == row.date.year && m.date.month == row.date.month
                && m.date.day == row.date.day
            &&& m.location@ == row.location@
            &&& crate::presenters::state_label(m.state) == row.state@
        },
{
    reveal_strlit("Voting");
    reveal_strlit("CallForPapers");
    reveal_strlit("Scheduled");
    assert("Voting"@.len() != "CallForPapers"@.len());
    assert("Voting"@.len() != "Scheduled"@.len());
    assert("Scheduled"@.len() != "CallForPapers"@.len());
    if row.id@.len() == 16 {
        crate::ids::law_bytes_ulid_round_trip(row.id@);
    }
}

} // verus!
