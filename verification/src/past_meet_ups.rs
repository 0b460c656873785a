//! Past meetups as the database stores them: decoding of the rows the
//! gateway reads, and the answers to the gateway's queries.

use crate::ids::{be_bytes, be_value, law_bytes_ulid_round_trip, Ulid};
use crate::meetups::{url_parse, Date, Link, PastMeetUp, PastMeetUpMetadata};
use vstd::prelude::*;

verus! {

/// A row of the list query (`id`, `title`, `date`).
#[derive(Clone, Debug)]
pub struct PastMeetUpMetadataRow {
    pub id: Vec<u8>,
    pub title: String,
    pub date: Date,
}

/// A row of the single-meetup query.
#[derive(Clone, Debug)]
pub struct PastMeetUpRow {
    pub id: Vec<u8>,
    pub title: String,
    pub description: String,
    pub speaker: String,
    pub date: Date,
    pub link: String,
}

/// Why a stored row does not decode.
#[derive(Debug)]
pub enum RowDecodeError {
    /// The id column does not hold 16 bytes; it holds `length`.
    InvalidId { length: usize },
    /// The link column is refused by `url::Url::parse`.
    InvalidLink(url::ParseError),
}

/// Why a past meetup could not be read.
#[derive(Debug)]
pub enum GetPastMeetUpError {
    /// No meetup has this id.
    NotFound(Ulid),
    /// The stored row does not decode.
    Decode(RowDecodeError),
    /// The database failed; its error is carried through.
    Database(anyhow::Error),
}

/// The listed fields of a row decode into `m`.
pub open spec fn metadata_decodes_to(row: PastMeetUpMetadataRow, m: PastMeetUpMetadata) -> bool {
    &&& row.id@.len() == 16
    &&& m.id.0 == be_value(row.id@)
    &&& m.title@ == row.title@
    &&& m.date == row.date
}

/// The row decodes into `m`.
pub open spec fn past_meet_up_decodes_to(row: PastMeetUpRow, m: PastMeetUp) -> bool {
    &&& row.id@.len() == 16
    &&& m.id.0 == be_value(row.id@)
    &&& m.title@ == row.title@
    &&& m.description@ == row.description@
    &&& m.speaker@ == row.speaker@
    &&& m.date == row.date
    &&& url_parse(row.link@) == Ok::<Seq<char>, url::ParseError>(m.link.href@)
}

/// What decoding a row of the list query gives: its listed fields, or
/// `InvalidId` with the id's length where the id is not 16 bytes.
pub open spec fn metadata_decode_result(
    row: PastMeetUpMetadataRow,
    decoded: Result<PastMeetUpMetadata, RowDecodeError>,
) -> bool {
    match decoded {
        Ok(m) => metadata_decodes_to(row, m),
        Err(e) => row.id@.len() != 16 && e == (RowDecodeError::InvalidId {
            length: row.id.len(),
        }),
    }
}

/// What decoding a row of the single-meetup query gives: the meetup, or the
/// error of the id (checked first) or of the link.
pub open spec fn past_meet_up_decode_result(
    row: PastMeetUpRow,
    decoded: Result<PastMeetUp, RowDecodeError>,
) -> bool {
    match decoded {
        Ok(m) => past_meet_up_decodes_to(row, m),
        Err(RowDecodeError::InvalidId { length }) => row.id@.len() != 16 && length
            == row.id.len(),
        Err(RowDecodeError::InvalidLink(e)) => row.id@.len() == 16 && url_parse(row.link@)
            == Err::<Seq<char>, url::ParseError>(e),
    }
}

/// Decodes a row of the list query.
pub fn decode_past_meet_up_metadata(row: &PastMeetUpMetadataRow) -> (decoded: Result<
    PastMeetUpMetadata,
    RowDecodeError,
>)
    ensures
        metadata_decode_result(*row, decoded),
{
    match Ulid::from_slice(row.id.as_slice()) {
        Some(id) => Ok(PastMeetUpMetadata::new(id, row.title.clone(), row.date)),
        None => Err(RowDecodeError::InvalidId { length: row.id.len() }),
    }
}

/// Decodes a row of the single-meetup query; the id is checked before the
/// link.
pub fn decode_past_meet_up(row: &PastMeetUpRow) -> (decoded: Result<PastMeetUp, RowDecodeError>)
    ensures
        past_meet_up_decode_result(*row, decoded),
{
    let id = match Ulid::from_slice(row.id.as_slice()) {
        Some(id) => id,
        None => return Err(RowDecodeError::InvalidId { length: row.id.len() }),
    };
    let link = match Link::parse(row.link.as_str()) {
        Ok(link) => link,
        Err(e) => return Err(RowDecodeError::InvalidLink(e)),
    };
    Ok(
        PastMeetUp::new(
            id,
            row.title.clone(),
            row.description.clone(),
            row.speaker.clone(),
            row.date,
            link,
        ),
    )
}

/// Decodes the rows of the list query in their order, stopping at the
/// first row that does not decode.
pub fn decode_past_meet_up_list(rows: &Vec<PastMeetUpMetadataRow>) -> (decoded: Result<
    Vec<PastMeetUpMetadata>,
    RowDecodeError,
>)
    ensures
        match decoded {
            Ok(list) => list@.len() == rows@.len() && forall|i: int|
                0 <= i < rows@.len() ==> metadata_decodes_to(#[trigger] rows@[i], list@[i]),
            Err(e) => exists|k: int|
                0 <= k < rows@.len() && #[trigger] rows@[k].id@.len() != 16 && (forall|j: int|
                    0 <= j < k ==> rows@[j].id@.len() == 16) && e == (RowDecodeError::InvalidId {
                    length: rows@[k].id.len(),
                }),
        },
{
    let mut list: Vec<PastMeetUpMetadata> = Vec::new();
    let mut i: usize = 0;
    while i < rows.len()
        invariant
            i <= rows@.len(),
            list@.len() == i,
            forall|j: int| 0 <= j < i ==> metadata_decodes_to(#[trigger] rows@[j], list@[j]),
        decreases rows@.len() - i,
    {
        match decode_past_meet_up_metadata(&rows[i]) {
            Ok(m) => {
                list.push(m);
            },
            Err(e) => {
                assert(forall|j: int| 0 <= j < i ==> rows@[j].id@.len() == 16) by {
                    assert forall|j: int| 0 <= j < i implies rows@[j].id@.len() == 16 by {
                        assert(metadata_decodes_to(rows@[j], list@[j]));
                    }
                }
                return Err(e);
            },
        }
        i = i + 1;
    }
    Ok(list)
}

/// Answers a request for the past meetup `id` from what the database
/// returned: `NotFound(id)` where no row came back, the decoded row where
/// one did, the decoding or database failure otherwise.
pub fn past_meet_up_from_query(
    id: Ulid,
    fetched: Result<Option<PastMeetUpRow>, anyhow::Error>,
) -> (answer: Result<PastMeetUp, GetPastMeetUpError>)
    ensures
        match fetched {
            Err(e) => answer == Err::<PastMeetUp, GetPastMeetUpError>(
                GetPastMeetUpError::Database(e),
            ),
            Ok(None) => answer == Err::<PastMeetUp, GetPastMeetUpError>(
                GetPastMeetUpError::NotFound(id),
            ),
            Ok(Some(row)) => match answer {
                Ok(m) => past_meet_up_decodes_to(row, m),
                Err(GetPastMeetUpError::Decode(RowDecodeError::InvalidId { length })) => row.id@.len()
                    != 16 && length == row.id.len(),
                Err(GetPastMeetUpError::Decode(RowDecodeError::InvalidLink(e))) => row.id@.len()
                    == 16 && url_parse(row.link@) == Err::<Seq<char>, url::ParseError>(e),
                _ => false,
            },
        },
{
    match fetched {
        Err(e) => Err(GetPastMeetUpError::Database(e)),
        Ok(None) => Err(GetPastMeetUpError::NotFound(id)),
        Ok(Some(row)) => match decode_past_meet_up(&row) {
            Ok(m) => Ok(m),
            Err(e) => Err(GetPastMeetUpError::Decode(e)),
        },
    }
}

/// Law: a listed past meetup gives back its row: its id's 16 bytes are the
/// row's id bytes, and its title and date (year, month and day) are the
/// row's.
pub proof fn law_listed_meet_up_gives_back_its_row(row: PastMeetUpMetadataRow, m: PastMeetUpMetadata)
    requires
        metadata_decodes_to(row, m),
    ensures
        be_bytes(m.id.0 as nat, 16) == row.id@,
        m.title@ == row.title@,
        m.date.year == row.date.year && m.date.month == row.date.month && m.date.day
            == row.date.day,
{
    law_bytes_ulid_round_trip(row.id@);
}

/// Law: a row of the list query decodes exactly when its id holds 16 bytes,
/// and what it decodes to gives back the row.
pub proof fn law_metadata_row_decodes_when_id_fits(
    row: PastMeetUpMetadataRow,
    decoded: Result<PastMeetUpMetadata, RowDecodeError>,
)
    requires
        metadata_decode_result(row, decoded),
    ensures
        decoded is Ok <==> row.id@.len() == 16,
        decoded matches Ok(m) ==> be_bytes(m.id.0 as nat, 16) == row.id@ && m.title@
            == row.title@ && m.date.year == row.date.year && m.date.month == row.date.month
            && m.date.day == row.date.day,
{
    if let Ok(m) = decoded {
        law_listed_meet_up_gives_back_its_row(row, m);
    }
}

/// Law: a past meetup decodes exactly when its id holds 16 bytes and
/// `url::Url::parse` accepts its link, and what it decodes to gives back the
/// row: the id's bytes, the title, description, speaker, the date (year,
/// month and day) and the parsed link.
pub proof fn law_past_meet_up_gives_back_its_row(
    row: PastMeetUpRow,
    decoded: Result<PastMeetUp, RowDecodeError>,
)
    requires
        past_meet_up_decode_result(row, decoded),
    ensures
        decoded is Ok <==> (row.id@.len() == 16 && url_parse(row.link@) is Ok),
        decoded matches Ok(m) ==> {
            &&& be_bytes(m.id.0 as nat, 16) == row.id@
            &&& m.title@ == row.title@
            &&& m.description@ == row.description@
            &&& m.speaker@ == row.speaker@
            &&& m.date.year == row.date.year && m.date.month == row.date.month
                && m.date.day == row.date.day
            &&& url_parse(row.link@) == Ok::<Seq<char>, url::ParseError>(m.link.href@)
        },
{
    if row.id@.len() == 16 {
        law_bytes_ulid_round_trip(row.id@);
    }
}

} // verus!
