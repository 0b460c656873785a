//! The call-for-papers use cases. Each one waits on gateways between its
//! decisions, so each is a state machine: the caller performs the action the
//! machine asks for and feeds the outcome back as the next event.

use crate::ids::Ulid;
use crate::meetups::{MeetUp, MeetUpState, Paper};
use vstd::prelude::*;

verus! {

/// How many papers a user may send for one meetup.
pub const MAX_PAPERS_PER_USER_PER_MEET_UP: u8 = 2;

/// An error reported by a gateway, carried through unchanged.
#[verifier::external_type_specification]
#[verifier::external_body]
pub struct ExAnyhowError(anyhow::Error);

/// Why the paper gateway refused to store a paper.
#[derive(Debug)]
pub enum StorePaperError {
    /// The user already sent as many papers as the limit (carried) allows.
    MoreThanLimitPapersPerUserPerMeetUp(u8),
    /// Any other failure of the gateway.
    Other(anyhow::Error),
}

/// The failure that an unexpected submission error wraps, kept whole.
#[derive(Debug)]
pub enum UnknownError {
    /// The meetup gateway failed with this error.
    MeetUpGateway(anyhow::Error),
    /// The paper gateway refused the paper with this error (any refusal
    /// other than the limit).
    PaperGateway(StorePaperError),
}

/// Why a paper could not be submitted.
#[derive(Debug)]
pub enum SubmitPaperError {
    InvalidMeetUpState(Box<MeetUpState>),
    NoFutureMeetUpFound,
    MoreThanLimitPapersPerUserPerMeetUp(u8),
    Unknown(UnknownError),
}

/// Where a paper submission stands.
#[derive(Debug)]
pub enum SubmitPaperState {
    Start,
    AwaitingFutureMeetUp,
    AwaitingStore,
    Finished,
}

/// What the caller reports back to a paper submission.
#[derive(Debug)]
pub enum SubmitPaperEvent {
    /// The submission starts.
    Begin,
    /// The meetup gateway answered the request for the future meetup.
    FutureMeetUpFetched(Result<Option<MeetUp>, anyhow::Error>),
    /// The paper gateway answered the request to store the paper.
    PaperStored(Result<(), StorePaperError>),
}

/// What a paper submission asks the caller to do next.
#[derive(Debug)]
pub enum SubmitPaperAction {
    /// Ask the meetup gateway for the future meetup.
    FetchFutureMeetUp,
    /// Ask the paper gateway to store the paper for this meetup, refusing
    /// it if the user already sent `limit` papers for it.
    StorePaper { meet_up_id: Ulid, limit: u8 },
    /// Return this result to the user.
    Finish(Result<(), SubmitPaperError>),
}

/// The event is one that a paper submission in `state` waits for.
pub open spec fn submit_paper_expects(state: SubmitPaperState, event: SubmitPaperEvent) -> bool {
    match state {
        SubmitPaperState::Start => event is Begin,
        SubmitPaperState::AwaitingFutureMeetUp => event is FutureMeetUpFetched,
        SubmitPaperState::AwaitingStore => event is PaperStored,
        SubmitPaperState::Finished => false,
    }
}

/// The decisions of a paper submission: from the state and the event, the
/// next state and the action.
pub open spec fn submit_paper_next(state: SubmitPaperState, event: SubmitPaperEvent) -> (
    SubmitPaperState,
    SubmitPaperAction,
) {
    match event {
        SubmitPaperEvent::Begin => (
            SubmitPaperState::AwaitingFutureMeetUp,
            SubmitPaperAction::FetchFutureMeetUp,
        ),
        SubmitPaperEvent::FutureMeetUpFetched(fetched) => match fetched {
            Err(e) => (
                SubmitPaperState::Finished,
                SubmitPaperAction::Finish(
                    Err(SubmitPaperError::Unknown(UnknownError::MeetUpGateway(e))),
                ),
            ),
            Ok(None) => (
                SubmitPaperState::Finished,
                SubmitPaperAction::Finish(Err(SubmitPaperError::NoFutureMeetUpFound)),
            ),
            Ok(Some(meet_up)) => if meet_up.state == MeetUpState::CallForPapers {
                (
                    SubmitPaperState::AwaitingStore,
                    SubmitPaperAction::StorePaper {
                        meet_up_id: meet_up.id,
                        limit: MAX_PAPERS_PER_USER_PER_MEET_UP,
                    },
                )
            } else {
                (
                    SubmitPaperState::Finished,
                    SubmitPaperAction::Finish(
                        Err(SubmitPaperError::InvalidMeetUpState(Box::new(meet_up.state))),
                    ),
                )
            },
        },
        SubmitPaperEvent::PaperStored(stored) => (
            SubmitPaperState::Finished,
            SubmitPaperAction::Finish(
                match stored {
                    Ok(()) => Ok(()),
                    Err(StorePaperError::MoreThanLimitPapersPerUserPerMeetUp(limit)) => Err(
                        SubmitPaperError::MoreThanLimitPapersPerUserPerMeetUp(limit),
                    ),
                    Err(err) => Err(SubmitPaperError::Unknown(UnknownError::PaperGateway(err))),
                },
            ),
        ),
    }
}

/// One step of a paper submission.
pub fn submit_paper_step(state: SubmitPaperState, event: SubmitPaperEvent) -> (next: (
    SubmitPaperState,
    SubmitPaperAction,
))
    requires
        submit_paper_expects(state, event),
    ensures
        next == submit_paper_next(state, event),
{
    match event {
        SubmitPaperEvent::Begin => (
            SubmitPaperState::AwaitingFutureMeetUp,
            SubmitPaperAction::FetchFutureMeetUp,
        ),
        SubmitPaperEvent::FutureMeetUpFetched(fetched) => match fetched {
            Err(e) => (
                SubmitPaperState::Finished,
                SubmitPaperAction::Finish(
                    Err(SubmitPaperError::Unknown(UnknownError::MeetUpGateway(e))),
                ),
            ),
            Ok(None) => (
                SubmitPaperState::Finished,
                SubmitPaperAction::Finish(Err(SubmitPaperError::NoFutureMeetUpFound)),
            ),
            Ok(Some(meet_up)) => {
                if meet_up.state == MeetUpState::CallForPapers {
                    (
                        SubmitPaperState::AwaitingStore,
                        SubmitPaperAction::StorePaper {
                            meet_up_id: meet_up.id,
                            limit: MAX_PAPERS_PER_USER_PER_MEET_UP,
                        },
                    )
                } else {
                    (
                        SubmitPaperState::Finished,
                        SubmitPaperAction::Finish(
                            Err(SubmitPaperError::InvalidMeetUpState(Box::new(meet_up.state))),
                        ),
                    )
                }
            },
        },
        SubmitPaperEvent::PaperStored(stored) => {
            let result = match stored {
                Ok(()) => Ok(()),
                Err(StorePaperError::MoreThanLimitPapersPerUserPerMeetUp(limit)) => Err(
                    SubmitPaperError::MoreThanLimitPapersPerUserPerMeetUp(limit),
                ),
                Err(err) => Err(SubmitPaperError::Unknown(UnknownError::PaperGateway(err))),
            };
            (SubmitPaperState::Finished, SubmitPaperAction::Finish(result))
        },
    }
}

/// The page shown to a user during a call for papers.
#[derive(Debug)]
pub struct CallForPapersPage {
    pub meet_up: MeetUp,
    pub papers: Vec<Paper>,
    pub is_limit_of_papers_sent: bool,
}

/// Why the call-for-papers page cannot be shown.
#[derive(Debug)]
pub enum ShowCallForPapersError {
    /// A gateway failed; its error is carried through.
    Gateway(anyhow::Error),
    NoFutureMeetUpFound,
    InvalidMeetUpState(MeetUpState),
}

/// Where the showing of the call-for-papers page stands.
#[derive(Debug)]
pub enum ShowCallForPapersState {
    Start,
    AwaitingFutureMeetUp { user_id: Ulid },
    AwaitingPapers { meet_up: MeetUp },
    Finished,
}

/// What the caller reports back while the page is being shown.
#[derive(Debug)]
pub enum ShowCallForPapersEvent {
    /// The page is requested by the user with this id.
    Begin { user_id: Ulid },
    /// The meetup gateway answered the request for the future meetup.
    FutureMeetUpFetched(Result<Option<MeetUp>, anyhow::Error>),
    /// The paper gateway answered the request for the user's papers.
    PapersFetched(Result<Vec<Paper>, anyhow::Error>),
}

/// What the showing of the page asks the caller to do next.
#[derive(Debug)]
pub enum ShowCallForPapersAction {
    /// Ask the meetup gateway for the future meetup.
    FetchFutureMeetUp,
    /// Ask the paper gateway for the papers this user sent for this meetup.
    FetchPapers { user_id: Ulid, meet_up_id: Ulid },
    /// Return this result.
    Finish(Result<CallForPapersPage, ShowCallForPapersError>),
}

/// Whether `count` papers reach the limit, the count read as a `u8` (that
/// is, modulo 256) before it is compared.
pub open spec fn limit_of_papers_sent(count: nat) -> bool {
    count % 256 >= MAX_PAPERS_PER_USER_PER_MEET_UP
}

/// The event is one that the showing of the page in `state` waits for.
pub open spec fn show_call_for_papers_expects(
    state: ShowCallForPapersState,
    event: ShowCallForPapersEvent,
) -> bool {
    match state {
        ShowCallForPapersState::Start => event is Begin,
        ShowCallForPapersState::AwaitingFutureMeetUp { .. } => event is FutureMeetUpFetched,
        ShowCallForPapersState::AwaitingPapers { .. } => event is PapersFetched,
        ShowCallForPapersState::Finished => false,
    }
}

/// The decisions of the showing of the page: from the state and the event,
/// the next state and the action.
pub open spec fn show_call_for_papers_next(
    state: ShowCallForPapersState,
    event: ShowCallForPapersEvent,
) -> (ShowCallForPapersState, ShowCallForPapersAction) {
    match event {
        ShowCallForPapersEvent::Begin { user_id } => (
            ShowCallForPapersState::AwaitingFutureMeetUp { user_id },
            ShowCallForPapersAction::FetchFutureMeetUp,
        ),
        ShowCallForPapersEvent::FutureMeetUpFetched(fetched) => match fetched {
            Err(e) => (
                ShowCallForPapersState::Finished,
                ShowCallForPapersAction::Finish(Err(ShowCallForPapersError::Gateway(e))),
            ),
            Ok(None) => (
                ShowCallForPapersState::Finished,
                ShowCallForPapersAction::Finish(Err(ShowCallForPapersError::NoFutureMeetUpFound)),
            ),
            Ok(Some(meet_up)) => if meet_up.state == MeetUpState::CallForPapers {
                (
                    ShowCallForPapersState::AwaitingPapers { meet_up },
                    ShowCallForPapersAction::FetchPapers {
                        user_id: state->user_id,
                        meet_up_id: meet_up.id,
                    },
                )
            } else {
                (
                    ShowCallForPapersState::Finished,
                    ShowCallForPapersAction::Finish(
                        Err(ShowCallForPapersError::InvalidMeetUpState(meet_up.state)),
                    ),
                )
            },
        },
        ShowCallForPapersEvent::PapersFetched(fetched) => (
            ShowCallForPapersState::Finished,
            ShowCallForPapersAction::Finish(
                match fetched {
                    Err(e) => Err(ShowCallForPapersError::Gateway(e)),
                    Ok(papers) => Ok(
                        CallForPapersPage {
                            meet_up: state->meet_up,
                            papers,
                            is_limit_of_papers_sent: limit_of_papers_sent(papers@.len()),
                        },
                    ),
                },
            ),
        ),
    }
}

/// Whether `papers` reach the limit, as the page reports it.
fn papers_reach_limit(papers: &Vec<Paper>) -> (reached: bool)
    ensures
        reached == limit_of_papers_sent(papers@.len()),
{
    let n = papers.len();
    let count = n as u8;
    assert(count == n % 256) by (bit_vector)
        requires
            count == n as u8,
    ;
    count >= MAX_PAPERS_PER_USER_PER_MEET_UP
}

/// One step of showing the call-for-papers page.
pub fn show_call_for_papers_step(
    state: ShowCallForPapersState,
    event: ShowCallForPapersEvent,
) -> (next: (ShowCallForPapersState, ShowCallForPapersAction))
    requires
        show_call_for_papers_expects(state, event),
    ensures
        next == show_call_for_papers_next(state, event),
{
    match (state, event) {
        (_, ShowCallForPapersEvent::Begin { user_id }) => (
            ShowCallForPapersState::AwaitingFutureMeetUp { user_id },
            ShowCallForPapersAction::FetchFutureMeetUp,
        ),
        (
            ShowCallForPapersState::AwaitingFutureMeetUp { user_id },
            ShowCallForPapersEvent::FutureMeetUpFetched(fetched),
        ) => match fetched {
            Err(e) => (
                ShowCallForPapersState::Finished,
                ShowCallForPapersAction::Finish(Err(ShowCallForPapersError::Gateway(e))),
            ),
            Ok(None) => (
                ShowCallForPapersState::Finished,
                ShowCallForPapersAction::Finish(Err(ShowCallForPapersError::NoFutureMeetUpFound)),
            ),
            Ok(Some(meet_up)) => {
                if meet_up.state == MeetUpState::CallForPapers {
                    let meet_up_id = meet_up.id;
                    (
                        ShowCallForPapersState::AwaitingPapers { meet_up },
                        ShowCallForPapersAction::FetchPapers { user_id, meet_up_id },
                    )
                } else {
                    (
                        ShowCallForPapersState::Finished,
                        ShowCallForPapersAction::Finish(
                            Err(ShowCallForPapersError::InvalidMeetUpState(meet_up.state)),
                        ),
                    )
                }
            },
        },
        (
            ShowCallForPapersState::AwaitingPapers { meet_up },
            ShowCallForPapersEvent::PapersFetched(fetched),
        ) => {
            let result = match fetched {
                Err(e) => Err(ShowCallForPapersError::Gateway(e)),
                Ok(papers) => {
                    let is_limit_of_papers_sent = papers_reach_limit(&papers);
                    Ok(CallForPapersPage { meet_up, papers, is_limit_of_papers_sent })
                },
            };
            (ShowCallForPapersState::Finished, ShowCallForPapersAction::Finish(result))
        },
        _ => unreached(),
    }
}

/// The result a whole paper submission returns when the future meetup is
/// fetched as `fetched` and, if asked, the store answers `stored`.
pub open spec fn submit_paper_run(
    fetched: Result<Option<MeetUp>, anyhow::Error>,
    stored: Result<(), StorePaperError>,
) -> Option<Result<(), SubmitPaperError>> {
    let (s1, a1) = submit_paper_next(SubmitPaperState::Start, SubmitPaperEvent::Begin);
    let (s2, a2) = submit_paper_next(s1, SubmitPaperEvent::FutureMeetUpFetched(fetched));
    match a2 {
        SubmitPaperAction::Finish(r) => Some(r),
        SubmitPaperAction::StorePaper { .. } => match submit_paper_next(
            s2,
            SubmitPaperEvent::PaperStored(stored),
        ).1 {
            SubmitPaperAction::Finish(r) => Some(r),
            _ => None,
        },
        _ => None,
    }
}

/// Law: a submission asks to store a paper only for a meetup that is in its
/// call for papers, and always with the limit of
/// `MAX_PAPERS_PER_USER_PER_MEET_UP` papers per user.
pub proof fn law_paper_stored_only_during_call_for_papers(
    state: SubmitPaperState,
    event: SubmitPaperEvent,
)
    requires
        submit_paper_expects(state, event),
        submit_paper_next(state, event).1 is StorePaper,
    ensures
        event matches SubmitPaperEvent::FutureMeetUpFetched(Ok(Some(m))) && m.state
            == MeetUpState::CallForPapers && submit_paper_next(state, event).1
            == (SubmitPaperAction::StorePaper {
            meet_up_id: m.id,
            limit: MAX_PAPERS_PER_USER_PER_MEET_UP,
        }),
{
}

/// Law: a submission takes at most three events (begin, the fetched
/// meetup, the store's answer) and then finishes; a finished submission
/// waits for no event.
pub proof fn law_submit_paper_finishes(
    fetched: Result<Option<MeetUp>, anyhow::Error>,
    stored: Result<(), StorePaperError>,
    later: SubmitPaperEvent,
)
    ensures
        ({
            let (s1, a1) = submit_paper_next(SubmitPaperState::Start, SubmitPaperEvent::Begin);
            let (s2, a2) = submit_paper_next(s1, SubmitPaperEvent::FutureMeetUpFetched(fetched));
            let (s3, a3) = submit_paper_next(s2, SubmitPaperEvent::PaperStored(stored));
            &&& s1 is AwaitingFutureMeetUp && a1 is FetchFutureMeetUp
            &&& submit_paper_expects(s1, SubmitPaperEvent::FutureMeetUpFetched(fetched))
            &&& (s2 is Finished && a2 is Finish) || (s2 is AwaitingStore && a2 is StorePaper)
            &&& s2 is AwaitingStore ==> submit_paper_expects(
                s2,
                SubmitPaperEvent::PaperStored(stored),
            ) && s3 is Finished && a3 is Finish
        }),
        !submit_paper_expects(SubmitPaperState::Finished, later),
        submit_paper_run(fetched, stored) is Some,
{
}

/// Law: a submission succeeds exactly when the future meetup exists, is in
/// its call for papers, and the paper gateway stored the paper; a meetup
/// in another state is reported with that state, a missing one as
/// `NoFutureMeetUpFound`, and a refusal over the limit with the limit.
pub proof fn law_submit_paper_outcome(
    fetched: Result<Option<MeetUp>, anyhow::Error>,
    stored: Result<(), StorePaperError>,
)
    ensures
        submit_paper_run(fetched, stored) == Some(Ok::<(), SubmitPaperError>(())) <==> (fetched matches Ok(
            Some(m),
        ) && m.state == MeetUpState::CallForPapers && stored is Ok),
        fetched == Ok::<Option<MeetUp>, anyhow::Error>(None) ==> submit_paper_run(fetched, stored)
            == Some(Err::<(), SubmitPaperError>(SubmitPaperError::NoFutureMeetUpFound)),
        fetched matches Ok(Some(m)) ==> (m.state != MeetUpState::CallForPapers ==> submit_paper_run(
            fetched,
            stored,
        ) == Some(Err::<(), SubmitPaperError>(SubmitPaperError::InvalidMeetUpState(Box::new(m.state))))),
        fetched matches Ok(Some(m)) ==> (m.state == MeetUpState::CallForPapers ==> (stored matches Err(
            StorePaperError::MoreThanLimitPapersPerUserPerMeetUp(limit),
        ) ==> submit_paper_run(fetched, stored) == Some(
            Err::<(), SubmitPaperError>(SubmitPaperError::MoreThanLimitPapersPerUserPerMeetUp(limit)),
        ))),
{
}

/// The result of showing the page to the user `user_id` when the future
/// meetup is fetched as `fetched` and, if asked, the papers as `papers`.
pub open spec fn show_call_for_papers_run(
    user_id: Ulid,
    fetched: Result<Option<MeetUp>, anyhow::Error>,
    papers: Result<Vec<Paper>, anyhow::Error>,
) -> Option<Result<CallForPapersPage, ShowCallForPapersError>> {
    let (s1, a1) = show_call_for_papers_next(
        ShowCallForPapersState::Start,
        ShowCallForPapersEvent::Begin { user_id },
    );
    let (s2, a2) = show_call_for_papers_next(
        s1,
        ShowCallForPapersEvent::FutureMeetUpFetched(fetched),
    );
    match a2 {
        ShowCallForPapersAction::Finish(r) => Some(r),
        ShowCallForPapersAction::FetchPapers { .. } => match show_call_for_papers_next(
            s2,
            ShowCallForPapersEvent::PapersFetched(papers),
        ).1 {
            ShowCallForPapersAction::Finish(r) => Some(r),
            _ => None,
        },
        _ => None,
    }
}

/// Law: the page is shown only for the fetched future meetup, and only when
/// it is in its call for papers; the papers asked for are this user's for
/// this meetup, the page lists them all, and its flag says whether they
/// reach the limit.
pub proof fn law_page_shown_only_during_call_for_papers(
    user_id: Ulid,
    fetched: Result<Option<MeetUp>, anyhow::Error>,
    papers: Result<Vec<Paper>, anyhow::Error>,
)
    ensures
        show_call_for_papers_run(user_id, fetched, papers) is Some,
        show_call_for_papers_run(user_id, fetched, papers) matches Some(Ok(page)) ==> {
            &&& fetched == Ok::<Option<MeetUp>, anyhow::Error>(Some(page.meet_up))
            &&& page.meet_up.state == MeetUpState::CallForPapers
            &&& papers matches Ok(p) && page.papers == p
            &&& page.is_limit_of_papers_sent == limit_of_papers_sent(page.papers@.len())
            &&& show_call_for_papers_next(
                ShowCallForPapersState::AwaitingFutureMeetUp { user_id },
                ShowCallForPapersEvent::FutureMeetUpFetched(fetched),
            ).1 == (ShowCallForPapersAction::FetchPapers { user_id, meet_up_id: page.meet_up.id })
        },
        fetched matches Ok(Some(m)) ==> (m.state != MeetUpState::CallForPapers
            ==> show_call_for_papers_run(user_id, fetched, papers) == Some(
            Err::<CallForPapersPage, ShowCallForPapersError>(
                ShowCallForPapersError::InvalidMeetUpState(m.state),
            ),
        )),
        fetched == Ok::<Option<MeetUp>, anyhow::Error>(None) ==> show_call_for_papers_run(
            user_id,
            fetched,
            papers,
        ) == Some(
            Err::<CallForPapersPage, ShowCallForPapersError>(
                ShowCallForPapersError::NoFutureMeetUpFound,
            ),
        ),
{
}

/// Law: a paper submission passes a gateway failure on unchanged, wrapped
/// whole as `Unknown`: the meetup gateway's failure to fetch the future
/// meetup, and the paper gateway's error for any refusal other than the
/// limit.
pub proof fn law_submit_paper_passes_gateway_failures_on(
    e: anyhow::Error,
    meet_up: MeetUp,
    stored: Result<(), StorePaperError>,
    refusal: StorePaperError,
)
    ensures
        submit_paper_run(Err(e), stored) == Some(
            Err::<(), SubmitPaperError>(SubmitPaperError::Unknown(UnknownError::MeetUpGateway(e))),
        ),
        meet_up.state == MeetUpState::CallForPapers && !(refusal is MoreThanLimitPapersPerUserPerMeetUp)
            ==> submit_paper_run(Ok(Some(meet_up)), Err(refusal)) == Some(
            Err::<(), SubmitPaperError>(
                SubmitPaperError::Unknown(UnknownError::PaperGateway(refusal)),
            ),
        ),
{
}

/// Law: showing the page passes a gateway failure on unchanged, as
/// `Gateway`: the failure to fetch the future meetup, and the failure to
/// fetch the user's papers.
pub proof fn law_show_call_for_papers_passes_gateway_failures_on(
    user_id: Ulid,
    e: anyhow::Error,
    meet_up: MeetUp,
    papers: Result<Vec<Paper>, anyhow::Error>,
)
    ensures
        show_call_for_papers_run(user_id, Err(e), papers) == Some(
            Err::<CallForPapersPage, ShowCallForPapersError>(ShowCallForPapersError::Gateway(e)),
        ),
        meet_up.state == MeetUpState::CallForPapers ==> show_call_for_papers_run(
            user_id,
            Ok(Some(meet_up)),
            Err(e),
        ) == Some(
            Err::<CallForPapersPage, ShowCallForPapersError>(ShowCallForPapersError::Gateway(e)),
        ),
{
}

/// Law: a page request asks for the papers of the user who began it: after
/// `Begin { user_id }` the request waits for the meetup on behalf of that
/// same user, and once a meetup in its call for papers comes back it fetches
/// that user's papers for that meetup.
pub proof fn law_page_request_fetches_the_users_papers(user_id: Ulid, meet_up: MeetUp)
    ensures
        show_call_for_papers_next(
            ShowCallForPapersState::Start,
            ShowCallForPapersEvent::Begin { user_id },
        ).0 == (ShowCallForPapersState::AwaitingFutureMeetUp { user_id }),
        show_call_for_papers_next(
            ShowCallForPapersState::Start,
            ShowCallForPapersEvent::Begin { user_id },
        ).1 is FetchFutureMeetUp,
        meet_up.state == MeetUpState::CallForPapers ==> show_call_for_papers_next(
            show_call_for_papers_next(
                ShowCallForPapersState::Start,
                ShowCallForPapersEvent::Begin { user_id },
            ).0,
            ShowCallForPapersEvent::FutureMeetUpFetched(Ok(Some(meet_up))),
        ).1 == (ShowCallForPapersAction::FetchPapers { user_id, meet_up_id: meet_up.id }),
{
}

/// Law: with fewer than 256 papers, the page flags the limit exactly when
/// the user sent at least `MAX_PAPERS_PER_USER_PER_MEET_UP` papers.
pub proof fn law_limit_flag(count: nat)
    requires
        count < 256,
    ensures
        limit_of_papers_sent(count) <==> count >= MAX_PAPERS_PER_USER_PER_MEET_UP,
{
}

} // verus!
