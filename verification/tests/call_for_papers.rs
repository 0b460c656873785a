use rustcwb::call_for_papers::{
    show_call_for_papers_step, submit_paper_step, ShowCallForPapersAction,
    ShowCallForPapersError, ShowCallForPapersEvent, ShowCallForPapersState, StorePaperError,
    SubmitPaperAction, SubmitPaperError, SubmitPaperEvent, SubmitPaperState, UnknownError,
    MAX_PAPERS_PER_USER_PER_MEET_UP,
};
use rustcwb::ids::Ulid;
use rustcwb::meetups::{MeetUp, MeetUpState, Paper};

fn meet_up(state: MeetUpState) -> MeetUp {
    MeetUp { id: Ulid(42), state }
}

fn paper(n: u128) -> Paper {
    Paper { id: Ulid(n), user_id: Ulid(7), title: format!("talk {n}"), description: String::new() }
}

fn submit(
    fetched: Result<Option<MeetUp>, anyhow::Error>,
    stored: Option<Result<(), StorePaperError>>,
) -> (Vec<(Ulid, u8)>, Result<(), SubmitPaperError>) {
    let mut store_requests = Vec::new();
    let (state, action) = submit_paper_step(SubmitPaperState::Start, SubmitPaperEvent::Begin);
    assert!(matches!(state, SubmitPaperState::AwaitingFutureMeetUp));
    assert!(matches!(action, SubmitPaperAction::FetchFutureMeetUp));
    let (state, action) = submit_paper_step(state, SubmitPaperEvent::FutureMeetUpFetched(fetched));
    match action {
        SubmitPaperAction::Finish(result) => {
            assert!(matches!(state, SubmitPaperState::Finished));
            (store_requests, result)
        }
        SubmitPaperAction::StorePaper { meet_up_id, limit } => {
            assert!(matches!(state, SubmitPaperState::AwaitingStore));
            store_requests.push((meet_up_id, limit));
            let (state, action) =
                submit_paper_step(state, SubmitPaperEvent::PaperStored(stored.unwrap()));
            assert!(matches!(state, SubmitPaperState::Finished));
            match action {
                SubmitPaperAction::Finish(result) => (store_requests, result),
                _ => panic!("a stored paper finishes the submission"),
            }
        }
        SubmitPaperAction::FetchFutureMeetUp => panic!("the meetup was already fetched"),
    }
}

#[test]
fn submit_paper_stores_during_call_for_papers() {
    let (requests, result) =
        submit(Ok(Some(meet_up(MeetUpState::CallForPapers))), Some(Ok(())));
    assert_eq!(requests, vec![(Ulid(42), 2)]);
    assert!(result.is_ok());
}

#[test]
fn submit_paper_limit_is_two() {
    assert_eq!(MAX_PAPERS_PER_USER_PER_MEET_UP, 2);
}

#[test]
fn submit_paper_without_future_meet_up() {
    let (requests, result) = submit(Ok(None), None);
    assert!(requests.is_empty());
    assert!(matches!(result, Err(SubmitPaperError::NoFutureMeetUpFound)));
}

#[test]
fn submit_paper_outside_call_for_papers() {
    let (requests, result) = submit(Ok(Some(meet_up(MeetUpState::Voting))), None);
    assert!(requests.is_empty());
    match result {
        Err(SubmitPaperError::InvalidMeetUpState(state)) => assert_eq!(*state, MeetUpState::Voting),
        other => panic!("unexpected {other:?}"),
    }
    let (_, result) = submit(Ok(Some(meet_up(MeetUpState::Scheduled))), None);
    assert!(matches!(result, Err(SubmitPaperError::InvalidMeetUpState(s)) if *s == MeetUpState::Scheduled));
}

#[test]
fn submit_paper_gateway_failure_is_unknown() {
    let (_, result) = submit(Err(anyhow::Error::msg("database down")), None);
    match result {
        Err(SubmitPaperError::Unknown(UnknownError::MeetUpGateway(e))) => {
            assert_eq!(e.to_string(), "database down")
        }
        other => panic!("unexpected {other:?}"),
    }
}

#[test]
fn submit_paper_over_limit() {
    let (_, result) = submit(
        Ok(Some(meet_up(MeetUpState::CallForPapers))),
        Some(Err(StorePaperError::MoreThanLimitPapersPerUserPerMeetUp(2))),
    );
    assert!(matches!(result, Err(SubmitPaperError::MoreThanLimitPapersPerUserPerMeetUp(2))));
}

#[test]
fn submit_paper_store_failure_is_unknown() {
    let (_, result) = submit(
        Ok(Some(meet_up(MeetUpState::CallForPapers))),
        Some(Err(StorePaperError::Other(anyhow::Error::msg("disk full")))),
    );
    match result {
        Err(SubmitPaperError::Unknown(UnknownError::PaperGateway(StorePaperError::Other(e)))) => {
            assert_eq!(e.to_string(), "disk full")
        }
        other => panic!("unexpected {other:?}"),
    }
}

fn show(
    fetched: Result<Option<MeetUp>, anyhow::Error>,
    papers: Option<Result<Vec<Paper>, anyhow::Error>>,
) -> (Vec<(Ulid, Ulid)>, Result<rustcwb::call_for_papers::CallForPapersPage, ShowCallForPapersError>) {
    let mut paper_requests = Vec::new();
    let (state, action) = show_call_for_papers_step(
        ShowCallForPapersState::Start,
        ShowCallForPapersEvent::Begin { user_id: Ulid(7) },
    );
    assert!(matches!(action, ShowCallForPapersAction::FetchFutureMeetUp));
    let (state, action) =
        show_call_for_papers_step(state, ShowCallForPapersEvent::FutureMeetUpFetched(fetched));
    match action {
        ShowCallForPapersAction::Finish(result) => {
            assert!(matches!(state, ShowCallForPapersState::Finished));
            (paper_requests, result)
        }
        ShowCallForPapersAction::FetchPapers { user_id, meet_up_id } => {
            paper_requests.push((user_id, meet_up_id));
            let (state, action) = show_call_for_papers_step(
                state,
                ShowCallForPapersEvent::PapersFetched(papers.unwrap()),
            );
            assert!(matches!(state, ShowCallForPapersState::Finished));
            match action {
                ShowCallForPapersAction::Finish(result) => (paper_requests, result),
                _ => panic!("fetched papers finish the page"),
            }
        }
        ShowCallForPapersAction::FetchFutureMeetUp => panic!("the meetup was already fetched"),
    }
}

#[test]
fn show_call_for_papers_lists_the_users_papers() {
    let (requests, result) = show(
        Ok(Some(meet_up(MeetUpState::CallForPapers))),
        Some(Ok(vec![paper(1)])),
    );
    assert_eq!(requests, vec![(Ulid(7), Ulid(42))]);
    let page = result.unwrap();
    assert_eq!(page.meet_up, meet_up(MeetUpState::CallForPapers));
    assert_eq!(page.papers.len(), 1);
    assert_eq!(page.papers[0].title, "talk 1");
    assert!(!page.is_limit_of_papers_sent);
}

#[test]
fn show_call_for_papers_flags_the_limit() {
    let (_, result) = show(Ok(Some(meet_up(MeetUpState::CallForPapers))), Some(Ok(vec![])));
    assert!(!result.unwrap().is_limit_of_papers_sent);
    let (_, result) = show(
        Ok(Some(meet_up(MeetUpState::CallForPapers))),
        Some(Ok(vec![paper(1), paper(2)])),
    );
    assert!(result.unwrap().is_limit_of_papers_sent);
    let (_, result) = show(
        Ok(Some(meet_up(MeetUpState::CallForPapers))),
        Some(Ok(vec![paper(1), paper(2), paper(3)])),
    );
    assert!(result.unwrap().is_limit_of_papers_sent);
}

#[test]
fn show_call_for_papers_counts_papers_as_a_byte() {
    let many: Vec<Paper> = (0..256).map(paper).collect();
    let (_, result) = show(Ok(Some(meet_up(MeetUpState::CallForPapers))), Some(Ok(many)));
    assert!(!result.unwrap().is_limit_of_papers_sent);
    let more: Vec<Paper> = (0..258).map(paper).collect();
    let (_, result) = show(Ok(Some(meet_up(MeetUpState::CallForPapers))), Some(Ok(more)));
    assert!(result.unwrap().is_limit_of_papers_sent);
}

#[test]
fn show_call_for_papers_errors() {
    let (requests, result) = show(Ok(None), None);
    assert!(requests.is_empty());
    assert!(matches!(result, Err(ShowCallForPapersError::NoFutureMeetUpFound)));
    let (_, result) = show(Ok(Some(meet_up(MeetUpState::Voting))), None);
    assert!(matches!(
        result,
        Err(ShowCallForPapersError::InvalidMeetUpState(MeetUpState::Voting))
    ));
    let (_, result) = show(Err(anyhow::Error::msg("down")), None);
    assert!(matches!(result, Err(ShowCallForPapersError::Gateway(_))));
    let (_, result) = show(
        Ok(Some(meet_up(MeetUpState::CallForPapers))),
        Some(Err(anyhow::Error::msg("papers down"))),
    );
    match result {
        Err(ShowCallForPapersError::Gateway(e)) => assert_eq!(e.to_string(), "papers down"),
        other => panic!("unexpected {other:?}"),
    }
}
