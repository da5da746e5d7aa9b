use links_signaling::models::{ListParticipantsResponse, LiveKitParticipant};
use links_signaling::teardown::{
    identities, listing_reply, outcome_reply, Action, Phase, Reply, Summary, Teardown,
};

fn member(identity: &str) -> LiveKitParticipant {
    LiveKitParticipant {
        sid: Some("PA_1".to_string()),
        identity: identity.to_string(),
        state: Some(1),
        tracks: None,
        metadata: Some(String::new()),
        joined_at: Some(1_700_000_000),
        name: Some(identity.to_string()),
        version: Some(1),
        permission: None,
        region: Some(String::new()),
        is_publisher: Some(false),
    }
}

fn removed(action: &Action) -> String {
    match action {
        Action::RemoveParticipant(identity) => identity.clone(),
        other => panic!("expected a removal, got {:?}", other),
    }
}

#[test]
fn run_starts_by_listing_participants() {
    let (state, action) = Teardown::start();
    assert!(matches!(action, Action::ListParticipants));
    assert_eq!(state.phase(), Phase::Listing);
    assert!(!state.is_over());
}

#[test]
fn failed_removal_does_not_stop_the_run() {
    let (state, _) = Teardown::start();
    let (state, action) = state.step(Reply::Participants(vec!["A".to_string(), "B".to_string()]));
    assert_eq!(removed(&action), "A");
    let (state, action) = state.step(Reply::Failed("Failed to remove participant: gone".to_string()));
    assert_eq!(removed(&action), "B");
    let (state, action) = state.step(Reply::Done);
    assert!(matches!(action, Action::DeleteRoom));
    assert_eq!(state.phase(), Phase::Deleting);
    let (state, action) = state.step(Reply::Done);
    match action {
        Action::Finish(summary) => {
            assert_eq!(
                summary,
                Summary { removals_attempted: 2, removals_failed: 1, room_deleted: true }
            );
            let response = summary.response();
            assert_eq!(response.message, "Meeting ended");
            assert_eq!(response.identity, None);
        }
        other => panic!("expected the run to finish, got {:?}", other),
    }
    assert!(state.is_over());
    assert_eq!(state.phase(), Phase::Finished);
}

#[test]
fn failed_listing_aborts_without_removal_or_deletion() {
    let (state, _) = Teardown::start();
    let reply = Reply::Failed("Failed to list participants: no such room".to_string());
    assert!(state.accepts(&reply));
    let (state, action) = state.step(reply);
    match action {
        Action::Abort(message) => {
            assert_eq!(message, "Failed to end meeting: Failed to list participants: no such room")
        }
        other => panic!("expected the run to abort, got {:?}", other),
    }
    assert!(state.is_over());
    assert_eq!(state.phase(), Phase::Aborted);
    assert!(!state.accepts(&Reply::Done));
    assert!(!state.accepts(&Reply::Failed(String::new())));
    assert!(!state.accepts(&Reply::Participants(vec![])));
}

#[test]
fn empty_room_is_deleted_at_once() {
    let (state, _) = Teardown::start();
    let (state, action) = state.step(Reply::Participants(vec![]));
    assert!(matches!(action, Action::DeleteRoom));
    let (state, action) = state.step(Reply::Done);
    assert!(matches!(
        action,
        Action::Finish(Summary { removals_attempted: 0, removals_failed: 0, room_deleted: true })
    ));
    assert!(state.is_over());
}

#[test]
fn failed_deletion_still_finishes_with_success() {
    let (state, _) = Teardown::start();
    let (state, _) = state.step(Reply::Participants(vec!["A".to_string()]));
    let (state, action) = state.step(Reply::Failed("x".to_string()));
    assert!(matches!(action, Action::DeleteRoom));
    let (state, action) = state.step(Reply::Failed("Failed to delete room: busy".to_string()));
    assert!(matches!(
        action,
        Action::Finish(Summary { removals_attempted: 1, removals_failed: 1, room_deleted: false })
    ));
    assert_eq!(state.phase(), Phase::Finished);
}

#[test]
fn removals_follow_the_listed_order() {
    let names = ["zed", "amy", "bob", "amy2"];
    let (state, _) = Teardown::start();
    let listed: Vec<String> = names.iter().map(|n| n.to_string()).collect();
    let (mut state, mut action) = state.step(Reply::Participants(listed));
    let mut seen: Vec<String> = Vec::new();
    while let Action::RemoveParticipant(identity) = &action {
        seen.push(identity.clone());
        let reply = if seen.len() % 2 == 0 { Reply::Done } else { Reply::Failed("e".to_string()) };
        assert!(state.accepts(&reply));
        let next = state.step(reply);
        state = next.0;
        action = next.1;
    }
    assert_eq!(seen, vec!["zed", "amy", "bob", "amy2"]);
    assert!(matches!(action, Action::DeleteRoom));
    assert_eq!(state.phase(), Phase::Deleting);
}

#[test]
fn replies_are_accepted_by_phase() {
    let (state, _) = Teardown::start();
    assert!(state.accepts(&Reply::Participants(vec![])));
    assert!(!state.accepts(&Reply::Done));
    let (state, _) = state.step(Reply::Participants(vec!["A".to_string()]));
    assert!(state.accepts(&Reply::Done));
    assert!(state.accepts(&Reply::Failed(String::new())));
    assert!(!state.accepts(&Reply::Participants(vec![])));
}

#[test]
fn listing_becomes_a_reply_of_identities() {
    let list = ListParticipantsResponse { participants: vec![member("A"), member("B")] };
    assert_eq!(identities(&list), vec!["A".to_string(), "B".to_string()]);
    match listing_reply(&Ok(list)) {
        Reply::Participants(ps) => assert_eq!(ps, vec!["A".to_string(), "B".to_string()]),
        other => panic!("expected participants, got {:?}", other),
    }
    assert!(matches!(listing_reply(&Err("boom".to_string())), Reply::Failed(e) if e == "boom"));
}

#[test]
fn outcome_becomes_done_or_failed() {
    assert!(matches!(outcome_reply(&Ok(())), Reply::Done));
    assert!(matches!(outcome_reply(&Err("nope".to_string())), Reply::Failed(e) if e == "nope"));
}
