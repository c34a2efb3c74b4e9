use matrix_account::account::Account;
use matrix_account::error::AccountError;
use matrix_account::event::MatrixEvent;
use matrix_account::verification::{
    AcceptAction, AcceptEvent, AcceptStep, Acceptance, Method, RequestState, RequestWatcher,
    SasChange, SasPoll, SasWatcher, SelfVerificationAction, SelfVerificationEvent, StartOutcome, WatchAction,
    WatchEvent, WatchStep,
};

fn cancelled_state() -> RequestState {
    RequestState::Cancelled { reason: "no".to_string() }
}

fn accept(step: AcceptStep, event: AcceptEvent) -> (AcceptStep, AcceptAction) {
    let mut acceptance = Acceptance { flow_id: "flow".to_string(), step };
    let action = Account::<()>::accept_and_start_sas(&mut acceptance, event);
    assert_eq!(acceptance.flow_id, "flow");
    (acceptance.step, action)
}

fn watches_the_flow(result: (AcceptStep, AcceptAction)) -> bool {
    matches!(result, (AcceptStep::Over, AcceptAction::Watch { flow_id }) if flow_id == "flow")
}

fn failure(result: (AcceptStep, AcceptAction)) -> String {
    match result {
        (AcceptStep::Over, AcceptAction::Fail { error }) => error.message(),
        other => panic!("{other:?}"),
    }
}

#[test]
fn request_is_looked_up_for_a_user() {
    let key = Account::<()>::get_verification_request("@bob:example.com", "flow").unwrap();
    assert_eq!((key.user_id.as_str(), key.flow_id.as_str()), ("@bob:example.com", "flow"));
    assert!(Account::<()>::get_verification_request("bob", "flow").is_none());
    let (acceptance, action) = Account::<()>::begin_acceptance("@bob:example.com", "flow");
    assert_eq!(acceptance.flow_id, "flow");
    assert_eq!(acceptance.step, AcceptStep::Lookup);
    assert!(matches!(
        action,
        AcceptAction::LookUp { user_id, flow_id }
            if user_id == "@bob:example.com" && flow_id == "flow"
    ));
    let (acceptance, action) = Account::<()>::begin_acceptance("bob", "flow");
    assert_eq!(failure((acceptance.step, action)), "Verification request not found");
}

#[test]
fn ready_request_is_started_and_not_accepted() {
    let (step, action) = accept(AcceptStep::Lookup, AcceptEvent::LookedUp { found: true });
    assert!(matches!((step, action), (AcceptStep::Accept, AcceptAction::AcceptRequest)));
    let (step, action) = accept(step, AcceptEvent::Accepted(Ok(())));
    assert!(matches!((step, action), (AcceptStep::Check, AcceptAction::ReadState)));
    let (step, action) = accept(step, AcceptEvent::State(RequestState::Ready));
    assert!(matches!((step, action), (AcceptStep::Start, AcceptAction::StartSas)));
    assert!(watches_the_flow(accept(step, AcceptEvent::Started(StartOutcome::Started))));
}

#[test]
fn sas_of_the_other_side_is_accepted() {
    for step in [AcceptStep::Check, AcceptStep::Wait] {
        let event = AcceptEvent::State(RequestState::Transitioned { to_sas: true });
        let (step, action) = accept(step, event);
        assert!(matches!((step, action), (AcceptStep::AcceptSas, AcceptAction::AcceptSas)));
        assert!(watches_the_flow(accept(step, AcceptEvent::SasAccepted(Ok(())))));
    }
}

#[test]
fn acceptance_waits_for_a_ready_request() {
    for state in [
        RequestState::Pending,
        RequestState::Transitioned { to_sas: false },
        RequestState::Done,
        cancelled_state(),
    ] {
        let (step, action) = accept(AcceptStep::Check, AcceptEvent::State(state));
        assert!(matches!((step, action), (AcceptStep::Wait, AcceptAction::AwaitChange)));
    }
    for state in [RequestState::Pending, RequestState::Transitioned { to_sas: false }] {
        let (step, action) = accept(AcceptStep::Wait, AcceptEvent::State(state));
        assert!(matches!((step, action), (AcceptStep::Wait, AcceptAction::AwaitChange)));
    }
    let (step, action) = accept(AcceptStep::Wait, AcceptEvent::State(RequestState::Ready));
    assert!(matches!((step, action), (AcceptStep::Start, AcceptAction::StartSas)));
}

#[test]
fn acceptance_fails() {
    let result = accept(AcceptStep::Lookup, AcceptEvent::LookedUp { found: false });
    assert_eq!(failure(result), "Verification request not found");
    let result = accept(AcceptStep::Accept, AcceptEvent::Accepted(Err("a".to_string())));
    assert_eq!(failure(result), "a");
    for state in [RequestState::Done, cancelled_state()] {
        let result = accept(AcceptStep::Wait, AcceptEvent::State(state));
        assert_eq!(failure(result), "Request cancelled before SAS could start");
    }
    let result = accept(AcceptStep::Wait, AcceptEvent::StreamEnded);
    assert_eq!(failure(result), "Verification request stream ended unexpectedly");
    let result = accept(AcceptStep::Start, AcceptEvent::Started(StartOutcome::NotStarted));
    assert_eq!(failure(result), "Failed to start SAS verification");
    let event = AcceptEvent::Started(StartOutcome::Failed { error: "b".to_string() });
    assert_eq!(failure(accept(AcceptStep::Start, event)), "b");
    let result = accept(AcceptStep::AcceptSas, AcceptEvent::SasAccepted(Err("c".to_string())));
    assert_eq!(failure(result), "c");
}

#[test]
fn self_verification_is_requested() {
    let next = Account::<()>::request_self_verification;
    let event = SelfVerificationEvent::Session { user_id: Some("@me:x".to_string()) };
    assert!(matches!(
        next(event),
        SelfVerificationAction::FetchIdentity { user_id } if user_id == "@me:x"
    ));
    let event = SelfVerificationEvent::Identity(Ok(true));
    assert!(matches!(
        next(event),
        SelfVerificationAction::Request { methods } if methods == [Method::Sas]
    ));
    let event = SelfVerificationEvent::Requested(Ok("flow".to_string()));
    assert!(matches!(
        next(event),
        SelfVerificationAction::Watch { watcher }
            if watcher.flow_id == "flow" && watcher.step == WatchStep::Check
    ));
}

#[test]
fn self_verification_fails() {
    let next = Account::<()>::request_self_verification;
    let event = SelfVerificationEvent::Session { user_id: None };
    assert!(matches!(
        next(event),
        SelfVerificationAction::Fail { error: AccountError::NotLoggedIn }
    ));
    let event = SelfVerificationEvent::Identity(Ok(false));
    assert!(matches!(
        next(event),
        SelfVerificationAction::Fail { error: AccountError::OwnIdentityNotFound }
    ));
    for event in [
        SelfVerificationEvent::Identity(Err("x".to_string())),
        SelfVerificationEvent::Requested(Err("x".to_string())),
    ] {
        assert!(matches!(
            next(event),
            SelfVerificationAction::Fail { error: AccountError::Failed { reason } }
                if reason == "x"
        ));
    }
}

fn watcher_at(step: WatchStep) -> RequestWatcher {
    let mut watcher = RequestWatcher::new("flow".to_string());
    assert_eq!(watcher.step, WatchStep::Check);
    watcher.step = step;
    watcher
}

/// What a watch at `step` pushes at its end, which `event` brings about.
fn ending(step: WatchStep, event: WatchEvent<u8>) -> (Option<MatrixEvent<u8>>, bool) {
    let mut watcher = watcher_at(step);
    match watcher.next(event) {
        WatchAction::Finish { event, watch_sas } => {
            assert_eq!(watcher.step, WatchStep::Over);
            (event, watch_sas)
        }
        other => panic!("{other:?}"),
    }
}

fn is_cancelled(ending: (Option<MatrixEvent<u8>>, bool), expected: &str) -> bool {
    matches!(
        ending,
        (Some(MatrixEvent::SasCancelled { flow_id, reason }), false)
            if flow_id == "flow" && reason == expected
    )
}

#[test]
fn watched_request_is_started_accepted_and_told() {
    let mut watcher = RequestWatcher::new("flow".to_string());
    let action = watcher.next(WatchEvent::<u8>::State(RequestState::Pending));
    assert!(matches!(action, WatchAction::AwaitChange));
    let action = watcher.next(WatchEvent::<u8>::State(RequestState::Ready));
    assert!(matches!(action, WatchAction::StartSas));
    let action = watcher.next(WatchEvent::<u8>::Started(StartOutcome::Started));
    assert!(matches!(action, WatchAction::AcceptSas));
    let action = watcher.next(WatchEvent::SasAccepted { sas: 9 });
    assert!(matches!(
        action,
        WatchAction::Finish {
            event: Some(MatrixEvent::SasStarted { flow_id, sas: 9 }),
            watch_sas: true
        } if flow_id == "flow"
    ));
    assert_eq!(watcher.step, WatchStep::Over);
}

#[test]
fn watch_takes_up_sas_only_when_it_waits() {
    let state = || WatchEvent::<u8>::State(RequestState::Transitioned { to_sas: true });
    let mut watcher = watcher_at(WatchStep::Check);
    assert!(matches!(watcher.next(state()), WatchAction::AwaitChange));
    assert_eq!(watcher.step, WatchStep::Wait);
    assert!(matches!(watcher.next(state()), WatchAction::AcceptSas));
    assert_eq!(watcher.step, WatchStep::AcceptSas);
}

#[test]
fn watch_tells_of_cancellation() {
    for state in [RequestState::Done, cancelled_state()] {
        let end = ending(WatchStep::Check, WatchEvent::State(state));
        assert!(is_cancelled(end, "Request already finished"));
    }
    let end = ending(WatchStep::Wait, WatchEvent::State(cancelled_state()));
    assert!(is_cancelled(end, "no"));
    let end = ending(WatchStep::Start, WatchEvent::Started(StartOutcome::NotStarted));
    assert!(is_cancelled(end, "Failed to start SAS"));
    let outcome = StartOutcome::Failed { error: "down".to_string() };
    let end = ending(WatchStep::Start, WatchEvent::Started(outcome));
    assert!(is_cancelled(end, "down"));
}

#[test]
fn watch_ends_silently() {
    for event in [
        WatchEvent::State(RequestState::Done),
        WatchEvent::State(RequestState::Transitioned { to_sas: false }),
        WatchEvent::StreamEnded,
    ] {
        assert!(matches!(ending(WatchStep::Wait, event), (None, false)));
    }
}

fn some_emojis() -> Option<Vec<(String, String)>> {
    Some(vec![("D".to_string(), "Dog".to_string()), ("C".to_string(), "Cat".to_string())])
}

fn nothing_to_show() -> SasPoll {
    SasPoll { can_be_presented: false, emojis: None }
}

fn tells_emojis(event: Option<MatrixEvent<()>>) -> bool {
    matches!(
        event,
        Some(MatrixEvent::SasEmojis { flow_id, emojis })
            if flow_id == "flow" && Some(emojis.clone()) == some_emojis()
    )
}

#[test]
fn emojis_may_be_there_at_the_start() {
    let begin = |poll| SasWatcher::begin::<()>("flow".to_string(), poll).1;
    assert!(tells_emojis(begin(SasPoll { can_be_presented: true, emojis: some_emojis() })));
    assert!(begin(SasPoll { can_be_presented: false, emojis: some_emojis() }).is_none());
    assert!(begin(SasPoll { can_be_presented: true, emojis: None }).is_none());
}

#[test]
fn emojis_come_with_the_keys_or_are_asked_for() {
    let (mut watcher, _) = SasWatcher::begin::<()>("flow".to_string(), nothing_to_show());
    let with_keys = SasChange::KeysExchanged { emojis: some_emojis() };
    assert!(tells_emojis(watcher.next(with_keys, nothing_to_show())));
    let poll = SasPoll { can_be_presented: false, emojis: some_emojis() };
    assert!(tells_emojis(watcher.next(SasChange::KeysExchanged { emojis: None }, poll.clone())));
    assert!(watcher.next::<()>(SasChange::Other, poll).is_none());
    let poll = SasPoll { can_be_presented: true, emojis: some_emojis() };
    assert!(tells_emojis(watcher.next(SasChange::Other, poll)));
    let event: Option<MatrixEvent<()>> =
        watcher.next(SasChange::KeysExchanged { emojis: None }, nothing_to_show());
    assert!(event.is_none());
    assert!(!watcher.finished);
}

#[test]
fn end_of_sas_is_told_once() {
    let (mut watcher, _) = SasWatcher::begin::<()>("flow".to_string(), nothing_to_show());
    let event: Option<MatrixEvent<()>> = watcher.next(SasChange::Done, nothing_to_show());
    assert!(matches!(event, Some(MatrixEvent::SasDone { flow_id }) if flow_id == "flow"));
    assert!(watcher.finished);

    let (mut watcher, _) = SasWatcher::begin::<()>("flow".to_string(), nothing_to_show());
    let change = SasChange::Cancelled { reason: "mismatch".to_string() };
    let event: Option<MatrixEvent<()>> = watcher.next(change, nothing_to_show());
    assert!(matches!(
        event,
        Some(MatrixEvent::SasCancelled { flow_id, reason })
            if flow_id == "flow" && reason == "mismatch"
    ));
    assert!(watcher.finished);
}

#[test]
fn last_event_tells_how_sas_ended() {
    let showing = SasPoll { can_be_presented: true, emojis: some_emojis() };
    let changes = [
        (SasChange::Other, nothing_to_show()),
        (SasChange::Cancelled { reason: "mismatch".to_string() }, showing.clone()),
        (SasChange::Done, showing.clone()),
    ];
    let (mut watcher, first) = SasWatcher::begin::<()>("flow".to_string(), showing);
    let mut told: Vec<MatrixEvent<()>> = first.into_iter().collect();
    for (change, poll) in changes {
        if watcher.finished {
            break;
        }
        told.extend(watcher.next::<()>(change, poll));
    }
    assert_eq!(told.len(), 2);
    assert!(tells_emojis(Some(told[0].clone())));
    assert!(matches!(
        &told[1],
        MatrixEvent::SasCancelled { flow_id, reason } if flow_id == "flow" && reason == "mismatch"
    ));
}
