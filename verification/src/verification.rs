//! Verification of devices by short authentication strings (SAS).
//!
//! Each flow is a machine: it is told what happened and says what to do next. Whoever runs it does
//! that, and tells it what came of it.

use vstd::prelude::*;

use crate::account::Account;
use crate::error::{AccountError, AccountErrorView};
use crate::event::{opt_event, text_pairs, MatrixEvent, MatrixEventView};
use crate::identifiers::{parse_user_id, user_id_error};

verus! {

/// How far a verification request is.
#[derive(Clone, Debug)]
pub enum RequestState {
    /// It was made, or received, and nobody accepted it yet.
    Pending,
    /// Both sides are ready to start.
    Ready,
    /// A verification was started from it, by SAS or in another way.
    Transitioned { to_sas: bool },
    Done,
    Cancelled { reason: String },
}

/// What came of starting SAS from a request.
#[derive(Clone, Debug)]
pub enum StartOutcome {
    Started,
    /// The request cannot be turned into SAS.
    NotStarted,
    Failed { error: String },
}

// ---------------------------------------------------------------------------------------------
// Accepting another device's request
// ---------------------------------------------------------------------------------------------

/// What the acceptance of a request waits for.
#[derive(Clone, Copy, Debug, PartialEq, Eq, Structural)]
pub enum AcceptStep {
    /// For the request to be looked up.
    Lookup,
    /// For the request to be accepted.
    Accept,
    /// For the state of the accepted request.
    Check,
    /// For the next state of the request.
    Wait,
    /// For SAS to be started.
    Start,
    /// For the SAS that the other side started to be accepted.
    AcceptSas,
    /// For nothing: it is over.
    Over,
}

/// What happened to the acceptance of a request.
#[derive(Debug)]
pub enum AcceptEvent {
    LookedUp { found: bool },
    /// The request was accepted, or that failed with an error.
    Accepted(Result<(), String>),
    State(RequestState),
    /// No further state will come.
    StreamEnded,
    Started(StartOutcome),
    /// SAS was accepted, or that failed with an error.
    SasAccepted(Result<(), String>),
}

/// What to do next to accept a request.
#[derive(Debug)]
pub enum AcceptAction {
    /// Look the request of this user and this flow up.
    LookUp { user_id: String, flow_id: String },
    AcceptRequest,
    ReadState,
    /// Await the next state of the request.
    AwaitChange,
    StartSas,
    AcceptSas,
    /// SAS is under way: watch it, as that of this flow, and hand it out.
    Watch { flow_id: String },
    Fail { error: AccountError },
}

/// What an [`AcceptAction`] holds.
pub enum AcceptActionView {
    LookUp { user_id: Seq<char>, flow_id: Seq<char> },
    AcceptRequest,
    ReadState,
    AwaitChange,
    StartSas,
    AcceptSas,
    Watch { flow_id: Seq<char> },
    Fail { error: AccountErrorView },
}

impl View for AcceptAction {
    type V = AcceptActionView;

    open spec fn view(&self) -> AcceptActionView {
        match *self {
            AcceptAction::LookUp { user_id, flow_id } => AcceptActionView::LookUp {
                user_id: user_id@,
                flow_id: flow_id@,
            },
            AcceptAction::AcceptRequest => AcceptActionView::AcceptRequest,
            AcceptAction::ReadState => AcceptActionView::ReadState,
            AcceptAction::AwaitChange => AcceptActionView::AwaitChange,
            AcceptAction::StartSas => AcceptActionView::StartSas,
            AcceptAction::AcceptSas => AcceptActionView::AcceptSas,
            AcceptAction::Watch { flow_id } => AcceptActionView::Watch { flow_id: flow_id@ },
            AcceptAction::Fail { error } => AcceptActionView::Fail { error: error@ },
        }
    }
}

impl AcceptStep {
    /// Whether `event` is of the kind that this step waits for.
    pub open spec fn expects(self, event: AcceptEvent) -> bool {
        match self {
            AcceptStep::Lookup => event is LookedUp,
            AcceptStep::Accept => event is Accepted,
            AcceptStep::Check => event is State,
            AcceptStep::Wait => event is State || event is StreamEnded,
            AcceptStep::Start => event is Started,
            AcceptStep::AcceptSas => event is SasAccepted,
            AcceptStep::Over => false,
        }
    }
}

/// The end of an acceptance with an error.
pub open spec fn accept_failure(error: AccountErrorView) -> (AcceptStep, AcceptActionView) {
    (AcceptStep::Over, AcceptActionView::Fail { error })
}

/// The step that follows `step` when `event` happens to the request of the flow `flow_id`, and what
/// to do then. Where this side starts SAS it has nothing to accept; where the other side did, it
/// has. A request that ended by itself is noticed only while its next state is awaited.
pub open spec fn accept_next(flow_id: Seq<char>, step: AcceptStep, event: AcceptEvent) -> (
    AcceptStep,
    AcceptActionView,
) {
    match event {
        AcceptEvent::LookedUp { found } => if found {
            (AcceptStep::Accept, AcceptActionView::AcceptRequest)
        } else {
            accept_failure(AccountErrorView::VerificationRequestNotFound)
        },
        AcceptEvent::Accepted(result) => match result {
            Ok(_) => (AcceptStep::Check, AcceptActionView::ReadState),
            Err(e) => accept_failure(AccountErrorView::Failed { reason: e@ }),
        },
        AcceptEvent::State(state) => match state {
            RequestState::Ready => (AcceptStep::Start, AcceptActionView::StartSas),
            RequestState::Transitioned { to_sas } => if to_sas {
                (AcceptStep::AcceptSas, AcceptActionView::AcceptSas)
            } else {
                (AcceptStep::Wait, AcceptActionView::AwaitChange)
            },
            RequestState::Pending => (AcceptStep::Wait, AcceptActionView::AwaitChange),
            RequestState::Done | RequestState::Cancelled { .. } => if step == AcceptStep::Wait {
                accept_failure(AccountErrorView::RequestCancelled)
            } else {
                (AcceptStep::Wait, AcceptActionView::AwaitChange)
            },
        },
        AcceptEvent::StreamEnded => accept_failure(AccountErrorView::StreamEnded),
        AcceptEvent::Started(outcome) => match outcome {
            StartOutcome::Started => (AcceptStep::Over, AcceptActionView::Watch { flow_id }),
            StartOutcome::NotStarted => accept_failure(AccountErrorView::SasNotStarted),
            StartOutcome::Failed { error } => accept_failure(
                AccountErrorView::Failed { reason: error@ },
            ),
        },
        AcceptEvent::SasAccepted(result) => match result {
            Ok(_) => (AcceptStep::Over, AcceptActionView::Watch { flow_id }),
            Err(e) => accept_failure(AccountErrorView::Failed { reason: e@ }),
        },
    }
}

/// A verification request to look up.
#[derive(Clone, Debug)]
pub struct RequestKey {
    pub user_id: String,
    pub flow_id: String,
}

/// The acceptance of the verification request of a flow.
#[derive(Clone, Debug)]
pub struct Acceptance {
    pub flow_id: String,
    pub step: AcceptStep,
}

impl<H> Account<H> {
    /// The verification request to look up for a user and a flow, if the text given for the user is
    /// a user identifier.
    pub fn get_verification_request(user_id: &str, flow_id: &str) -> (r: Option<RequestKey>)
        ensures
            match r {
                Some(key) => {
                    &&& user_id_error(user_id@) is None
                    &&& key.user_id@ == user_id@
                    &&& key.flow_id@ == flow_id@
                },
                None => user_id_error(user_id@) is Some,
            },
    {
        match parse_user_id(user_id) {
            Ok(user_id) => Some(RequestKey { user_id, flow_id: flow_id.to_owned() }),
            Err(_) => None,
        }
    }

    /// The acceptance of a user's verification request, and what to do first.
    pub fn begin_acceptance(user_id: &str, flow_id: &str) -> (r: (Acceptance, AcceptAction))
        ensures
            r.0.flow_id@ == flow_id@,
            (r.0.step, r.1@) == if user_id_error(user_id@) is None {
                (
                    AcceptStep::Lookup,
                    AcceptActionView::LookUp { user_id: user_id@, flow_id: flow_id@ },
                )
            } else {
                accept_failure(AccountErrorView::VerificationRequestNotFound)
            },
    {
        let (step, action) = match Self::get_verification_request(user_id, flow_id) {
            Some(key) => (
                AcceptStep::Lookup,
                AcceptAction::LookUp { user_id: key.user_id, flow_id: key.flow_id },
            ),
            None => (
                AcceptStep::Over,
                AcceptAction::Fail { error: AccountError::VerificationRequestNotFound },
            ),
        };
        (Acceptance { flow_id: flow_id.to_owned(), step }, action)
    }

    /// Accepts a verification request and gets SAS under way, step by step.
    pub fn accept_and_start_sas(acceptance: &mut Acceptance, event: AcceptEvent) -> (r:
        AcceptAction)
        requires
            old(acceptance).step.expects(event),
        ensures
            final(acceptance).flow_id@ == old(acceptance).flow_id@,
            (final(acceptance).step, r@) == accept_next(
                old(acceptance).flow_id@,
                old(acceptance).step,
                event,
            ),
    {
        let waiting = acceptance.step == AcceptStep::Wait;
        let action = match event {
            AcceptEvent::LookedUp { found } => if found {
                AcceptAction::AcceptRequest
            } else {
                AcceptAction::Fail { error: AccountError::VerificationRequestNotFound }
            },
            AcceptEvent::Accepted(result) => match result {
                Ok(_) => AcceptAction::ReadState,
                Err(reason) => AcceptAction::Fail { error: AccountError::Failed { reason } },
            },
            AcceptEvent::State(state) => match state {
                RequestState::Ready => AcceptAction::StartSas,
                RequestState::Transitioned { to_sas } => if to_sas {
                    AcceptAction::AcceptSas
                } else {
                    AcceptAction::AwaitChange
                },
                RequestState::Pending => AcceptAction::AwaitChange,
                RequestState::Done | RequestState::Cancelled { .. } => if waiting {
                    AcceptAction::Fail { error: AccountError::RequestCancelled }
                } else {
                    AcceptAction::AwaitChange
                },
            },
            AcceptEvent::StreamEnded => AcceptAction::Fail { error: AccountError::StreamEnded },
            AcceptEvent::Started(outcome) => match outcome {
                StartOutcome::Started => AcceptAction::Watch {
                    flow_id: acceptance.flow_id.clone(),
                },
                StartOutcome::NotStarted => AcceptAction::Fail {
                    error: AccountError::SasNotStarted,
                },
                StartOutcome::Failed { error } => AcceptAction::Fail {
                    error: AccountError::Failed { reason: error },
                },
            },
            AcceptEvent::SasAccepted(result) => match result {
                Ok(_) => AcceptAction::Watch { flow_id: acceptance.flow_id.clone() },
                Err(reason) => AcceptAction::Fail { error: AccountError::Failed { reason } },
            },
        };
        acceptance.step = match &action {
            AcceptAction::LookUp { .. } => AcceptStep::Lookup,
            AcceptAction::AcceptRequest => AcceptStep::Accept,
            AcceptAction::ReadState => AcceptStep::Check,
            AcceptAction::AwaitChange => AcceptStep::Wait,
            AcceptAction::StartSas => AcceptStep::Start,
            AcceptAction::AcceptSas => AcceptStep::AcceptSas,
            AcceptAction::Watch { .. } => AcceptStep::Over,
            AcceptAction::Fail { .. } => AcceptStep::Over,
        };
        action
    }
}

/// What is to be done in the course of an acceptance of the flow `flow_id` that waits at `step`, as
/// `events` happen one after the other. It ends with the first event that the step reached does not
/// wait for.
pub open spec fn accept_run(
    flow_id: Seq<char>,
    step: AcceptStep,
    events: Seq<AcceptEvent>,
) -> Seq<AcceptActionView>
    decreases events.len(),
{
    if events.len() == 0 || !step.expects(events[0]) {
        Seq::empty()
    } else {
        let (next, action) = accept_next(flow_id, step, events[0]);
        seq![action] + accept_run(flow_id, next, events.skip(1))
    }
}

/// Whether an action ends the acceptance.
pub open spec fn ends_acceptance(action: AcceptActionView) -> bool {
    action is Watch || action is Fail
}

/// Whether an action gets hold of SAS, by starting it or by accepting it.
pub open spec fn gets_sas(action: AcceptActionView) -> bool {
    action is StartSas || action is AcceptSas
}

/// Whether an event tells that the request is ready.
pub open spec fn tells_ready(event: AcceptEvent) -> bool {
    event matches AcceptEvent::State(state) && state is Ready
}

/// Whether an event tells that SAS was started from the request.
pub open spec fn tells_sas(event: AcceptEvent) -> bool {
    event matches AcceptEvent::State(state) && state matches RequestState::Transitioned { to_sas }
        && to_sas
}

/// What holds of every run, whatever step it begins at.
proof fn lemma_accept_run(flow_id: Seq<char>, step: AcceptStep, events: Seq<AcceptEvent>)
    ensures
        ({
            let run = accept_run(flow_id, step, events);
            &&& run.len() <= events.len()
            &&& step == AcceptStep::Over ==> run.len() == 0
            &&& step == AcceptStep::Start || step == AcceptStep::AcceptSas ==> run.len() <= 1
            &&& forall|i: int|
                0 <= i < run.len() && #[trigger] ends_acceptance(run[i]) ==> i == run.len() - 1
            &&& forall|i: int|
                0 <= i < run.len() && #[trigger] gets_sas(run[i]) ==> i >= run.len() - 2
            &&& forall|i: int|
                0 <= i < run.len() && (#[trigger] run[i]) is Watch ==> run[i] == (
                AcceptActionView::Watch { flow_id })
            &&& forall|i: int|
                0 <= i < run.len() && (#[trigger] run[i]) is Watch ==> if i == 0 {
                    step == AcceptStep::Start || step == AcceptStep::AcceptSas
                } else {
                    gets_sas(run[i - 1])
                }
            &&& forall|i: int|
                0 <= i < run.len() ==> {
                    &&& (#[trigger] run[i]) is StartSas <==> tells_ready(events[i])
                    &&& run[i] is AcceptSas <==> tells_sas(events[i])
                }
        }),
    decreases events.len(),
{
    if events.len() > 0 && step.expects(events[0]) {
        let (next, action) = accept_next(flow_id, step, events[0]);
        let rest = accept_run(flow_id, next, events.skip(1));
        let run = accept_run(flow_id, step, events);
        lemma_accept_run(flow_id, next, events.skip(1));
        assert(run == seq![action] + rest);
        assert forall|i: int| 0 < i < run.len() implies #[trigger] run[i] == rest[i - 1] && events[i]
            == events.skip(1)[i - 1] by {}
        assert forall|i: int| 0 <= i < run.len() && #[trigger] ends_acceptance(run[i]) implies i
            == run.len() - 1 by {
            if i > 0 {
                assert(ends_acceptance(rest[i - 1]));
            }
        }
        assert forall|i: int| 0 <= i < run.len() && #[trigger] gets_sas(run[i]) implies i
            >= run.len() - 2 by {
            if i > 0 {
                assert(gets_sas(rest[i - 1]));
            }
        }
        assert forall|i: int| 0 <= i < run.len() && (#[trigger] run[i]) is Watch implies if i == 0 {
            step == AcceptStep::Start || step == AcceptStep::AcceptSas
        } else {
            gets_sas(run[i - 1])
        } by {
            if i > 0 {
                assert(rest[i - 1] is Watch);
                if i > 1 {
                    assert(gets_sas(rest[i - 2]));
                }
            }
        }
    }
}

/// An acceptance ends with its first success or failure: nothing is asked for after it.
pub proof fn law_acceptance_ends_once(flow_id: Seq<char>, events: Seq<AcceptEvent>, i: int)
    requires
        0 <= i < accept_run(flow_id, AcceptStep::Lookup, events).len(),
        ends_acceptance(accept_run(flow_id, AcceptStep::Lookup, events)[i]),
    ensures
        i == accept_run(flow_id, AcceptStep::Lookup, events).len() - 1,
{
    lemma_accept_run(flow_id, AcceptStep::Lookup, events);
}

/// An acceptance succeeds only with SAS in hand: right before, SAS was started or accepted. What is
/// watched from then on is the SAS of its flow.
pub proof fn law_acceptance_succeeds_with_sas(flow_id: Seq<char>, events: Seq<AcceptEvent>, i: int)
    requires
        0 <= i < accept_run(flow_id, AcceptStep::Lookup, events).len(),
        accept_run(flow_id, AcceptStep::Lookup, events)[i] is Watch,
    ensures
        i > 0,
        gets_sas(accept_run(flow_id, AcceptStep::Lookup, events)[i - 1]),
        accept_run(flow_id, AcceptStep::Lookup, events)[i] == (AcceptActionView::Watch { flow_id }),
{
    lemma_accept_run(flow_id, AcceptStep::Lookup, events);
}

/// SAS is accepted exactly where the request turned out to be in SAS already, as the other side
/// started it, and started exactly where the request turned out to be ready.
pub proof fn law_only_foreign_sas_is_accepted(flow_id: Seq<char>, events: Seq<AcceptEvent>, i: int)
    requires
        0 <= i < accept_run(flow_id, AcceptStep::Lookup, events).len(),
    ensures
        accept_run(flow_id, AcceptStep::Lookup, events)[i] is AcceptSas <==> tells_sas(events[i]),
        accept_run(flow_id, AcceptStep::Lookup, events)[i] is StartSas <==> tells_ready(events[i]),
{
    lemma_accept_run(flow_id, AcceptStep::Lookup, events);
}

/// SAS is started or accepted at most once, and never both.
pub proof fn law_sas_is_got_once(flow_id: Seq<char>, events: Seq<AcceptEvent>, i: int, j: int)
    requires
        0 <= i < accept_run(flow_id, AcceptStep::Lookup, events).len(),
        0 <= j < accept_run(flow_id, AcceptStep::Lookup, events).len(),
        gets_sas(accept_run(flow_id, AcceptStep::Lookup, events)[i]),
        gets_sas(accept_run(flow_id, AcceptStep::Lookup, events)[j]),
    ensures
        i == j,
{
    lemma_sas_is_got_once(flow_id, AcceptStep::Lookup, events, i, j);
}

/// As [`law_sas_is_got_once`], whatever step the run begins at.
proof fn lemma_sas_is_got_once(
    flow_id: Seq<char>,
    step: AcceptStep,
    events: Seq<AcceptEvent>,
    i: int,
    j: int,
)
    requires
        0 <= i < accept_run(flow_id, step, events).len(),
        0 <= j < accept_run(flow_id, step, events).len(),
        gets_sas(accept_run(flow_id, step, events)[i]),
        gets_sas(accept_run(flow_id, step, events)[j]),
    ensures
        i == j,
    decreases events.len(),
{
    let (next, action) = accept_next(flow_id, step, events[0]);
    let rest = accept_run(flow_id, next, events.skip(1));
    assert(accept_run(flow_id, step, events) == seq![action] + rest);
    if gets_sas(action) {
        lemma_accept_run(flow_id, next, events.skip(1));
        assert(forall|k: int| 0 <= k < rest.len() ==> !gets_sas(#[trigger] rest[k])) by {
            if rest.len() > 0 {
                assert(rest[0] == accept_next(flow_id, next, events.skip(1)[0]).1);
            }
        }
    } else {
        lemma_sas_is_got_once(flow_id, next, events.skip(1), i - 1, j - 1);
    }
}

// ---------------------------------------------------------------------------------------------
// Requesting the verification of this session
// ---------------------------------------------------------------------------------------------

/// What happened on the way to a verification request to the account's other devices.
#[derive(Debug)]
pub enum SelfVerificationEvent {
    /// The user that the client is logged in for, if it is.
    Session { user_id: Option<String> },
    /// Whether the user's own identity was found, or the error with which that failed.
    Identity(Result<bool, String>),
    /// The flow of the request that was sent, or the error with which that failed.
    Requested(Result<String, String>),
}

/// The ways to verify a device.
#[derive(Clone, Copy, Debug, PartialEq, Eq, Structural)]
pub enum Method {
    Sas,
    /// By a QR code that the own device scans.
    QrCodeScan,
    /// By a QR code that the own device shows.
    QrCodeShow,
    /// By a QR code, on the side that did not scan it.
    Reciprocate,
}

/// What to do next to request the verification of this session.
#[derive(Debug)]
pub enum SelfVerificationAction {
    FetchIdentity { user_id: String },
    /// Request a verification of the own identity by one of these methods.
    Request { methods: Vec<Method> },
    /// The request was sent: watch it.
    Watch { watcher: RequestWatcher },
    Fail { error: AccountError },
}

/// Whether `action` is what to do next when `event` happens. The verification is requested by SAS
/// and in no other way.
pub open spec fn is_next(event: SelfVerificationEvent, action: SelfVerificationAction) -> bool {
    match event {
        SelfVerificationEvent::Session { user_id } => match user_id {
            Some(id) => action matches SelfVerificationAction::FetchIdentity { user_id: next } && next@
                == id@,
            None => fails_with(action, AccountErrorView::NotLoggedIn),
        },
        SelfVerificationEvent::Identity(result) => match result {
            Ok(found) => if found {
                action matches SelfVerificationAction::Request { methods } && methods@ == seq![
                    Method::Sas,
                ]
            } else {
                fails_with(action, AccountErrorView::OwnIdentityNotFound)
            },
            Err(e) => fails_with(action, AccountErrorView::Failed { reason: e@ }),
        },
        SelfVerificationEvent::Requested(result) => match result {
            Ok(flow_id) => action matches SelfVerificationAction::Watch { watcher } && watcher.flow_id@
                == flow_id@ && watcher.step == WatchStep::Check,
            Err(e) => fails_with(action, AccountErrorView::Failed { reason: e@ }),
        },
    }
}

/// Whether `action` is to fail with `error`.
pub open spec fn fails_with(action: SelfVerificationAction, error: AccountErrorView) -> bool {
    action matches SelfVerificationAction::Fail { error: e } && e@ == error
}

impl<H> Account<H> {
    /// Requests the verification of this session by the account's other devices, step by step.
    pub fn request_self_verification(event: SelfVerificationEvent) -> (r: SelfVerificationAction)
        ensures
            is_next(event, r),
    {
        match event {
            SelfVerificationEvent::Session { user_id } => match user_id {
                Some(user_id) => SelfVerificationAction::FetchIdentity { user_id },
                None => SelfVerificationAction::Fail { error: AccountError::NotLoggedIn },
            },
            SelfVerificationEvent::Identity(result) => match result {
                Ok(found) => if found {
                    let methods = vec![Method::Sas];
                    assert(methods@ == seq![Method::Sas]);
                    SelfVerificationAction::Request { methods }
                } else {
                    SelfVerificationAction::Fail { error: AccountError::OwnIdentityNotFound }
                },
                Err(reason) => SelfVerificationAction::Fail {
                    error: AccountError::Failed { reason },
                },
            },
            SelfVerificationEvent::Requested(result) => match result {
                Ok(flow_id) => SelfVerificationAction::Watch {
                    watcher: RequestWatcher::new(flow_id),
                },
                Err(reason) => SelfVerificationAction::Fail {
                    error: AccountError::Failed { reason },
                },
            },
        }
    }
}

// ---------------------------------------------------------------------------------------------
// Watching a request of this side
// ---------------------------------------------------------------------------------------------

/// What the watch over a request waits for.
#[derive(Clone, Copy, Debug, PartialEq, Eq, Structural)]
pub enum WatchStep {
    /// For the state of the request.
    Check,
    /// For the next state of the request.
    Wait,
    /// For SAS to be started.
    Start,
    /// For SAS to be accepted.
    AcceptSas,
    /// For nothing: it is over.
    Over,
}

/// What happened to a request under watch. `S` is SAS under way.
#[derive(Clone, Debug)]
pub enum WatchEvent<S> {
    State(RequestState),
    /// No further state will come.
    StreamEnded,
    Started(StartOutcome),
    /// It was tried to accept SAS; whether that worked makes no difference.
    SasAccepted { sas: S },
}

/// What to do next about a request under watch.
#[derive(Clone, Debug)]
pub enum WatchAction<S> {
    /// Await the next state of the request.
    AwaitChange,
    StartSas,
    AcceptSas,
    /// Push the event, if there is one. If SAS is under way, watch it from here on.
    Finish { event: Option<MatrixEvent<S>>, watch_sas: bool },
}

/// What a [`WatchAction`] holds.
pub enum WatchActionView<S> {
    AwaitChange,
    StartSas,
    AcceptSas,
    Finish { event: Option<MatrixEventView<S>>, watch_sas: bool },
}

impl<S> View for WatchAction<S> {
    type V = WatchActionView<S>;

    open spec fn view(&self) -> WatchActionView<S> {
        match *self {
            WatchAction::AwaitChange => WatchActionView::AwaitChange,
            WatchAction::StartSas => WatchActionView::StartSas,
            WatchAction::AcceptSas => WatchActionView::AcceptSas,
            WatchAction::Finish { event, watch_sas } => WatchActionView::Finish {
                event: opt_event(event),
                watch_sas,
            },
        }
    }
}

impl WatchStep {
    /// Whether `event` is of the kind that this step waits for.
    pub open spec fn expects<S>(self, event: WatchEvent<S>) -> bool {
        match self {
            WatchStep::Check => event is State,
            WatchStep::Wait => event is State || event is StreamEnded,
            WatchStep::Start => event is Started,
            WatchStep::AcceptSas => event is SasAccepted,
            WatchStep::Over => false,
        }
    }
}

/// The end of a watch without a word.
pub open spec fn watch_stop<S>() -> (WatchStep, WatchActionView<S>) {
    (WatchStep::Over, WatchActionView::Finish { event: None, watch_sas: false })
}

/// The end of a watch with the news that the verification was cancelled.
pub open spec fn watch_cancelled<S>(flow_id: Seq<char>, reason: Seq<char>) -> (
    WatchStep,
    WatchActionView<S>,
) {
    (
        WatchStep::Over,
        WatchActionView::Finish {
            event: Some(MatrixEventView::SasCancelled { flow_id, reason }),
            watch_sas: false,
        },
    )
}

/// The step that follows `step` when `event` happens to the request of the flow `flow_id`, and what
/// to do then. A request that is in SAS before the watch begins is left to its next state.
pub open spec fn watch_next<S>(flow_id: Seq<char>, step: WatchStep, event: WatchEvent<S>) -> (
    WatchStep,
    WatchActionView<S>,
) {
    match event {
        WatchEvent::State(state) => match state {
            RequestState::Pending => (WatchStep::Wait, WatchActionView::AwaitChange),
            RequestState::Ready => (WatchStep::Start, WatchActionView::StartSas),
            RequestState::Transitioned { to_sas } => if step == WatchStep::Check {
                (WatchStep::Wait, WatchActionView::AwaitChange)
            } else if to_sas {
                (WatchStep::AcceptSas, WatchActionView::AcceptSas)
            } else {
                watch_stop()
            },
            RequestState::Done => if step == WatchStep::Check {
                watch_cancelled(flow_id, "Request already finished"@)
            } else {
                watch_stop()
            },
            RequestState::Cancelled { reason } => if step == WatchStep::Check {
                watch_cancelled(flow_id, "Request already finished"@)
            } else {
                watch_cancelled(flow_id, reason@)
            },
        },
        WatchEvent::StreamEnded => watch_stop(),
        WatchEvent::Started(outcome) => match outcome {
            StartOutcome::Started => (WatchStep::AcceptSas, WatchActionView::AcceptSas),
            StartOutcome::NotStarted => watch_cancelled(flow_id, "Failed to start SAS"@),
            StartOutcome::Failed { error } => watch_cancelled(flow_id, error@),
        },
        WatchEvent::SasAccepted { sas } => (
            WatchStep::Over,
            WatchActionView::Finish {
                event: Some(MatrixEventView::SasStarted { flow_id, sas }),
                watch_sas: true,
            },
        ),
    }
}

/// The watch over a verification request that this side made.
#[derive(Clone, Debug)]
pub struct RequestWatcher {
    pub flow_id: String,
    pub step: WatchStep,
}

impl RequestWatcher {
    /// A watch that waits for the state of the request.
    pub fn new(flow_id: String) -> (r: Self)
        ensures
            r.flow_id@ == flow_id@,
            r.step == WatchStep::Check,
    {
        RequestWatcher { flow_id, step: WatchStep::Check }
    }

    /// The end of the watch with the news that the verification was cancelled.
    fn cancelled<S>(&self, reason: String) -> (r: WatchAction<S>)
        ensures
            r@ == watch_cancelled::<S>(self.flow_id@, reason@).1,
    {
        WatchAction::Finish {
            event: Some(MatrixEvent::SasCancelled { flow_id: self.flow_id.clone(), reason }),
            watch_sas: false,
        }
    }

    /// Takes the next step.
    pub fn next<S>(&mut self, event: WatchEvent<S>) -> (r: WatchAction<S>)
        requires
            old(self).step.expects(event),
        ensures
            final(self).flow_id@ == old(self).flow_id@,
            (final(self).step, r@) == watch_next(old(self).flow_id@, old(self).step, event),
    {
        let step = self.step;
        let action: WatchAction<S> = match event {
            WatchEvent::State(state) => match state {
                RequestState::Pending => WatchAction::AwaitChange,
                RequestState::Ready => WatchAction::StartSas,
                RequestState::Transitioned { to_sas } => if step == WatchStep::Check {
                    WatchAction::AwaitChange
                } else if to_sas {
                    WatchAction::AcceptSas
                } else {
                    WatchAction::Finish { event: None, watch_sas: false }
                },
                RequestState::Done => if step == WatchStep::Check {
                    self.cancelled("Request already finished".to_owned())
                } else {
                    WatchAction::Finish { event: None, watch_sas: false }
                },
                RequestState::Cancelled { reason } => if step == WatchStep::Check {
                    self.cancelled("Request already finished".to_owned())
                } else {
                    self.cancelled(reason)
                },
            },
            WatchEvent::StreamEnded => WatchAction::Finish { event: None, watch_sas: false },
            WatchEvent::Started(outcome) => match outcome {
                StartOutcome::Started => WatchAction::AcceptSas,
                StartOutcome::NotStarted => self.cancelled("Failed to start SAS".to_owned()),
                StartOutcome::Failed { error } => self.cancelled(error),
            },
            WatchEvent::SasAccepted { sas } => WatchAction::Finish {
                event: Some(MatrixEvent::SasStarted { flow_id: self.flow_id.clone(), sas }),
                watch_sas: true,
            },
        };
        self.step = match &action {
            WatchAction::AwaitChange => WatchStep::Wait,
            WatchAction::StartSas => WatchStep::Start,
            WatchAction::AcceptSas => WatchStep::AcceptSas,
            WatchAction::Finish { .. } => WatchStep::Over,
        };
        action
    }
}

/// What is to be done in the course of a watch that waits at `step`, as `events` happen one after
/// the other. It ends with the first event that the step reached does not wait for.
pub open spec fn watch_run<S>(
    flow_id: Seq<char>,
    step: WatchStep,
    events: Seq<WatchEvent<S>>,
) -> Seq<WatchActionView<S>>
    decreases events.len(),
{
    if events.len() == 0 || !step.expects(events[0]) {
        Seq::empty()
    } else {
        let (next, action) = watch_next(flow_id, step, events[0]);
        seq![action] + watch_run(flow_id, next, events.skip(1))
    }
}

/// Whether an action that comes of `event`, if it ends the watch over the flow `flow_id`, pushes
/// nothing, or that the SAS of the event was started and is watched from then on, or that the flow
/// was cancelled.
pub open spec fn ends_in_order<S>(
    flow_id: Seq<char>,
    event: WatchEvent<S>,
    action: WatchActionView<S>,
) -> bool {
    match action {
        WatchActionView::Finish { event: news, watch_sas } => match news {
            Some(news) => if watch_sas {
                event matches WatchEvent::SasAccepted { sas } && news
                    == (MatrixEventView::SasStarted { flow_id, sas })
            } else {
                news matches MatrixEventView::SasCancelled { flow_id: id, .. } && id == flow_id
            },
            None => !watch_sas,
        },
        _ => true,
    }
}

/// What holds of every watch, whatever step it begins at.
proof fn lemma_watch_run<S>(flow_id: Seq<char>, step: WatchStep, events: Seq<WatchEvent<S>>)
    ensures
        ({
            let run = watch_run(flow_id, step, events);
            &&& run.len() <= events.len()
            &&& step == WatchStep::Over ==> run.len() == 0
            &&& forall|i: int|
                0 <= i < run.len() && (#[trigger] run[i]) is Finish ==> i == run.len() - 1
            &&& forall|i: int|
                0 <= i < run.len() ==> ends_in_order(flow_id, events[i], #[trigger] run[i])
            &&& forall|i: int|
                0 <= i < run.len() && (#[trigger] run[i]) is Finish && run[i]->watch_sas ==> if i
                    == 0 {
                    step == WatchStep::AcceptSas
                } else {
                    run[i - 1] is AcceptSas
                }
        }),
    decreases events.len(),
{
    if events.len() > 0 && step.expects(events[0]) {
        let (next, action) = watch_next(flow_id, step, events[0]);
        let rest = watch_run(flow_id, next, events.skip(1));
        let run = watch_run(flow_id, step, events);
        lemma_watch_run(flow_id, next, events.skip(1));
        assert(run == seq![action] + rest);
        assert forall|i: int| 0 < i < run.len() implies #[trigger] run[i] == rest[i - 1] && events[i]
            == events.skip(1)[i - 1] by {}
        assert forall|i: int| 1 < i < run.len() implies (#[trigger] run[i]) == rest[i - 1] && run[i
            - 1] == rest[i - 2] by {}
    }
}

/// A watch pushes at most one event, with its last action: that SAS was started, with the SAS that
/// was accepted right before and is watched from then on, or that the verification was cancelled.
/// Either is about the flow under watch.
pub proof fn law_watch_tells_one_thing<S>(flow_id: Seq<char>, events: Seq<WatchEvent<S>>, i: int)
    requires
        0 <= i < watch_run(flow_id, WatchStep::Check, events).len(),
        watch_run(flow_id, WatchStep::Check, events)[i] is Finish,
    ensures
        i == watch_run(flow_id, WatchStep::Check, events).len() - 1,
        ends_in_order(flow_id, events[i], watch_run(flow_id, WatchStep::Check, events)[i]),
        watch_run(flow_id, WatchStep::Check, events)[i]->watch_sas ==> i > 0 && watch_run(
            flow_id,
            WatchStep::Check,
            events,
        )[i - 1] is AcceptSas,
{
    lemma_watch_run(flow_id, WatchStep::Check, events);
}

// ---------------------------------------------------------------------------------------------
// Watching SAS
// ---------------------------------------------------------------------------------------------

/// What SAS has to show right now.
#[derive(Clone, Debug)]
pub struct SasPoll {
    /// Whether both sides can show the short authentication string.
    pub can_be_presented: bool,
    /// The emojis by symbol and description, if both sides support them and have exchanged keys.
    pub emojis: Option<Vec<(String, String)>>,
}

/// How SAS changed.
#[derive(Clone, Debug)]
pub enum SasChange {
    /// The keys were exchanged; the emojis come along if both sides support them.
    KeysExchanged { emojis: Option<Vec<(String, String)>> },
    Done,
    Cancelled { reason: String },
    Other,
}

/// The news that there are emojis to show, if there are.
pub open spec fn emoji_news<S>(
    flow_id: Seq<char>,
    emojis: Option<Vec<(String, String)>>,
) -> Option<MatrixEventView<S>> {
    match emojis {
        Some(emojis) => Some(MatrixEventView::SasEmojis { flow_id, emojis: text_pairs(emojis@) }),
        None => None,
    }
}

/// The news in what SAS has to show right now.
pub open spec fn poll_news<S>(flow_id: Seq<char>, poll: SasPoll) -> Option<MatrixEventView<S>> {
    if poll.can_be_presented {
        emoji_news(flow_id, poll.emojis)
    } else {
        None
    }
}

/// The news in a change of SAS, after which it has `poll` to show. Emojis that do not come along
/// with the keys are asked for.
pub open spec fn change_news<S>(flow_id: Seq<char>, change: SasChange, poll: SasPoll) -> Option<
    MatrixEventView<S>,
> {
    match change {
        SasChange::KeysExchanged { emojis } => match emojis {
            Some(_) => emoji_news(flow_id, emojis),
            None => emoji_news(flow_id, poll.emojis),
        },
        SasChange::Done => Some(MatrixEventView::SasDone { flow_id }),
        SasChange::Cancelled { reason } => Some(
            MatrixEventView::SasCancelled { flow_id, reason: reason@ },
        ),
        SasChange::Other => poll_news(flow_id, poll),
    }
}

/// Whether SAS is over with a change.
pub open spec fn is_last(change: SasChange) -> bool {
    change is Done || change is Cancelled
}

/// The watch over SAS.
#[derive(Clone, Debug)]
pub struct SasWatcher {
    pub flow_id: String,
    /// Whether there is nothing more to watch.
    pub finished: bool,
}

impl SasWatcher {
    /// A watch that has just begun, and what to push at its beginning: keys may have been exchanged
    /// before.
    pub fn begin<S>(flow_id: String, poll: SasPoll) -> (r: (Self, Option<MatrixEvent<S>>))
        ensures
            r.0.flow_id@ == flow_id@,
            !r.0.finished,
            opt_event(r.1) == poll_news::<S>(flow_id@, poll),
    {
        let watcher = SasWatcher { flow_id, finished: false };
        let event = watcher.poll_event(poll);
        (watcher, event)
    }

    fn emoji_event<S>(&self, emojis: Option<Vec<(String, String)>>) -> (r: Option<MatrixEvent<S>>)
        ensures
            opt_event(r) == emoji_news::<S>(self.flow_id@, emojis),
    {
        match emojis {
            Some(emojis) => Some(MatrixEvent::SasEmojis { flow_id: self.flow_id.clone(), emojis }),
            None => None,
        }
    }

    fn poll_event<S>(&self, poll: SasPoll) -> (r: Option<MatrixEvent<S>>)
        ensures
            opt_event(r) == poll_news::<S>(self.flow_id@, poll),
    {
        if poll.can_be_presented {
            self.emoji_event(poll.emojis)
        } else {
            None
        }
    }

    /// What to push when SAS changed and has `poll` to show.
    pub fn next<S>(&mut self, change: SasChange, poll: SasPoll) -> (r: Option<MatrixEvent<S>>)
        requires
            !old(self).finished,
        ensures
            final(self).flow_id@ == old(self).flow_id@,
            final(self).finished == is_last(change),
            opt_event(r) == change_news::<S>(old(self).flow_id@, change, poll),
    {
        match change {
            SasChange::KeysExchanged { emojis } => match emojis {
                Some(emojis) => self.emoji_event(Some(emojis)),
                None => self.emoji_event(poll.emojis),
            },
            SasChange::Done => {
                self.finished = true;
                Some(MatrixEvent::SasDone { flow_id: self.flow_id.clone() })
            },
            SasChange::Cancelled { reason } => {
                self.finished = true;
                Some(MatrixEvent::SasCancelled { flow_id: self.flow_id.clone(), reason })
            },
            SasChange::Other => self.poll_event(poll),
        }
    }
}

/// The events in optional news.
pub open spec fn events_in<S>(news: Option<MatrixEventView<S>>) -> Seq<MatrixEventView<S>> {
    match news {
        Some(event) => seq![event],
        None => seq![],
    }
}

/// What is pushed as SAS changes and has each time something to show, until it is over.
pub open spec fn sas_changes_run<S>(flow_id: Seq<char>, changes: Seq<(SasChange, SasPoll)>) -> Seq<
    MatrixEventView<S>,
>
    decreases changes.len(),
{
    if changes.len() == 0 {
        seq![]
    } else {
        let (change, poll) = changes[0];
        let news = events_in(change_news::<S>(flow_id, change, poll));
        if is_last(change) {
            news
        } else {
            news + sas_changes_run(flow_id, changes.skip(1))
        }
    }
}

/// What is pushed in the course of a watch: at its beginning, when SAS has `first` to show, and as
/// it changes.
pub open spec fn sas_run<S>(
    flow_id: Seq<char>,
    first: SasPoll,
    changes: Seq<(SasChange, SasPoll)>,
) -> Seq<MatrixEventView<S>> {
    events_in(poll_news::<S>(flow_id, first)) + sas_changes_run(flow_id, changes)
}

/// Whether the event at `i` of `run` is about the flow `flow_id`, and emojis unless it is the last.
pub open spec fn in_its_place<S>(flow_id: Seq<char>, run: Seq<MatrixEventView<S>>, i: int) -> bool {
    match run[i] {
        MatrixEventView::SasEmojis { flow_id: id, .. } => id == flow_id,
        MatrixEventView::SasDone { flow_id: id } => id == flow_id && i == run.len() - 1,
        MatrixEventView::SasCancelled { flow_id: id, .. } => id == flow_id && i == run.len() - 1,
        _ => false,
    }
}

proof fn lemma_changes_in_their_place<S>(
    flow_id: Seq<char>,
    changes: Seq<(SasChange, SasPoll)>,
    i: int,
)
    requires
        0 <= i < sas_changes_run::<S>(flow_id, changes).len(),
    ensures
        in_its_place(flow_id, sas_changes_run::<S>(flow_id, changes), i),
    decreases changes.len(),
{
    let (change, poll) = changes[0];
    let news = events_in(change_news::<S>(flow_id, change, poll));
    if !is_last(change) && i >= news.len() {
        lemma_changes_in_their_place::<S>(flow_id, changes.skip(1), i - news.len());
    }
}

/// All that a watch over SAS pushes is about its flow. Before the last event it is nothing but
/// emojis: SAS is said to be done or cancelled at most once, and nothing follows.
pub proof fn law_sas_ends_once<S>(
    flow_id: Seq<char>,
    first: SasPoll,
    changes: Seq<(SasChange, SasPoll)>,
    i: int,
)
    requires
        0 <= i < sas_run::<S>(flow_id, first, changes).len(),
    ensures
        in_its_place(flow_id, sas_run::<S>(flow_id, first, changes), i),
{
    let news = events_in(poll_news::<S>(flow_id, first));
    if i >= news.len() {
        lemma_changes_in_their_place::<S>(flow_id, changes, i - news.len());
    }
}

proof fn lemma_end_is_told<S>(flow_id: Seq<char>, changes: Seq<(SasChange, SasPoll)>, i: int)
    requires
        0 <= i < changes.len(),
        is_last(changes[i].0),
        forall|j: int| 0 <= j < i ==> !is_last(#[trigger] changes[j].0),
    ensures
        sas_changes_run::<S>(flow_id, changes).len() > 0,
        Some(sas_changes_run::<S>(flow_id, changes).last()) == change_news::<S>(
            flow_id,
            changes[i].0,
            changes[i].1,
        ),
        sas_changes_run::<S>(flow_id, changes) == sas_changes_run::<S>(
            flow_id,
            changes.take(i + 1),
        ),
    decreases changes.len(),
{
    let seen = changes.take(i + 1);
    assert(seen[0] == changes[0]);
    if i > 0 {
        let tail = changes.skip(1);
        assert(!is_last(changes[0].0));
        assert forall|j: int| 0 <= j < i - 1 implies !is_last(#[trigger] tail[j].0) by {
            assert(tail[j] == changes[j + 1]);
        }
        lemma_end_is_told::<S>(flow_id, tail, i - 1);
        assert(seen.skip(1) == tail.take(i));
    }
}

/// A watch over SAS tells how it ended, by the first change with which it was over, the one at `i`:
/// its last event says that SAS is done if it is, and else that it was cancelled, with the reason
/// given. What comes after that change is never told.
pub proof fn law_sas_end_is_told<S>(
    flow_id: Seq<char>,
    first: SasPoll,
    changes: Seq<(SasChange, SasPoll)>,
    i: int,
)
    requires
        0 <= i < changes.len(),
        is_last(changes[i].0),
        forall|j: int| 0 <= j < i ==> !is_last(#[trigger] changes[j].0),
    ensures
        sas_run::<S>(flow_id, first, changes).len() > 0,
        sas_run::<S>(flow_id, first, changes).last() == match changes[i].0 {
            SasChange::Cancelled { reason } => MatrixEventView::<S>::SasCancelled {
                flow_id,
                reason: reason@,
            },
            _ => MatrixEventView::<S>::SasDone { flow_id },
        },
        sas_run::<S>(flow_id, first, changes) == sas_run::<S>(flow_id, first, changes.take(i + 1)),
{
    lemma_end_is_told::<S>(flow_id, changes, i);
}

// ---------------------------------------------------------------------------------------------
// What each flow does in answer to what happens
// ---------------------------------------------------------------------------------------------

/// A verification request is looked up by the user and the flow given, if ruma takes the user
/// identifier, and is else answered as not found.
pub proof fn law_request_is_looked_up_as_given<H>(
    user_id: &str,
    flow_id: &str,
    key: Option<RequestKey>,
    first: (Acceptance, AcceptAction),
)
    requires
        call_ensures(Account::<H>::get_verification_request, (user_id, flow_id), key),
        call_ensures(Account::<H>::begin_acceptance, (user_id, flow_id), first),
    ensures
        key is Some <==> user_id_error(user_id@) is None,
        key matches Some(k) ==> k.user_id@ == user_id@ && k.flow_id@ == flow_id@,
        first.0.flow_id@ == flow_id@,
        key is Some ==> first.0.step == AcceptStep::Lookup,
        key is Some ==> (first.1 matches AcceptAction::LookUp { user_id: user, flow_id: flow }
            && user@ == user_id@ && flow@ == flow_id@),
        key is None ==> first.0.step == AcceptStep::Over,
        key is None ==> first.1 matches AcceptAction::Fail {
            error: AccountError::VerificationRequestNotFound,
        },
{
}

/// Whether an event tells that the request has ended.
pub open spec fn tells_end(event: AcceptEvent) -> bool {
    event matches AcceptEvent::State(state) && (state is Done || state is Cancelled)
}

/// Whether `event` is what `action` brings about.
pub open spec fn answers(action: AcceptActionView, event: AcceptEvent) -> bool {
    match action {
        AcceptActionView::LookUp { .. } => event is LookedUp,
        AcceptActionView::AcceptRequest => event is Accepted,
        AcceptActionView::ReadState => event is State,
        AcceptActionView::AwaitChange => event is State || event is StreamEnded,
        AcceptActionView::StartSas => event is Started,
        AcceptActionView::AcceptSas => event is SasAccepted,
        AcceptActionView::Watch { .. } => false,
        AcceptActionView::Fail { .. } => false,
    }
}

/// The step at which an acceptance waits for what `action` brings about.
spec fn step_after(action: AcceptActionView) -> AcceptStep {
    match action {
        AcceptActionView::LookUp { .. } => AcceptStep::Lookup,
        AcceptActionView::AcceptRequest => AcceptStep::Accept,
        AcceptActionView::ReadState => AcceptStep::Check,
        AcceptActionView::AwaitChange => AcceptStep::Wait,
        AcceptActionView::StartSas => AcceptStep::Start,
        AcceptActionView::AcceptSas => AcceptStep::AcceptSas,
        AcceptActionView::Watch { .. } => AcceptStep::Over,
        AcceptActionView::Fail { .. } => AcceptStep::Over,
    }
}

/// The step at which the event at `i` of a run that begins at `step` happens.
spec fn step_at(step: AcceptStep, run: Seq<AcceptActionView>, i: int) -> AcceptStep {
    if i == 0 {
        step
    } else {
        step_after(run[i - 1])
    }
}

proof fn lemma_accept_step(
    flow_id: Seq<char>,
    step: AcceptStep,
    events: Seq<AcceptEvent>,
    i: int,
)
    requires
        0 <= i < accept_run(flow_id, step, events).len(),
    ensures
        accept_run(flow_id, step, events).len() <= events.len(),
        accept_run(flow_id, step, events)[i] == accept_next(
            flow_id,
            step_at(step, accept_run(flow_id, step, events), i),
            events[i],
        ).1,
        step_at(step, accept_run(flow_id, step, events), i).expects(events[i]),
    decreases events.len(),
{
    let (next, action) = accept_next(flow_id, step, events[0]);
    let tail = events.skip(1);
    let rest = accept_run(flow_id, next, tail);
    let run = accept_run(flow_id, step, events);
    assert(run == seq![action] + rest);
    assert(next == step_after(action));
    if rest.len() > 0 {
        lemma_accept_step(flow_id, next, tail, if i > 0 {
            i - 1
        } else {
            0
        });
    }
    if i > 0 {
        assert(run[i] == rest[i - 1]);
        assert(events[i] == tail[i - 1]);
        assert(step_at(step, run, i) == step_at(next, rest, i - 1)) by {
            if i > 1 {
                assert(run[i - 1] == rest[i - 2]);
            }
        }
    }
}

proof fn lemma_accept_step_stop(flow_id: Seq<char>, step: AcceptStep, events: Seq<AcceptEvent>)
    ensures
        accept_run(flow_id, step, events).len() <= events.len(),
        accept_run(flow_id, step, events).len() < events.len() ==> !step_at(
            step,
            accept_run(flow_id, step, events),
            accept_run(flow_id, step, events).len() as int,
        ).expects(events[accept_run(flow_id, step, events).len() as int]),
    decreases events.len(),
{
    if events.len() > 0 && step.expects(events[0]) {
        let (next, action) = accept_next(flow_id, step, events[0]);
        let tail = events.skip(1);
        let rest = accept_run(flow_id, next, tail);
        let run = accept_run(flow_id, step, events);
        lemma_accept_step_stop(flow_id, next, tail);
        assert(run == seq![action] + rest);
        assert(next == step_after(action));
        let n = run.len() as int;
        if n < events.len() {
            assert(step_at(step, run, n) == step_at(next, rest, n - 1)) by {
                if n > 1 {
                    assert(run[n - 1] == rest[n - 2]);
                }
            }
            assert(events[n] == tail[n - 1]);
        }
    }
}

/// An acceptance goes on as long as what is to be done brings its answer about, and no longer: it
/// is begun by looking the request up.
pub proof fn law_acceptance_goes_on_with_each_answer(
    flow_id: Seq<char>,
    events: Seq<AcceptEvent>,
    i: int,
)
    requires
        0 <= i < events.len(),
        i <= accept_run(flow_id, AcceptStep::Lookup, events).len(),
    ensures
        i < accept_run(flow_id, AcceptStep::Lookup, events).len() <==> if i == 0 {
            events[i] is LookedUp
        } else {
            answers(accept_run(flow_id, AcceptStep::Lookup, events)[i - 1], events[i])
        },
{
    lemma_accept_step_stop(flow_id, AcceptStep::Lookup, events);
    if i < accept_run(flow_id, AcceptStep::Lookup, events).len() {
        lemma_accept_step(flow_id, AcceptStep::Lookup, events, i);
    }
    if i > 0 {
        lemma_accept_step(flow_id, AcceptStep::Lookup, events, i - 1);
    }
}

/// An acceptance does what each event calls for: it accepts a request that was found, reads its
/// state, awaits the next one while the request is neither ready nor in SAS, and watches SAS once
/// that was started or accepted. An end of the request counts only while the next state is awaited.
pub proof fn law_acceptance_does_what_is_called_for(
    flow_id: Seq<char>,
    events: Seq<AcceptEvent>,
    i: int,
)
    requires
        0 <= i < accept_run(flow_id, AcceptStep::Lookup, events).len(),
    ensures
        ({
            let run = accept_run(flow_id, AcceptStep::Lookup, events);
            &&& run[i] is AcceptRequest <==> (events[i] matches AcceptEvent::LookedUp { found }
                && found)
            &&& run[i] is ReadState <==> (events[i] matches AcceptEvent::Accepted(result)
                && result is Ok)
            &&& run[i] is AwaitChange <==> events[i] is State && !tells_ready(events[i])
                && !tells_sas(events[i]) && !(tells_end(events[i]) && run[i - 1] is AwaitChange)
            &&& run[i] is Watch <==> {
                ||| events[i] matches AcceptEvent::Started(outcome) && outcome is Started
                ||| events[i] matches AcceptEvent::SasAccepted(result) && result is Ok
            }
        }),
{
    lemma_accept_step(flow_id, AcceptStep::Lookup, events, i);
    if i > 0 {
        lemma_accept_step(flow_id, AcceptStep::Lookup, events, i - 1);
    }
}

/// An acceptance fails with the error of what failed, and only then.
pub proof fn law_acceptance_fails_with_what_failed(
    flow_id: Seq<char>,
    events: Seq<AcceptEvent>,
    i: int,
    error: AccountErrorView,
)
    requires
        0 <= i < accept_run(flow_id, AcceptStep::Lookup, events).len(),
    ensures
        accept_run(flow_id, AcceptStep::Lookup, events)[i] == (AcceptActionView::Fail { error })
            <==> {
            ||| events[i] matches AcceptEvent::LookedUp { found } && !found && error
                == AccountErrorView::VerificationRequestNotFound
            ||| events[i] matches AcceptEvent::Accepted(Err(e)) && error == (
            AccountErrorView::Failed { reason: e@ })
            ||| tells_end(events[i]) && accept_run(flow_id, AcceptStep::Lookup, events)[i
                - 1] is AwaitChange && error == AccountErrorView::RequestCancelled
            ||| events[i] is StreamEnded && error == AccountErrorView::StreamEnded
            ||| events[i] matches AcceptEvent::Started(outcome) && outcome is NotStarted && error
                == AccountErrorView::SasNotStarted
            ||| events[i] matches AcceptEvent::Started(StartOutcome::Failed { error: e }) && error
                == (AccountErrorView::Failed { reason: e@ })
            ||| events[i] matches AcceptEvent::SasAccepted(Err(e)) && error == (
            AccountErrorView::Failed { reason: e@ })
        },
{
    lemma_accept_step(flow_id, AcceptStep::Lookup, events, i);
    if i > 0 {
        lemma_accept_step(flow_id, AcceptStep::Lookup, events, i - 1);
    }
}

/// One step of an acceptance answers what happened, keeps the flow, and waits for what it asks for.
pub proof fn law_acceptance_answers_what_happened<H>(
    acceptance: &mut Acceptance,
    event: AcceptEvent,
    r: AcceptAction,
)
    requires
        old(acceptance).step.expects(event),
        call_ensures(Account::<H>::accept_and_start_sas, (acceptance, event), r),
    ensures
        final(acceptance).flow_id@ == old(acceptance).flow_id@,
        !(r is LookUp),
        r is AcceptRequest <==> (event matches AcceptEvent::LookedUp { found } && found),
        r is ReadState <==> (event matches AcceptEvent::Accepted(result) && result is Ok),
        r is StartSas <==> tells_ready(event),
        r is AcceptSas <==> tells_sas(event),
        r is AwaitChange <==> event is State && !tells_ready(event) && !tells_sas(event) && !(
        tells_end(event) && old(acceptance).step == AcceptStep::Wait),
        r matches AcceptAction::Watch { flow_id } ==> flow_id@ == old(acceptance).flow_id@,
        r is Watch <==> {
            ||| event matches AcceptEvent::Started(outcome) && outcome is Started
            ||| event matches AcceptEvent::SasAccepted(result) && result is Ok
        },
        final(acceptance).step == AcceptStep::Accept <==> r is AcceptRequest,
        final(acceptance).step == AcceptStep::Check <==> r is ReadState,
        final(acceptance).step == AcceptStep::Wait <==> r is AwaitChange,
        final(acceptance).step == AcceptStep::Start <==> r is StartSas,
        final(acceptance).step == AcceptStep::AcceptSas <==> r is AcceptSas,
        final(acceptance).step == AcceptStep::Over <==> r is Watch || r is Fail,
{
}

/// The verification of this session is requested of the user who is logged in, once their own
/// identity was found, by SAS alone; and the request that was sent is watched from its state on.
/// Otherwise it fails with what failed.
pub proof fn law_self_verification_is_requested_by_sas<H>(
    event: SelfVerificationEvent,
    r: SelfVerificationAction,
)
    requires
        call_ensures(Account::<H>::request_self_verification, (event,), r),
    ensures
        event matches SelfVerificationEvent::Session { user_id: Some(id) } ==> (
        r matches SelfVerificationAction::FetchIdentity { user_id } && user_id@ == id@),
        event matches SelfVerificationEvent::Session { user_id: None } ==>
            r matches SelfVerificationAction::Fail { error: AccountError::NotLoggedIn },
        event matches SelfVerificationEvent::Identity(Ok(true)) ==> (
        r matches SelfVerificationAction::Request { methods } && methods@.len() == 1 && methods@[0]
            == Method::Sas),
        event matches SelfVerificationEvent::Identity(Ok(false)) ==>
            r matches SelfVerificationAction::Fail { error: AccountError::OwnIdentityNotFound },
        event matches SelfVerificationEvent::Identity(Err(e)) ==> (
        r matches SelfVerificationAction::Fail { error: AccountError::Failed { reason } } && reason@
            == e@),
        event matches SelfVerificationEvent::Requested(Ok(flow_id)) ==> (
        r matches SelfVerificationAction::Watch { watcher } && watcher.flow_id@ == flow_id@
            && watcher.step == WatchStep::Check),
        event matches SelfVerificationEvent::Requested(Err(e)) ==> (
        r matches SelfVerificationAction::Fail { error: AccountError::Failed { reason } } && reason@
            == e@),
{
}

/// The step at which a watch waits for what `action` brings about.
spec fn watch_step_after<S>(action: WatchActionView<S>) -> WatchStep {
    match action {
        WatchActionView::AwaitChange => WatchStep::Wait,
        WatchActionView::StartSas => WatchStep::Start,
        WatchActionView::AcceptSas => WatchStep::AcceptSas,
        WatchActionView::Finish { .. } => WatchStep::Over,
    }
}

spec fn watch_step_at<S>(step: WatchStep, run: Seq<WatchActionView<S>>, i: int) -> WatchStep {
    if i == 0 {
        step
    } else {
        watch_step_after(run[i - 1])
    }
}

proof fn lemma_watch_step<S>(
    flow_id: Seq<char>,
    step: WatchStep,
    events: Seq<WatchEvent<S>>,
    i: int,
)
    requires
        0 <= i < watch_run(flow_id, step, events).len(),
    ensures
        watch_run(flow_id, step, events).len() <= events.len(),
        watch_run(flow_id, step, events)[i] == watch_next(
            flow_id,
            watch_step_at(step, watch_run(flow_id, step, events), i),
            events[i],
        ).1,
        watch_step_at(step, watch_run(flow_id, step, events), i).expects(events[i]),
    decreases events.len(),
{
    let (next, action) = watch_next(flow_id, step, events[0]);
    let tail = events.skip(1);
    let rest = watch_run(flow_id, next, tail);
    let run = watch_run(flow_id, step, events);
    assert(run == seq![action] + rest);
    assert(next == watch_step_after(action));
    if rest.len() > 0 {
        lemma_watch_step(flow_id, next, tail, if i > 0 {
            i - 1
        } else {
            0
        });
    }
    if i > 0 {
        assert(run[i] == rest[i - 1]);
        assert(events[i] == tail[i - 1]);
        assert(watch_step_at(step, run, i) == watch_step_at(next, rest, i - 1)) by {
            if i > 1 {
                assert(run[i - 1] == rest[i - 2]);
            }
        }
    }
}

proof fn lemma_watch_step_stop<S>(flow_id: Seq<char>, step: WatchStep, events: Seq<WatchEvent<S>>)
    ensures
        watch_run(flow_id, step, events).len() <= events.len(),
        watch_run(flow_id, step, events).len() < events.len() ==> !watch_step_at(
            step,
            watch_run(flow_id, step, events),
            watch_run(flow_id, step, events).len() as int,
        ).expects(events[watch_run(flow_id, step, events).len() as int]),
    decreases events.len(),
{
    if events.len() > 0 && step.expects(events[0]) {
        let (next, action) = watch_next(flow_id, step, events[0]);
        let tail = events.skip(1);
        let rest = watch_run(flow_id, next, tail);
        let run = watch_run(flow_id, step, events);
        lemma_watch_step_stop(flow_id, next, tail);
        assert(run == seq![action] + rest);
        assert(next == watch_step_after(action));
        let n = run.len() as int;
        if n < events.len() {
            assert(watch_step_at(step, run, n) == watch_step_at(next, rest, n - 1)) by {
                if n > 1 {
                    assert(run[n - 1] == rest[n - 2]);
                }
            }
            assert(events[n] == tail[n - 1]);
        }
    }
}

/// Whether an event tells that the request under watch is ready.
pub open spec fn watch_tells_ready<S>(event: WatchEvent<S>) -> bool {
    event matches WatchEvent::State(state) && state is Ready
}

/// Whether `event` is what `action` brings about.
pub open spec fn watch_answers<S>(action: WatchActionView<S>, event: WatchEvent<S>) -> bool {
    match action {
        WatchActionView::AwaitChange => event is State || event is StreamEnded,
        WatchActionView::StartSas => event is Started,
        WatchActionView::AcceptSas => event is SasAccepted,
        WatchActionView::Finish { .. } => false,
    }
}

/// A watch goes on as long as what is to be done brings its answer about, and no longer: it is
/// begun by the state of the request.
pub proof fn law_watch_goes_on_with_each_answer<S>(
    flow_id: Seq<char>,
    events: Seq<WatchEvent<S>>,
    i: int,
)
    requires
        0 <= i < events.len(),
        i <= watch_run(flow_id, WatchStep::Check, events).len(),
    ensures
        i < watch_run(flow_id, WatchStep::Check, events).len() <==> if i == 0 {
            events[i] is State
        } else {
            watch_answers(watch_run(flow_id, WatchStep::Check, events)[i - 1], events[i])
        },
{
    lemma_watch_step_stop(flow_id, WatchStep::Check, events);
    if i < watch_run(flow_id, WatchStep::Check, events).len() {
        lemma_watch_step(flow_id, WatchStep::Check, events, i);
    }
    if i > 0 {
        lemma_watch_step(flow_id, WatchStep::Check, events, i - 1);
    }
}

/// A watch asks for SAS to be started exactly where it is told that the request is ready, be it by
/// the first state or by a later one. It asks for SAS to be accepted exactly where that was
/// started, by itself or, as a later state tells, by the other side.
pub proof fn law_ready_request_is_started<S>(
    flow_id: Seq<char>,
    events: Seq<WatchEvent<S>>,
    i: int,
)
    requires
        0 <= i < watch_run(flow_id, WatchStep::Check, events).len(),
    ensures
        watch_run(flow_id, WatchStep::Check, events)[i] is StartSas <==> watch_tells_ready(events[i]),
        watch_run(flow_id, WatchStep::Check, events)[i] is AcceptSas <==> {
            ||| events[i] matches WatchEvent::Started(outcome) && outcome is Started
            ||| i > 0 && (events[i] matches WatchEvent::State(RequestState::Transitioned { to_sas })
                && to_sas)
        },
        watch_run(flow_id, WatchStep::Check, events)[i] is AwaitChange <==> {
            ||| events[i] matches WatchEvent::State(state) && state is Pending
            ||| i == 0 && (events[i] matches WatchEvent::State(state) && state is Transitioned)
        },
{
    lemma_watch_step(flow_id, WatchStep::Check, events, i);
    if i > 0 {
        lemma_watch_step(flow_id, WatchStep::Check, events, i - 1);
    }
}

/// A watch tells of the SAS that was accepted, and of a cancellation with its reason: that of a
/// request which is cancelled, that SAS could not be started, or that the request had ended before.
/// It ends without a word where the request is done, goes another way than SAS, or no longer
/// changes.
pub proof fn law_watch_tells_how_it_ended<S>(
    flow_id: Seq<char>,
    events: Seq<WatchEvent<S>>,
    i: int,
)
    requires
        0 <= i < watch_run(flow_id, WatchStep::Check, events).len(),
    ensures
        ({
            let action = watch_run(flow_id, WatchStep::Check, events)[i];
            let cancelled = |reason: Seq<char>|
                WatchActionView::<S>::Finish {
                    event: Some(MatrixEventView::SasCancelled { flow_id, reason }),
                    watch_sas: false,
                };
            let silent = WatchActionView::<S>::Finish { event: None, watch_sas: false };
            &&& events[i] matches WatchEvent::State(RequestState::Cancelled { reason }) ==> action
                == if i == 0 {
                cancelled("Request already finished"@)
            } else {
                cancelled(reason@)
            }
            &&& events[i] matches WatchEvent::State(RequestState::Done) ==> action == if i == 0 {
                cancelled("Request already finished"@)
            } else {
                silent
            }
            &&& i > 0 && (events[i] matches WatchEvent::State(
                RequestState::Transitioned { to_sas },
            ) && !to_sas) ==> action == silent
            &&& events[i] is StreamEnded ==> action == silent
            &&& events[i] matches WatchEvent::Started(StartOutcome::NotStarted) ==> action
                == cancelled("Failed to start SAS"@)
            &&& events[i] matches WatchEvent::Started(StartOutcome::Failed { error }) ==> action
                == cancelled(error@)
            &&& events[i] matches WatchEvent::SasAccepted { sas } ==> action
                == WatchActionView::<S>::Finish {
                event: Some(MatrixEventView::SasStarted { flow_id, sas }),
                watch_sas: true,
            }
        }),
{
    lemma_watch_step(flow_id, WatchStep::Check, events, i);
    if i > 0 {
        lemma_watch_step(flow_id, WatchStep::Check, events, i - 1);
    }
}

/// Whether `action` ends a watch with the news that the flow was cancelled for `reason`.
pub open spec fn tells_cancelled<S>(
    action: WatchAction<S>,
    flow_id: Seq<char>,
    reason: Seq<char>,
) -> bool {
    &&& action matches WatchAction::Finish { event, watch_sas }
    &&& !watch_sas
    &&& event matches Some(MatrixEvent::SasCancelled { flow_id: flow, reason: why })
    &&& flow@ == flow_id
    &&& why@ == reason
}

/// Whether `action` ends a watch without a word.
pub open spec fn ends_silently<S>(action: WatchAction<S>) -> bool {
    action matches WatchAction::Finish { event, watch_sas } && event is None && !watch_sas
}

/// One step of a watch answers what happened to the request, keeps the flow, and waits for what it
/// asks for. At its beginning it waits for the request's state.
pub proof fn law_watch_answers_what_happened<S>(
    watcher: &mut RequestWatcher,
    event: WatchEvent<S>,
    r: WatchAction<S>,
)
    requires
        old(watcher).step.expects(event),
        call_ensures(RequestWatcher::next::<S>, (watcher, event), r),
    ensures
        final(watcher).flow_id@ == old(watcher).flow_id@,
        r is StartSas <==> watch_tells_ready(event),
        event matches WatchEvent::State(RequestState::Pending) ==> r is AwaitChange,
        event matches WatchEvent::State(RequestState::Transitioned { to_sas }) ==> {
            &&& old(watcher).step == WatchStep::Check ==> r is AwaitChange
            &&& old(watcher).step != WatchStep::Check && to_sas ==> r is AcceptSas
            &&& old(watcher).step != WatchStep::Check && !to_sas ==> ends_silently(r)
        },
        event matches WatchEvent::State(RequestState::Done) ==> {
            &&& old(watcher).step == WatchStep::Check ==> tells_cancelled(
                r,
                old(watcher).flow_id@,
                "Request already finished"@,
            )
            &&& old(watcher).step != WatchStep::Check ==> ends_silently(r)
        },
        event matches WatchEvent::State(RequestState::Cancelled { reason }) ==> {
            &&& old(watcher).step == WatchStep::Check ==> tells_cancelled(
                r,
                old(watcher).flow_id@,
                "Request already finished"@,
            )
            &&& old(watcher).step != WatchStep::Check ==> tells_cancelled(
                r,
                old(watcher).flow_id@,
                reason@,
            )
        },
        event is StreamEnded ==> ends_silently(r),
        event matches WatchEvent::Started(StartOutcome::Started) ==> r is AcceptSas,
        event matches WatchEvent::Started(StartOutcome::NotStarted) ==> tells_cancelled(
            r,
            old(watcher).flow_id@,
            "Failed to start SAS"@,
        ),
        event matches WatchEvent::Started(StartOutcome::Failed { error }) ==> tells_cancelled(
            r,
            old(watcher).flow_id@,
            error@,
        ),
        event matches WatchEvent::SasAccepted { sas } ==> {
            &&& r matches WatchAction::Finish { event: news, watch_sas }
            &&& watch_sas
            &&& news matches Some(MatrixEvent::SasStarted { flow_id, sas: started })
            &&& flow_id@ == old(watcher).flow_id@
            &&& started == sas
        },
        final(watcher).step == WatchStep::Wait <==> r is AwaitChange,
        final(watcher).step == WatchStep::Start <==> r is StartSas,
        final(watcher).step == WatchStep::AcceptSas <==> r is AcceptSas,
        final(watcher).step == WatchStep::Over <==> r is Finish,
{
}

/// A watch begins by waiting for the state of the request of its flow.
pub proof fn law_watch_begins_with_the_state(flow_id: String, r: RequestWatcher)
    requires
        call_ensures(RequestWatcher::new, (flow_id,), r),
    ensures
        r.flow_id@ == flow_id@,
        r.step == WatchStep::Check,
{
}

/// Whether `news` tells the emojis given, of the flow `flow_id`, or nothing where there are none.
pub open spec fn tells_emojis<S>(
    news: Option<MatrixEvent<S>>,
    flow_id: Seq<char>,
    emojis: Option<Vec<(String, String)>>,
) -> bool {
    match emojis {
        Some(list) => {
            &&& news matches Some(MatrixEvent::SasEmojis { flow_id: flow, emojis: told })
            &&& flow@ == flow_id
            &&& told@.len() == list@.len()
            &&& forall|k: int|
                0 <= k < list@.len() ==> (#[trigger] told@[k]).0@ == list@[k].0@ && told@[k].1@
                    == list@[k].1@
        },
        None => news is None,
    }
}

proof fn lemma_tells_emojis<S>(
    news: Option<MatrixEvent<S>>,
    flow_id: Seq<char>,
    emojis: Option<Vec<(String, String)>>,
)
    requires
        opt_event(news) == emoji_news::<S>(flow_id, emojis),
    ensures
        tells_emojis(news, flow_id, emojis),
{
    if let Some(list) = emojis {
        let told = news->0->SasEmojis_emojis;
        assert(news->0 is SasEmojis);
        let views = text_pairs(told@);
        assert(views == text_pairs(list@));
        assert(views.len() == told@.len());
        assert(text_pairs(list@).len() == list@.len());
        assert forall|k: int| 0 <= k < list@.len() implies (#[trigger] told@[k]).0@ == list@[k].0@
            && told@[k].1@ == list@[k].1@ by {
            assert(views[k] == (told@[k].0@, told@[k].1@));
            assert(text_pairs(list@)[k] == (list@[k].0@, list@[k].1@));
        }
    }
}

/// A watch over SAS begins unfinished, and tells the emojis at once where both sides can show them.
pub proof fn law_emojis_are_told_at_once<S>(
    flow_id: String,
    poll: SasPoll,
    r: (SasWatcher, Option<MatrixEvent<S>>),
)
    requires
        call_ensures(SasWatcher::begin::<S>, (flow_id, poll), r),
    ensures
        r.0.flow_id@ == flow_id@,
        !r.0.finished,
        poll.can_be_presented ==> tells_emojis(r.1, flow_id@, poll.emojis),
        !poll.can_be_presented ==> r.1 is None,
{
    if poll.can_be_presented {
        lemma_tells_emojis(r.1, flow_id@, poll.emojis);
    }
}

/// A watch over SAS tells the emojis that come with the keys, or else those that there are then;
/// that SAS is done; that it was cancelled, and why; and after any other change the emojis, where
/// both sides can show them. It is finished exactly when SAS is done or cancelled.
pub proof fn law_sas_changes_are_told<S>(
    watcher: &mut SasWatcher,
    change: SasChange,
    poll: SasPoll,
    r: Option<MatrixEvent<S>>,
)
    requires
        !old(watcher).finished,
        call_ensures(SasWatcher::next::<S>, (watcher, change, poll), r),
    ensures
        final(watcher).flow_id@ == old(watcher).flow_id@,
        final(watcher).finished <==> change is Done || change is Cancelled,
        change matches SasChange::KeysExchanged { emojis } ==> tells_emojis(
            r,
            old(watcher).flow_id@,
            if emojis is Some {
                emojis
            } else {
                poll.emojis
            },
        ),
        change is Done ==> (r matches Some(MatrixEvent::SasDone { flow_id }) && flow_id@ == old(
            watcher,
        ).flow_id@),
        change matches SasChange::Cancelled { reason } ==> (r matches Some(
            MatrixEvent::SasCancelled { flow_id, reason: why },
        ) && flow_id@ == old(watcher).flow_id@ && why@ == reason@),
        change is Other && poll.can_be_presented ==> tells_emojis(
            r,
            old(watcher).flow_id@,
            poll.emojis,
        ),
        change is Other && !poll.can_be_presented ==> r is None,
{
    match change {
        SasChange::KeysExchanged { emojis } => {
            lemma_tells_emojis(
                r,
                old(watcher).flow_id@,
                if emojis is Some {
                    emojis
                } else {
                    poll.emojis
                },
            );
        },
        SasChange::Other => {
            if poll.can_be_presented {
                lemma_tells_emojis(r, old(watcher).flow_id@, poll.emojis);
            }
        },
        _ => {},
    }
}

} // verus!
