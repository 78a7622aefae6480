//! The stream lifecycle: the start sequence and the controller state that
//! owns the one live stream.
use vstd::prelude::*;
use crate::address::endpoint_of;
use crate::address::normalize_endpoint;

verus! {

/// Sample formats a capture device may report.
#[derive(Clone, Copy, Debug, PartialEq, Eq, Structural)]
pub enum SampleFormat {
    F32,
    I16,
    U16,
    /// Any format the capture path does not handle.
    Other,
}

/// Width in bytes of one sample of `format`, or none for a format that is
/// not captured.
pub open spec fn width_of(format: SampleFormat) -> Option<usize> {
    match format {
        SampleFormat::F32 => Some(4usize),
        SampleFormat::I16 => Some(2usize),
        SampleFormat::U16 => Some(2usize),
        SampleFormat::Other => None,
    }
}

/// Width in bytes of one sample of `format`; none for an unsupported format.
pub fn sample_width(format: SampleFormat) -> (r: Option<usize>)
    ensures
        r == width_of(format),
{
    match format {
        SampleFormat::F32 => Some(4),
        SampleFormat::I16 => Some(2),
        SampleFormat::U16 => Some(2),
        SampleFormat::Other => None,
    }
}

/// The steps of a start attempt, in the order they run.
#[derive(Clone, Copy, Debug, PartialEq, Eq, Structural)]
pub enum StartPhase {
    /// Bind a datagram endpoint on an ephemeral port, broadcast enabled.
    Bind,
    /// Connect it to the remote endpoint.
    Connect,
    /// Select the capture device.
    SelectDevice,
    /// Read the device's default input configuration.
    QueryConfig,
    /// Check that the configuration's sample format is captured.
    CheckFormat,
    /// Build the capture stream for that format.
    BuildStream,
    /// Begin capture on the built stream.
    Play,
}

/// Why a start attempt ended with the controller left idle.
#[derive(Clone, Copy, Debug, PartialEq, Eq, Structural)]
pub enum StartFailure {
    BindFailed,
    ConnectFailed,
    NoDevice,
    ConfigUnavailable,
    UnsupportedFormat,
    BuildFailed,
    PlayFailed,
}

/// What the start sequence does next.
#[derive(Clone, Copy, Debug, PartialEq, Eq, Structural)]
pub enum StartAction {
    /// Run this step and report whether it succeeded.
    Perform(StartPhase),
    /// Every step succeeded: hand the stream to the controller.
    Install,
    /// Give up; the controller stays idle.
    Abort(StartFailure),
}

/// The step after `phase`, or none after the last.
pub open spec fn phase_after(phase: StartPhase) -> Option<StartPhase> {
    match phase {
        StartPhase::Bind => Some(StartPhase::Connect),
        StartPhase::Connect => Some(StartPhase::SelectDevice),
        StartPhase::SelectDevice => Some(StartPhase::QueryConfig),
        StartPhase::QueryConfig => Some(StartPhase::CheckFormat),
        StartPhase::CheckFormat => Some(StartPhase::BuildStream),
        StartPhase::BuildStream => Some(StartPhase::Play),
        StartPhase::Play => None,
    }
}

/// The failure reported when `phase` does not succeed.
pub open spec fn failure_of(phase: StartPhase) -> StartFailure {
    match phase {
        StartPhase::Bind => StartFailure::BindFailed,
        StartPhase::Connect => StartFailure::ConnectFailed,
        StartPhase::SelectDevice => StartFailure::NoDevice,
        StartPhase::QueryConfig => StartFailure::ConfigUnavailable,
        StartPhase::CheckFormat => StartFailure::UnsupportedFormat,
        StartPhase::BuildStream => StartFailure::BuildFailed,
        StartPhase::Play => StartFailure::PlayFailed,
    }
}

/// A failed step ends the attempt; a successful one leads to the next step,
/// or to installing the stream after the last.
pub open spec fn action_after(phase: StartPhase, succeeded: bool) -> StartAction {
    if !succeeded {
        StartAction::Abort(failure_of(phase))
    } else {
        match phase_after(phase) {
            Some(p) => StartAction::Perform(p),
            None => StartAction::Install,
        }
    }
}

/// The action that opens every start attempt.
pub fn first_action() -> (r: StartAction)
    ensures
        r == StartAction::Perform(StartPhase::Bind),
{
    StartAction::Perform(StartPhase::Bind)
}

/// Decides what follows once `phase` has run and `succeeded` says how it went.
pub fn next_action(phase: StartPhase, succeeded: bool) -> (r: StartAction)
    ensures
        r == action_after(phase, succeeded),
{
    if !succeeded {
        let failure = match phase {
            StartPhase::Bind => StartFailure::BindFailed,
            StartPhase::Connect => StartFailure::ConnectFailed,
            StartPhase::SelectDevice => StartFailure::NoDevice,
            StartPhase::QueryConfig => StartFailure::ConfigUnavailable,
            StartPhase::CheckFormat => StartFailure::UnsupportedFormat,
            StartPhase::BuildStream => StartFailure::BuildFailed,
            StartPhase::Play => StartFailure::PlayFailed,
        };
        StartAction::Abort(failure)
    } else {
        match phase {
            StartPhase::Bind => StartAction::Perform(StartPhase::Connect),
            StartPhase::Connect => StartAction::Perform(StartPhase::SelectDevice),
            StartPhase::SelectDevice => StartAction::Perform(StartPhase::QueryConfig),
            StartPhase::QueryConfig => StartAction::Perform(StartPhase::CheckFormat),
            StartPhase::CheckFormat => StartAction::Perform(StartPhase::BuildStream),
            StartPhase::BuildStream => StartAction::Perform(StartPhase::Play),
            StartPhase::Play => StartAction::Install,
        }
    }
}

impl StartFailure {
    /// Whether the failure is reported as a diagnostic; an unsupported sample
    /// format ends the attempt silently.
    pub fn is_reported(&self) -> (r: bool)
        ensures
            r == (*self != StartFailure::UnsupportedFormat),
    {
        match self {
            StartFailure::UnsupportedFormat => false,
            _ => true,
        }
    }
}

/// The steps performed, in order, and the action reached, when an attempt
/// standing at `phase` sees its steps report `outcomes` in turn. An attempt
/// that runs out of outcomes stands at its next step.
pub open spec fn run_attempt(phase: StartPhase, outcomes: Seq<bool>) -> (Seq<StartPhase>, StartAction)
    decreases outcomes.len(),
{
    if outcomes.len() == 0 {
        (Seq::empty(), StartAction::Perform(phase))
    } else {
        match action_after(phase, outcomes[0]) {
            StartAction::Perform(p) => {
                let rest = run_attempt(p, outcomes.drop_first());
                (seq![phase] + rest.0, rest.1)
            },
            a => (seq![phase], a),
        }
    }
}

/// The controller's state: idle, or running and holding the live stream.
pub enum LifecycleState<H> {
    Idle,
    Running(H),
}

/// What a start request finds: a stream already running, or an idle
/// controller and the endpoint to stream to.
pub enum StartRequest {
    AlreadyRunning,
    Proceed { endpoint: String },
}

impl View for StartRequest {
    type V = Option<Seq<char>>;

    open spec fn view(&self) -> Option<Seq<char>> {
        match self {
            StartRequest::AlreadyRunning => None,
            StartRequest::Proceed { endpoint } => Some(endpoint@),
        }
    }
}

/// A start request on `state` for `target`: none while running, else the
/// endpoint the attempt connects to.
pub open spec fn start_request_of<H>(state: LifecycleState<H>, target: Seq<char>) -> Option<Seq<char>> {
    match state {
        LifecycleState::Running(_) => None,
        LifecycleState::Idle => Some(endpoint_of(target)),
    }
}

/// The state after a finished attempt hands over `handle`: an idle
/// controller starts running it; a running one keeps its own stream.
pub open spec fn installed<H>(state: LifecycleState<H>, handle: H) -> LifecycleState<H> {
    match state {
        LifecycleState::Idle => LifecycleState::Running(handle),
        LifecycleState::Running(h) => LifecycleState::Running(h),
    }
}

/// The state after an attempt ends with `action`: only `Install` changes it.
pub open spec fn settled<H>(state: LifecycleState<H>, action: StartAction, handle: H) -> LifecycleState<H> {
    match action {
        StartAction::Install => installed(state, handle),
        _ => state,
    }
}

/// The state after a stop: always idle.
pub open spec fn stopped<H>(state: LifecycleState<H>) -> LifecycleState<H> {
    LifecycleState::Idle
}

/// Owner of the single permitted live stream. Callers serialize every
/// operation on it under one lock held for the whole operation.
pub struct Controller<H> {
    state: LifecycleState<H>,
}

impl<H> View for Controller<H> {
    type V = LifecycleState<H>;

    closed spec fn view(&self) -> LifecycleState<H> {
        self.state
    }
}

impl<H> Controller<H> {
    /// A controller with no stream.
    pub fn new() -> (r: Self)
        ensures
            r@ == LifecycleState::<H>::Idle,
    {
        Controller { state: LifecycleState::Idle }
    }

    /// Whether a stream is live.
    pub fn is_running(&self) -> (r: bool)
        ensures
            r == (self@ is Running),
    {
        match self.state {
            LifecycleState::Running(_) => true,
            LifecycleState::Idle => false,
        }
    }

    /// Opens a start request for `target`. While running this is a no-op
    /// that reports the running stream; the state never changes here.
    pub fn request_start(&self, target: &str) -> (r: StartRequest)
        ensures
            r@ == start_request_of(self@, target@),
    {
        match self.state {
            LifecycleState::Running(_) => StartRequest::AlreadyRunning,
            LifecycleState::Idle => StartRequest::Proceed { endpoint: normalize_endpoint(target) },
        }
    }

    /// Hands the stream of a finished attempt to the controller. An idle
    /// controller starts running it; a running one keeps its own stream and
    /// gives `handle` back, to be released by the caller.
    pub fn install(&mut self, handle: H) -> (r: Option<H>)
        ensures
            final(self)@ == installed(old(self)@, handle),
            r == (if old(self)@ is Idle { None } else { Some(handle) }),
    {
        match self.state {
            LifecycleState::Idle => {
                self.state = LifecycleState::Running(handle);
                None
            },
            LifecycleState::Running(_) => Some(handle),
        }
    }

    /// Stops: takes the live stream out, if any, for the caller to release,
    /// and leaves the controller idle. Stopping an idle controller does
    /// nothing.
    pub fn stop(&mut self) -> (r: Option<H>)
        ensures
            final(self)@ == stopped(old(self)@),
            r == (match old(self)@ {
                LifecycleState::Running(h) => Some(h),
                LifecycleState::Idle => None,
            }),
    {
        let mut prev = LifecycleState::Idle;
        core::mem::swap(&mut prev, &mut self.state);
        match prev {
            LifecycleState::Running(h) => Some(h),
            LifecycleState::Idle => None,
        }
    }
}

/// Starting while a stream runs changes nothing: the request finds the
/// stream running and the controller keeps its own stream whatever is
/// handed to it. Stopping twice leaves the controller idle both times.
pub proof fn start_and_stop_are_idempotent<H>(state: LifecycleState<H>, target: Seq<char>, handle: H)
    ensures
        state is Running ==> start_request_of(state, target) is None,
        state is Running ==> installed(state, handle) == state,
        stopped(state) == LifecycleState::<H>::Idle,
        stopped(stopped(state)) == LifecycleState::<H>::Idle,
{
}

/// When the transport's connect step fails, the attempt ends there: only
/// the bind and the connect have run, no device is queried, and the
/// controller keeps its state.
pub proof fn connect_failure_is_contained<H>(
    state: LifecycleState<H>,
    outcomes: Seq<bool>,
    handle: H,
)
    requires
        outcomes.len() >= 2,
        outcomes[0],
        !outcomes[1],
    ensures
        run_attempt(StartPhase::Bind, outcomes) == (
            seq![StartPhase::Bind, StartPhase::Connect],
            StartAction::Abort(StartFailure::ConnectFailed),
        ),
        !run_attempt(StartPhase::Bind, outcomes).0.contains(StartPhase::SelectDevice),
        settled(state, run_attempt(StartPhase::Bind, outcomes).1, handle) == state,
{
    let rest = outcomes.drop_first();
    assert(rest[0] == outcomes[1]);
    assert(run_attempt(StartPhase::Connect, rest) == (
        seq![StartPhase::Connect],
        StartAction::Abort(StartFailure::ConnectFailed),
    ));
    let trace = seq![StartPhase::Bind] + seq![StartPhase::Connect];
    assert(trace =~= seq![StartPhase::Bind, StartPhase::Connect]);
    assert(trace[0] != StartPhase::SelectDevice && trace[1] != StartPhase::SelectDevice);
}

/// Two start requests serialized by the controller's lock, from idle: the
/// first proceeds, the second finds the first's stream running, and a
/// second stream handed over cannot replace the first. Exactly one stream
/// is ever live.
pub proof fn serialized_starts_run_one_stream<H>(
    first_target: Seq<char>,
    second_target: Seq<char>,
    first: H,
    second: H,
)
    ensures
        start_request_of(LifecycleState::<H>::Idle, first_target) is Some,
        start_request_of(installed(LifecycleState::Idle, first), second_target) is None,
        installed(installed(LifecycleState::Idle, first), second) == LifecycleState::Running(first),
{
}

} // verus!
