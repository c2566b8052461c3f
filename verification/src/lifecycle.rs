//! The life of the server as a state machine.
//!
//! The library decides and the program around it acts. `launch` resolves the
//! configuration, selects the topology and names the first action; after each
//! action the program reports what happened as an `Event`, and `step` answers
//! with the next state and the next action. Start-up runs through three
//! stages in a fixed order (the engine is built, then the listener is bound,
//! then requests are served), and fails at the first stage that fails.

use crate::config::{resolved, resolve, ConfigError, Configuration, RawSettings, RawSettingsView};
use crate::router::RequestError;
use crate::topology::{
    plan_runtime,
    planned,
    select_topology,
    topology_of,
    RuntimeInitError,
    RuntimePlan,
};
use vstd::prelude::*;

verus! {

/// Exit code of a process that was shut down in good order.
pub const EXIT_SUCCESS: u8 = 0;

/// Exit code of a process that failed after its settings were accepted.
pub const EXIT_FAILURE: u8 = 1;

/// Exit code of a process whose settings were rejected.
pub const EXIT_USAGE: u8 = 2;

/// Where the listener is bound: an IPv4 address and a port.
#[derive(Clone, Copy, Debug, PartialEq, Eq)]
pub struct ListenAddress {
    pub octets: [u8; 4],
    pub port: u16,
}

/// Why the listening socket could not be bound.
#[derive(Clone, Copy, Debug, PartialEq, Eq, Structural)]
pub enum BindError {
    /// Another socket holds the port.
    AddressInUse,
    /// The process may not bind the port.
    PermissionDenied,
    /// The address does not exist on this host.
    AddressNotAvailable,
    /// Any other refusal by the system.
    Other,
}

/// An error that ends start-up. Each names the stage that failed.
#[derive(Clone, Copy, Debug, PartialEq, Eq, Structural)]
pub enum FatalError {
    Config(ConfigError),
    RuntimeInit(RuntimeInitError),
    Bind(BindError),
}

/// Why a server that was serving has stopped.
#[derive(Clone, Copy, Debug, PartialEq, Eq, Structural)]
pub enum StopCause {
    /// The process was told to shut down.
    Shutdown,
    /// The listener reported an error it cannot recover from.
    ListenerFailure,
}

/// The state of the server.
#[derive(Clone, Copy, Debug, PartialEq, Eq, Structural)]
pub enum Lifecycle {
    /// The execution engine has been asked for.
    AwaitingRuntime { config: Configuration, plan: RuntimePlan },
    /// The engine exists and the listener has been asked for.
    Binding { config: Configuration, plan: RuntimePlan },
    /// The listener is bound and requests are being served.
    Serving { config: Configuration, plan: RuntimePlan },
    /// Start-up failed. No request was served.
    Failed { error: FatalError },
    /// The server served and has stopped.
    Stopped { cause: StopCause },
}

/// What the program reports back to the state machine.
#[derive(Clone, Copy, Debug, PartialEq, Eq, Structural)]
pub enum Event {
    /// The execution engine was constructed.
    RuntimeReady,
    /// The execution engine could not be constructed.
    RuntimeFailed,
    /// The listener is bound.
    Bound,
    /// The listener could not be bound.
    BindFailed(BindError),
    /// One request failed and was answered with an error response.
    RequestFailed(RequestError),
    /// The listener failed for good.
    ListenerFailed,
    /// The process was told to shut down.
    ShutdownRequested,
}

/// What the program is to do next.
#[derive(Clone, Copy, Debug, PartialEq, Eq)]
pub enum Action {
    /// Construct the execution engine as planned.
    BuildRuntime(RuntimePlan),
    /// Bind the listener.
    Bind(ListenAddress),
    /// Accept connections and answer each request from the route table.
    Serve,
    /// Keep going; nothing changes.
    Continue,
    /// End the process with this exit code.
    Exit(u8),
}

/// The address the server listens on: every interface, at the configured
/// port.
pub open spec fn listen_address_of(config: Configuration) -> ListenAddress {
    ListenAddress { octets: [0u8, 0u8, 0u8, 0u8], port: config.port }
}

/// The exit code that goes with a fatal error: never zero.
pub open spec fn exit_code_of(error: FatalError) -> u8 {
    match error {
        FatalError::Config(_) => EXIT_USAGE,
        _ => EXIT_FAILURE,
    }
}

/// The exit code of a server that stopped: zero only after a shutdown.
pub open spec fn stop_code_of(cause: StopCause) -> u8 {
    match cause {
        StopCause::Shutdown => EXIT_SUCCESS,
        StopCause::ListenerFailure => EXIT_FAILURE,
    }
}

impl Lifecycle {
    /// The process is over: start-up failed or the server has stopped.
    pub open spec fn is_terminal(self) -> bool {
        self is Failed || self is Stopped
    }

    /// Whether the process is over.
    pub fn is_over(&self) -> (b: bool)
        ensures
            b == self.is_terminal(),
    {
        match self {
            Lifecycle::Failed { .. } | Lifecycle::Stopped { .. } => true,
            _ => false,
        }
    }
}

/// The state and action that start-up begins with, given a configuration.
pub open spec fn started(config: Configuration, available_parallelism: usize) -> (
    Lifecycle,
    Action,
) {
    match planned(topology_of(config.worker_count), available_parallelism) {
        Ok(plan) => (Lifecycle::AwaitingRuntime { config, plan }, Action::BuildRuntime(plan)),
        Err(e) => {
            let error = FatalError::RuntimeInit(e);
            (Lifecycle::Failed { error }, Action::Exit(exit_code_of(error)))
        },
    }
}

/// The state and action that start-up begins with, given the raw settings.
pub open spec fn launched(raw: RawSettingsView, available_parallelism: usize) -> (
    Lifecycle,
    Action,
) {
    match resolved(raw) {
        Ok(config) => started(config, available_parallelism),
        Err(e) => {
            let error = FatalError::Config(e);
            (Lifecycle::Failed { error }, Action::Exit(exit_code_of(error)))
        },
    }
}

/// The transition relation: the state and action that follow `event` in
/// `state`.
///
/// An event that the state does not wait for changes nothing. A state in
/// which the process is over is never left, and keeps asking for the exit.
pub open spec fn next(state: Lifecycle, event: Event) -> (Lifecycle, Action) {
    match state {
        Lifecycle::AwaitingRuntime { config, plan } => match event {
            Event::RuntimeReady => (
                Lifecycle::Binding { config, plan },
                Action::Bind(listen_address_of(config)),
            ),
            Event::RuntimeFailed => {
                let error = FatalError::RuntimeInit(RuntimeInitError::EngineUnavailable);
                (Lifecycle::Failed { error }, Action::Exit(exit_code_of(error)))
            },
            _ => (state, Action::Continue),
        },
        Lifecycle::Binding { config, plan } => match event {
            Event::Bound => (Lifecycle::Serving { config, plan }, Action::Serve),
            Event::BindFailed(e) => {
                let error = FatalError::Bind(e);
                (Lifecycle::Failed { error }, Action::Exit(exit_code_of(error)))
            },
            _ => (state, Action::Continue),
        },
        Lifecycle::Serving { .. } => match event {
            Event::ListenerFailed => {
                let cause = StopCause::ListenerFailure;
                (Lifecycle::Stopped { cause }, Action::Exit(stop_code_of(cause)))
            },
            Event::ShutdownRequested => {
                let cause = StopCause::Shutdown;
                (Lifecycle::Stopped { cause }, Action::Exit(stop_code_of(cause)))
            },
            _ => (state, Action::Continue),
        },
        Lifecycle::Failed { error } => (state, Action::Exit(exit_code_of(error))),
        Lifecycle::Stopped { cause } => (state, Action::Exit(stop_code_of(cause))),
    }
}

/// The address to bind for `config`.
pub fn listen_address(config: &Configuration) -> (address: ListenAddress)
    ensures
        address == listen_address_of(*config),
{
    ListenAddress { octets: [0u8, 0u8, 0u8, 0u8], port: config.port }
}

/// The exit code for a fatal error.
pub fn exit_code(error: FatalError) -> (code: u8)
    ensures
        code == exit_code_of(error),
        code != 0,
{
    match error {
        FatalError::Config(_) => EXIT_USAGE,
        _ => EXIT_FAILURE,
    }
}

/// The exit code for a server that stopped.
pub fn stop_code(cause: StopCause) -> (code: u8)
    ensures
        code == stop_code_of(cause),
        code == 0 <==> cause == StopCause::Shutdown,
{
    match cause {
        StopCause::Shutdown => EXIT_SUCCESS,
        StopCause::ListenerFailure => EXIT_FAILURE,
    }
}

/// Begins start-up from a resolved configuration: selects the topology and
/// plans the engine. This is the only place where the engine is asked for.
pub fn start(config: Configuration, available_parallelism: usize) -> (r: (Lifecycle, Action))
    ensures
        r == started(config, available_parallelism),
        r.1 matches Action::BuildRuntime(plan) ==> plan.well_formed(),
{
    let topology = select_topology(config.worker_count);
    match plan_runtime(topology, available_parallelism) {
        Ok(plan) => (Lifecycle::AwaitingRuntime { config, plan }, Action::BuildRuntime(plan)),
        Err(e) => {
            let error = FatalError::RuntimeInit(e);
            (Lifecycle::Failed { error }, Action::Exit(exit_code(error)))
        },
    }
}

/// Begins start-up from the raw settings: resolves them, then goes on as
/// `start` does. Rejected settings end start-up at once.
pub fn launch(raw: &RawSettings, available_parallelism: usize) -> (r: (Lifecycle, Action))
    ensures
        r == launched(raw@, available_parallelism),
        r.1 matches Action::BuildRuntime(plan) ==> plan.well_formed(),
{
    match resolve(raw) {
        Ok(config) => start(config, available_parallelism),
        Err(e) => {
            let error = FatalError::Config(e);
            (Lifecycle::Failed { error }, Action::Exit(exit_code(error)))
        },
    }
}

/// Takes one step: the state and action that follow `event` in `state`.
pub fn step(state: Lifecycle, event: Event) -> (r: (Lifecycle, Action))
    ensures
        r == next(state, event),
{
    match state {
        Lifecycle::AwaitingRuntime { config, plan } => match event {
            Event::RuntimeReady => (
                Lifecycle::Binding { config, plan },
                Action::Bind(listen_address(&config)),
            ),
            Event::RuntimeFailed => {
                let error = FatalError::RuntimeInit(RuntimeInitError::EngineUnavailable);
                (Lifecycle::Failed { error }, Action::Exit(exit_code(error)))
            },
            _ => (state, Action::Continue),
        },
        Lifecycle::Binding { config, plan } => match event {
            Event::Bound => (Lifecycle::Serving { config, plan }, Action::Serve),
            Event::BindFailed(e) => {
                let error = FatalError::Bind(e);
                (Lifecycle::Failed { error }, Action::Exit(exit_code(error)))
            },
            _ => (state, Action::Continue),
        },
        Lifecycle::Serving { .. } => match event {
            Event::ListenerFailed => {
                let cause = StopCause::ListenerFailure;
                (Lifecycle::Stopped { cause }, Action::Exit(stop_code(cause)))
            },
            Event::ShutdownRequested => {
                let cause = StopCause::Shutdown;
                (Lifecycle::Stopped { cause }, Action::Exit(stop_code(cause)))
            },
            _ => (state, Action::Continue),
        },
        Lifecycle::Failed { error } => (state, Action::Exit(exit_code(error))),
        Lifecycle::Stopped { cause } => (state, Action::Exit(stop_code(cause))),
    }
}

/// The event by which the program reports how building the engine went.
pub open spec fn engine_event(built: bool) -> Event {
    if built {
        Event::RuntimeReady
    } else {
        Event::RuntimeFailed
    }
}

/// The event by which the program reports how binding the listener went.
pub open spec fn bind_event(outcome: Result<(), BindError>) -> Event {
    match outcome {
        Ok(_) => Event::Bound,
        Err(e) => Event::BindFailed(e),
    }
}

/// Where start-up ends, and the action it ends with, when the engine and the
/// listener turn out as given. A stage that is not reached has no say.
pub open spec fn startup_outcome(
    config: Configuration,
    available_parallelism: usize,
    engine_built: bool,
    bind_outcome: Result<(), BindError>,
) -> (Lifecycle, Action) {
    let (s0, a0) = started(config, available_parallelism);
    if s0.is_terminal() {
        (s0, a0)
    } else {
        let (s1, a1) = next(s0, engine_event(engine_built));
        if s1.is_terminal() {
            (s1, a1)
        } else {
            next(s1, bind_event(bind_outcome))
        }
    }
}

/// The actions that a run of events calls for, from `state` on.
pub open spec fn actions(state: Lifecycle, events: Seq<Event>) -> Seq<Action>
    decreases events.len(),
{
    if events.len() == 0 {
        Seq::empty()
    } else {
        let (following, action) = next(state, events[0]);
        seq![action] + actions(following, events.drop_first())
    }
}

/// Start-up never ends silently. For every configuration, every host and
/// every way the engine and the listener may turn out, it ends either
/// serving, which takes the success of all stages, or failed with the error
/// of the first stage that failed and a request to exit with a non-zero code.
pub proof fn lemma_startup_serves_or_fails(
    config: Configuration,
    available_parallelism: usize,
    engine_built: bool,
    bind_outcome: Result<(), BindError>,
)
    ensures
        ({
            let (end, action) = startup_outcome(
                config,
                available_parallelism,
                engine_built,
                bind_outcome,
            );
            match planned(topology_of(config.worker_count), available_parallelism) {
                Err(e) => end == (Lifecycle::Failed { error: FatalError::RuntimeInit(e) })
                    && action == Action::Exit(EXIT_FAILURE),
                Ok(plan) => if !engine_built {
                    end == (Lifecycle::Failed {
                        error: FatalError::RuntimeInit(RuntimeInitError::EngineUnavailable),
                    }) && action == Action::Exit(EXIT_FAILURE)
                } else {
                    match bind_outcome {
                        Err(e) => end == (Lifecycle::Failed { error: FatalError::Bind(e) })
                            && action == Action::Exit(EXIT_FAILURE),
                        Ok(_) => end == (Lifecycle::Serving { config, plan }) && action
                            == Action::Serve,
                    }
                },
            }
        }),
        startup_outcome(config, available_parallelism, engine_built, bind_outcome).0 is Serving
            || startup_outcome(config, available_parallelism, engine_built, bind_outcome).0
            is Failed,
{
}

/// A failure to bind, such as a port that another instance holds, ends
/// start-up with a `Bind` error and a non-zero exit code.
pub proof fn lemma_bind_failure_is_fatal(config: Configuration, plan: RuntimePlan, error: BindError)
    ensures
        next(Lifecycle::Binding { config, plan }, Event::BindFailed(error)) == (
            Lifecycle::Failed { error: FatalError::Bind(error) },
            Action::Exit(EXIT_FAILURE),
        ),
{
}

/// The failure of a request does not end the serve loop: the server keeps
/// serving, in the same state.
pub proof fn lemma_request_failure_is_contained(
    config: Configuration,
    plan: RuntimePlan,
    error: RequestError,
)
    ensures
        next(Lifecycle::Serving { config, plan }, Event::RequestFailed(error)) == (
            Lifecycle::Serving { config, plan },
            Action::Continue,
        ),
{
}

/// Once the process is over it stays over: every event leaves the state as
/// it is and is answered with the request to exit.
pub proof fn lemma_terminal_is_absorbing(state: Lifecycle, event: Event)
    requires
        state.is_terminal(),
    ensures
        next(state, event).0 == state,
        next(state, event).1 is Exit,
{
}

/// The stages come in order and once. No step asks for the engine, which
/// only the start of the process does; the listener is asked for only when
/// the engine has just been built; serving begins only when the listener has
/// just been bound.
pub proof fn lemma_stage_order(state: Lifecycle, event: Event)
    ensures
        !(next(state, event).1 is BuildRuntime),
        next(state, event).1 is Bind ==> state is AwaitingRuntime && event == Event::RuntimeReady,
        next(state, event).1 is Serve ==> state is Binding && event == Event::Bound,
{
}

/// After start-up has failed, no run of events leads to a request to build
/// the engine, to bind a socket or to serve.
pub proof fn lemma_failed_start_stays_idle(error: FatalError, events: Seq<Event>)
    ensures
        forall|i: int|
            0 <= i < actions(Lifecycle::Failed { error }, events).len() ==> (#[trigger] actions(
                Lifecycle::Failed { error },
                events,
            )[i]) == Action::Exit(exit_code_of(error)),
    decreases events.len(),
{
    let state = Lifecycle::Failed { error };
    if events.len() > 0 {
        lemma_failed_start_stays_idle(error, events.drop_first());
        let rest = actions(state, events.drop_first());
        assert(actions(state, events) == seq![Action::Exit(exit_code_of(error))] + rest);
        assert forall|i: int| 0 <= i < actions(state, events).len() implies (#[trigger] actions(
            state,
            events,
        )[i]) == Action::Exit(exit_code_of(error)) by {
            if i > 0 {
                assert(actions(state, events)[i] == rest[i - 1]);
            }
        }
    }
}

/// Settings that are rejected end the process before any socket is opened:
/// start-up fails at once with a `Config` error, asks to exit with a non-zero
/// code, and no later event makes it ask for anything else.
pub proof fn lemma_rejected_settings_open_no_socket(
    raw: RawSettingsView,
    available_parallelism: usize,
    events: Seq<Event>,
)
    requires
        resolved(raw) is Err,
    ensures
        launched(raw, available_parallelism) == (
            Lifecycle::Failed { error: FatalError::Config(resolved(raw)->Err_0) },
            Action::Exit(EXIT_USAGE),
        ),
        forall|i: int|
            0 <= i < actions(launched(raw, available_parallelism).0, events).len() ==> !(
            #[trigger] actions(launched(raw, available_parallelism).0, events)[i] is Bind),
{
    lemma_failed_start_stays_idle(FatalError::Config(resolved(raw)->Err_0), events);
}

} // verus!
