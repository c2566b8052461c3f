use suwariyomi::config::{ConfigError, Configuration, Origin, RawSettings, Setting};
use suwariyomi::lifecycle::{
    exit_code, launch, listen_address, start, step, stop_code, Action, BindError, Event,
    FatalError, Lifecycle, ListenAddress, StopCause, EXIT_FAILURE, EXIT_SUCCESS, EXIT_USAGE,
};
use suwariyomi::router::{dispatch, Method, RequestError};
use suwariyomi::state::AppState;
use suwariyomi::topology::{RuntimeInitError, RuntimePlan, Scheduler};

const ALL_EVENTS: [Event; 11] = [
    Event::RuntimeReady,
    Event::RuntimeFailed,
    Event::Bound,
    Event::BindFailed(BindError::AddressInUse),
    Event::BindFailed(BindError::PermissionDenied),
    Event::BindFailed(BindError::AddressNotAvailable),
    Event::BindFailed(BindError::Other),
    Event::RequestFailed(RequestError::Malformed),
    Event::RequestFailed(RequestError::HandlerFailed),
    Event::ListenerFailed,
    Event::ShutdownRequested,
];

fn no_settings() -> RawSettings {
    RawSettings { cli_port: None, env_port: None, cli_worker_count: None, env_worker_count: None }
}

fn pool(worker_threads: usize) -> RuntimePlan {
    RuntimePlan { scheduler: Scheduler::MultiThread, worker_threads }
}

fn single() -> RuntimePlan {
    RuntimePlan { scheduler: Scheduler::CurrentThread, worker_threads: 1 }
}

#[test]
fn exit_codes_have_their_values() {
    assert_eq!(EXIT_SUCCESS, 0);
    assert_eq!(EXIT_FAILURE, 1);
    assert_eq!(EXIT_USAGE, 2);
}

#[test]
fn default_start_serves_root_and_nothing_else() {
    let (state, action) = launch(&no_settings(), 8);
    let config = Configuration { port: 3779, worker_count: 0 };
    assert_eq!(state, Lifecycle::AwaitingRuntime { config, plan: pool(8) });
    assert_eq!(action, Action::BuildRuntime(pool(8)));

    let (state, action) = step(state, Event::RuntimeReady);
    assert_eq!(state, Lifecycle::Binding { config, plan: pool(8) });
    assert_eq!(action, Action::Bind(ListenAddress { octets: [0, 0, 0, 0], port: 3779 }));

    let (state, action) = step(state, Event::Bound);
    assert_eq!(state, Lifecycle::Serving { config, plan: pool(8) });
    assert_eq!(action, Action::Serve);
    assert!(!state.is_over());

    let root = dispatch(Method::Get, "/");
    assert_eq!(root.status, 301);
    assert_eq!(root.location, Some("/browse/"));

    let missing = dispatch(Method::Get, "/nonexistent");
    assert_eq!(missing.status, 404);
    assert_eq!(missing.location, None);
}

#[test]
fn root_redirects_under_every_topology() {
    for worker_count in [0, 1, 2, 4, 64] {
        let config = Configuration { port: 3779, worker_count };
        let (state, _) = start(config, 8);
        let (state, _) = step(state, Event::RuntimeReady);
        let (state, action) = step(state, Event::Bound);
        assert!(matches!(state, Lifecycle::Serving { .. }));
        assert_eq!(action, Action::Serve);
        let response = dispatch(Method::Get, "/");
        assert_eq!(response.status, 301);
        assert_eq!(response.location, Some("/browse/"));
    }
}

#[test]
fn start_plans_the_engine_for_each_worker_count() {
    let config = Configuration { port: 1, worker_count: 0 };
    assert_eq!(
        start(config, 2),
        (Lifecycle::AwaitingRuntime { config, plan: pool(2) }, Action::BuildRuntime(pool(2)))
    );
    let config = Configuration { port: 65535, worker_count: 1 };
    assert_eq!(
        start(config, 2),
        (Lifecycle::AwaitingRuntime { config, plan: single() }, Action::BuildRuntime(single()))
    );
    let config = Configuration { port: 8080, worker_count: 4 };
    assert_eq!(
        start(config, 2),
        (Lifecycle::AwaitingRuntime { config, plan: pool(4) }, Action::BuildRuntime(pool(4)))
    );
}

#[test]
fn startup_ends_serving_or_failed_for_every_outcome() {
    for port in [1u16, 80, 3779, 65535] {
        for worker_count in [0usize, 1, 2, 7] {
            for available in [0usize, 1, 8] {
                for engine_built in [true, false] {
                    for bind in [None, Some(BindError::AddressInUse), Some(BindError::Other)] {
                        let config = Configuration { port, worker_count };
                        let (mut state, mut action) = start(config, available);
                        if !state.is_over() {
                            let event =
                                if engine_built { Event::RuntimeReady } else { Event::RuntimeFailed };
                            (state, action) = step(state, event);
                        }
                        if !state.is_over() {
                            let event = match bind {
                                None => Event::Bound,
                                Some(e) => Event::BindFailed(e),
                            };
                            (state, action) = step(state, event);
                        }
                        let no_units = worker_count == 0 && available == 0;
                        if no_units {
                            let error = FatalError::RuntimeInit(RuntimeInitError::NoExecutionUnits);
                            assert_eq!(state, Lifecycle::Failed { error });
                            assert_eq!(action, Action::Exit(1));
                        } else if !engine_built {
                            let error = FatalError::RuntimeInit(RuntimeInitError::EngineUnavailable);
                            assert_eq!(state, Lifecycle::Failed { error });
                            assert_eq!(action, Action::Exit(1));
                        } else if let Some(e) = bind {
                            assert_eq!(state, Lifecycle::Failed { error: FatalError::Bind(e) });
                            assert_eq!(action, Action::Exit(1));
                        } else {
                            assert!(matches!(state, Lifecycle::Serving { config: c, .. } if c == config));
                            assert_eq!(action, Action::Serve);
                        }
                    }
                }
            }
        }
    }
}

#[test]
fn malformed_port_fails_before_any_socket() {
    let raw = RawSettings {
        cli_port: Some("abc".to_string()),
        env_port: None,
        cli_worker_count: None,
        env_worker_count: None,
    };
    let (state, action) = launch(&raw, 8);
    let error = FatalError::Config(ConfigError {
        setting: Setting::Port,
        origin: Origin::CommandLine,
    });
    assert_eq!(state, Lifecycle::Failed { error });
    assert_eq!(action, Action::Exit(2));
    assert!(state.is_over());
    let mut current = state;
    for round in 0..3 {
        for event in ALL_EVENTS {
            let (following, action) = step(current, event);
            assert_eq!(following, state, "round {} {:?}", round, event);
            assert_eq!(action, Action::Exit(2));
            current = following;
        }
    }
}

#[test]
fn host_without_execution_units_fails_runtime_init() {
    let (state, action) = launch(&no_settings(), 0);
    let error = FatalError::RuntimeInit(RuntimeInitError::NoExecutionUnits);
    assert_eq!(state, Lifecycle::Failed { error });
    assert_eq!(action, Action::Exit(1));
}

#[test]
fn engine_failure_fails_runtime_init() {
    let (state, _) = launch(&no_settings(), 4);
    let (state, action) = step(state, Event::RuntimeFailed);
    let error = FatalError::RuntimeInit(RuntimeInitError::EngineUnavailable);
    assert_eq!(state, Lifecycle::Failed { error });
    assert_eq!(action, Action::Exit(1));
}

#[test]
fn port_held_by_another_instance_is_a_bind_error() {
    let config = Configuration { port: 3779, worker_count: 0 };
    let binding = Lifecycle::Binding { config, plan: pool(4) };
    let (state, action) = step(binding, Event::BindFailed(BindError::AddressInUse));
    assert_eq!(state, Lifecycle::Failed { error: FatalError::Bind(BindError::AddressInUse) });
    assert_eq!(action, Action::Exit(1));
}

#[test]
fn every_bind_failure_is_fatal() {
    let config = Configuration { port: 80, worker_count: 1 };
    for error in [
        BindError::AddressInUse,
        BindError::PermissionDenied,
        BindError::AddressNotAvailable,
        BindError::Other,
    ] {
        let binding = Lifecycle::Binding { config, plan: single() };
        let (state, action) = step(binding, Event::BindFailed(error));
        assert_eq!(state, Lifecycle::Failed { error: FatalError::Bind(error) });
        assert_eq!(action, Action::Exit(1));
    }
}

#[test]
fn request_failures_do_not_end_the_serve_loop() {
    let config = Configuration { port: 3779, worker_count: 1 };
    let serving = Lifecycle::Serving { config, plan: single() };
    for error in [RequestError::Malformed, RequestError::HandlerFailed] {
        let (state, action) = step(serving, Event::RequestFailed(error));
        assert_eq!(state, serving);
        assert_eq!(action, Action::Continue);
    }
}

#[test]
fn shutdown_ends_serving_with_success() {
    let config = Configuration { port: 3779, worker_count: 0 };
    let serving = Lifecycle::Serving { config, plan: pool(2) };
    let (state, action) = step(serving, Event::ShutdownRequested);
    assert_eq!(state, Lifecycle::Stopped { cause: StopCause::Shutdown });
    assert_eq!(action, Action::Exit(0));
    assert!(state.is_over());
}

#[test]
fn listener_failure_ends_serving_with_failure() {
    let config = Configuration { port: 3779, worker_count: 0 };
    let serving = Lifecycle::Serving { config, plan: pool(2) };
    let (state, action) = step(serving, Event::ListenerFailed);
    assert_eq!(state, Lifecycle::Stopped { cause: StopCause::ListenerFailure });
    assert_eq!(action, Action::Exit(1));
    let (again, action) = step(state, Event::Bound);
    assert_eq!(again, state);
    assert_eq!(action, Action::Exit(1));
}

#[test]
fn events_out_of_turn_change_nothing() {
    let config = Configuration { port: 3779, worker_count: 0 };
    let awaiting = Lifecycle::AwaitingRuntime { config, plan: pool(2) };
    for event in ALL_EVENTS {
        if event == Event::RuntimeReady || event == Event::RuntimeFailed {
            continue;
        }
        assert_eq!(step(awaiting, event), (awaiting, Action::Continue), "{:?}", event);
    }
    let binding = Lifecycle::Binding { config, plan: pool(2) };
    for event in ALL_EVENTS {
        if matches!(event, Event::Bound | Event::BindFailed(_)) {
            continue;
        }
        assert_eq!(step(binding, event), (binding, Action::Continue), "{:?}", event);
    }
    let serving = Lifecycle::Serving { config, plan: pool(2) };
    for event in ALL_EVENTS {
        if matches!(event, Event::ListenerFailed | Event::ShutdownRequested) {
            continue;
        }
        assert_eq!(step(serving, event), (serving, Action::Continue), "{:?}", event);
    }
}

#[test]
fn no_step_asks_for_a_second_engine() {
    let config = Configuration { port: 3779, worker_count: 4 };
    let states = [
        Lifecycle::AwaitingRuntime { config, plan: pool(4) },
        Lifecycle::Binding { config, plan: pool(4) },
        Lifecycle::Serving { config, plan: pool(4) },
        Lifecycle::Failed { error: FatalError::Bind(BindError::Other) },
        Lifecycle::Stopped { cause: StopCause::Shutdown },
    ];
    for state in states {
        for event in ALL_EVENTS {
            let (_, action) = step(state, event);
            assert!(!matches!(action, Action::BuildRuntime(_)), "{:?} {:?}", state, event);
        }
    }
}

#[test]
fn listener_binds_every_interface_at_the_configured_port() {
    let address = listen_address(&Configuration { port: 8080, worker_count: 0 });
    assert_eq!(address, ListenAddress { octets: [0, 0, 0, 0], port: 8080 });
    let address = listen_address(&Configuration { port: 0, worker_count: 3 });
    assert_eq!(address, ListenAddress { octets: [0, 0, 0, 0], port: 0 });
}

#[test]
fn fatal_errors_exit_with_non_zero_codes() {
    let config_error = ConfigError { setting: Setting::WorkerCount, origin: Origin::Environment };
    assert_eq!(exit_code(FatalError::Config(config_error)), 2);
    assert_eq!(exit_code(FatalError::RuntimeInit(RuntimeInitError::NoExecutionUnits)), 1);
    assert_eq!(exit_code(FatalError::RuntimeInit(RuntimeInitError::EngineUnavailable)), 1);
    assert_eq!(exit_code(FatalError::Bind(BindError::PermissionDenied)), 1);
    assert_eq!(stop_code(StopCause::Shutdown), 0);
    assert_eq!(stop_code(StopCause::ListenerFailure), 1);
}

#[test]
fn shared_state_is_made_from_the_configuration() {
    let state = AppState::from(Configuration { port: 3779, worker_count: 0 });
    assert_eq!(state, AppState {});
    let other: AppState = Configuration { port: 1, worker_count: 9 }.into();
    assert_eq!(other, state);
}
