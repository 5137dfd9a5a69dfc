use ltlsp::error::LtlspError;
use ltlsp::languagetool::check_url;
use ltlsp::manage_service::{
    container_remove_args, container_run_args, local_spawn_args, local_spawn_program,
    pending_action, runtime_program, startup_result, step, teardown_action, ContainerType,
    LanguageToolInitialisation, LanguageToolRunnerLocal, LanguageToolRunnerRemote, StartupAction,
    StartupEvent, StartupState,
};

#[test]
fn probing_a_running_service_spawns_nothing() {
    let mut state = StartupState::Probing;
    assert_eq!(pending_action(&state), Some(StartupAction::Probe));
    state = step(state, StartupEvent::ProbeSucceeded);
    assert_eq!(
        state,
        StartupState::Running(LanguageToolInitialisation::AlreadyRunning)
    );
    // a running machine asks for nothing and never leaves Running
    assert_eq!(pending_action(&state), None);
    assert_eq!(
        startup_result(&state).unwrap(),
        LanguageToolInitialisation::AlreadyRunning
    );
}

#[test]
fn failed_probe_tries_local_then_containers_in_order() {
    let mut state = StartupState::Probing;
    state = step(state, StartupEvent::ProbeFailed);
    assert_eq!(pending_action(&state), Some(StartupAction::SpawnLocal));
    state = step(state, StartupEvent::SpawnNotFound);
    assert_eq!(
        pending_action(&state),
        Some(StartupAction::SpawnContainer(ContainerType::PodMan))
    );
    state = step(state, StartupEvent::SpawnNotFound);
    assert_eq!(
        pending_action(&state),
        Some(StartupAction::SpawnContainer(ContainerType::Docker))
    );
    state = step(state, StartupEvent::SpawnSucceeded);
    assert_eq!(
        startup_result(&state).unwrap(),
        LanguageToolInitialisation::Container(ContainerType::Docker)
    );
}

#[test]
fn exhausting_every_strategy_yields_startup_exhausted() {
    let mut state = StartupState::Probing;
    let events = [
        StartupEvent::ProbeFailed,
        StartupEvent::SpawnNotFound,
        StartupEvent::SpawnNotFound,
        StartupEvent::SpawnFailedOther,
        StartupEvent::SpawnNotFound,
    ];
    for e in events {
        state = step(state, e);
    }
    assert_eq!(state, StartupState::Failed);
    assert_eq!(pending_action(&state), None);
    assert!(matches!(
        startup_result(&state).unwrap_err(),
        LtlspError::StartupExhausted
    ));
}

#[test]
fn teardown_matches_the_recorded_strategy() {
    assert_eq!(teardown_action(&LanguageToolInitialisation::AlreadyRunning), None);
    assert_eq!(teardown_action(&LanguageToolInitialisation::LocalExecutable), None);
    assert_eq!(
        teardown_action(&LanguageToolInitialisation::Container(ContainerType::Incus)),
        Some(ContainerType::Incus)
    );
}

#[test]
fn commands_match_the_service_interface() {
    assert_eq!(runtime_program(ContainerType::PodMan), "podman");
    assert_eq!(runtime_program(ContainerType::Docker), "docker");
    assert_eq!(runtime_program(ContainerType::Incus), "incus");
    assert_eq!(local_spawn_program(), "languagetool");
    assert_eq!(local_spawn_args(8081), vec!["--http", "--port", "8081"]);
    assert_eq!(
        container_run_args(),
        vec!["run", "--name=lt", "ghcr.io/garrickwelsh/languagetool:latest"]
    );
    assert_eq!(container_remove_args(), vec!["rm", "-f", "lt"]);
}

#[test]
fn check_url_renders_host_and_port() {
    assert_eq!(check_url("localhost", 8081), "http://localhost:8081/v2/check");
    assert_eq!(check_url("lt.example", 80), "http://lt.example:80/v2/check");
    assert_eq!(check_url("h", 65535), "http://h:65535/v2/check");
    assert_eq!(check_url("h", 0), "http://h:0/v2/check");
}

#[test]
fn runners_report_their_address_and_build_empty_requests() {
    let remote = LanguageToolRunnerRemote {
        server: "lt.example".to_string(),
        port: 9000,
        language: "en-AU".to_string(),
    };
    assert_eq!(remote.server(), "lt.example");
    assert_eq!(remote.port(), 9000);
    assert_eq!(remote.language(), "en-AU");
    let request = remote.new_request();
    assert_eq!(request.server, "lt.example");
    assert_eq!(request.port, 9000);
    assert_eq!(request.language, "en-AU");
    assert!(request.document_data.annotation.is_empty());

    let local =
        LanguageToolRunnerLocal::new(8081, "en-AU", LanguageToolInitialisation::LocalExecutable);
    assert_eq!(local.server(), "localhost");
    assert_eq!(local.port(), 8081);
    assert_eq!(local.language(), "en-AU");
    let request = local.new_request();
    assert_eq!(request.server, "localhost");
    assert_eq!(request.port, 8081);
}
