use onevox::config::Config;
use onevox::daemon::lifecycle::{
    pid_file_content, pid_file_path, EnginePhase, Lifecycle, LifecycleAction, LifecycleEvent,
    LifecyclePhase,
};
use onevox::daemon::state::{DaemonState, DictationCommand};
use onevox::ipc::client::IpcClient;
use onevox::ipc::protocol::{
    Command, DaemonState as State, DaemonStatus, Event, Message, Payload, Response,
};
use onevox::ipc::server::{
    frame, frame_length, handle_command, handle_request, needs, verify_client_credentials,
    IpcServer, Need, Supplied,
};
use onevox::{Error, ErrorKind};

fn text_of(response: &Response) -> String {
    match response {
        Response::Success => "success".to_string(),
        Response::Done(m) => format!("done: {}", m),
        Response::Error(m) => format!("error: {}", m),
        Response::Status(_) => "status".to_string(),
        Response::Config(c) => format!("config: {}", c),
        Response::List(items) => format!("list: {}", items.join(",")),
        Response::Pong => "pong".to_string(),
        Response::History(entries) => format!("history: {}", entries.len()),
    }
}

#[test]
fn daemon_state_transitions() {
    let mut state = DaemonState::new(Config::default(), 42, 1000);
    assert_eq!(state.state(), State::Starting);
    state.set_ready();
    assert_eq!(state.state(), State::Idle);
    state.set_dictating(true);
    assert_eq!(state.state(), State::Active);
    assert!(state.is_dictating_flag());
    state.set_dictating(false);
    assert_eq!(state.state(), State::Idle);
    state.set_error();
    assert_eq!(state.state(), State::Error);
    state.set_model_loaded(Some("ggml-base.en".to_string()));
    let status = state.status(1090, 2048, 15);
    assert_eq!(status.pid, 42);
    assert_eq!(status.uptime_secs, 90);
    assert_eq!(status.state, State::Error);
    assert!(status.model_loaded);
    assert_eq!(status.model_name.as_deref(), Some("ggml-base.en"));
    assert_eq!(status.memory_usage_bytes, 2048);
    assert_eq!(status.cpu_usage_tenths, 15);
    assert_eq!(status.version, "0.1.0");
    assert_eq!(state.status(5, 0, 0).uptime_secs, 0);
    state.set_model_loaded(None);
    assert!(!state.status(0, 0, 0).model_loaded);
    assert!(!state.is_shutdown_requested());
    state.shutdown();
    assert!(state.is_shutdown_requested());
    assert_eq!(state.state(), State::ShuttingDown);
    assert_eq!(State::ShuttingDown.label(), "Shutting Down");
    assert_eq!(state.config().audio.sample_rate, 16000);
}

#[test]
fn dictation_requests_need_an_engine() {
    let mut state = DaemonState::new(Config::default(), 1, 0);
    let e = state.start_dictation().unwrap_err();
    assert_eq!(e.kind(), ErrorKind::Other);
    assert_eq!(e.message(), "Dictation engine not initialized");
    state.set_dictation_channel();
    state.start_dictation().unwrap();
    state.stop_dictation().unwrap();
    assert_eq!(
        state.take_dictation_commands(),
        vec![DictationCommand::Start, DictationCommand::Stop]
    );
    assert!(state.take_dictation_commands().is_empty());
    state.close_dictation_channel();
    assert_eq!(state.stop_dictation().unwrap_err().message(), "Dictation engine not available");
}

#[test]
fn commands_are_answered() {
    let mut state = DaemonState::new(Config::default(), 7, 100);
    state.set_ready();
    let mut answer = |command: Command, supplied: Supplied, state: &mut DaemonState| {
        text_of(&handle_command(command, state, supplied))
    };
    assert_eq!(answer(Command::Ping, Supplied::Nothing, &mut state), "pong");
    assert_eq!(
        answer(Command::ListDevices, Supplied::Nothing, &mut state),
        "list: default"
    );
    assert_eq!(answer(Command::ListModels, Supplied::Nothing, &mut state), "list: ");
    assert_eq!(
        answer(Command::LoadModel { path: "/m/x.bin".to_string() }, Supplied::Nothing, &mut state),
        "done: Model loaded (not yet implemented): /m/x.bin"
    );
    assert_eq!(
        answer(Command::UnloadModel, Supplied::Nothing, &mut state),
        "done: Model unloaded (not yet implemented)"
    );
    assert_eq!(
        answer(Command::StartDictation, Supplied::Nothing, &mut state),
        "error: Failed to start dictation: Other error: Dictation engine not initialized"
    );
    state.set_dictation_channel();
    assert_eq!(answer(Command::StartDictation, Supplied::Nothing, &mut state), "success");
    assert_eq!(answer(Command::StopDictation, Supplied::Nothing, &mut state), "success");
    assert_eq!(
        state.take_dictation_commands(),
        vec![DictationCommand::Start, DictationCommand::Stop]
    );
    assert_eq!(
        answer(
            Command::GetConfig,
            Supplied::ConfigText(Ok("[daemon]".to_string())),
            &mut state
        ),
        "config: [daemon]"
    );
    assert_eq!(
        answer(Command::GetConfig, Supplied::ConfigText(Err("bad".to_string())), &mut state),
        "error: Failed to serialize config: bad"
    );
    assert_eq!(
        answer(
            Command::ReloadConfig,
            Supplied::ReloadedConfig(Err(Error::Config("no file".to_string()))),
            &mut state
        ),
        "error: Failed to reload config: Configuration error: no file"
    );
    let mut changed = Config::default();
    changed.audio.sample_rate = 48000;
    assert_eq!(
        answer(Command::ReloadConfig, Supplied::ReloadedConfig(Ok(changed)), &mut state),
        "success"
    );
    assert_eq!(state.config().audio.sample_rate, 48000);
    assert_eq!(
        answer(Command::GetHistory, Supplied::HistoryEntries(Ok(Vec::new())), &mut state),
        "history: 0"
    );
    assert_eq!(
        answer(
            Command::DeleteHistoryEntry { id: 17 },
            Supplied::HistoryDeletion(Ok(true)),
            &mut state
        ),
        "done: Entry 17 deleted"
    );
    assert_eq!(
        answer(
            Command::DeleteHistoryEntry { id: 17 },
            Supplied::HistoryDeletion(Ok(false)),
            &mut state
        ),
        "error: Entry 17 not found"
    );
    assert_eq!(
        answer(
            Command::DeleteHistoryEntry { id: 17 },
            Supplied::HistoryDeletion(Err("disk".to_string())),
            &mut state
        ),
        "error: Failed to delete entry: disk"
    );
    assert_eq!(
        answer(Command::ClearHistory, Supplied::HistoryClearing(Ok(())), &mut state),
        "done: History cleared"
    );
    match handle_command(
        Command::GetStatus,
        &mut state,
        Supplied::Measurements { now: 160, memory_usage_bytes: 9, cpu_usage_tenths: 3 },
    ) {
        Response::Status(status) => {
            assert_eq!(status.uptime_secs, 60);
            assert_eq!(status.state, State::Idle);
        }
        _ => unreachable!(),
    }
    assert_eq!(answer(Command::Shutdown, Supplied::Nothing, &mut state), "success");
    assert!(state.is_shutdown_requested());
    assert_eq!(needs(&Command::GetStatus), Need::Measurements);
    assert_eq!(needs(&Command::Ping), Need::Nothing);
    assert_eq!(needs(&Command::ClearHistory), Need::HistoryClearing);
}

#[test]
fn requests_are_rate_limited_per_user() {
    let mut server = IpcServer::new("/tmp/onevox/onevox.sock".to_string());
    assert_eq!(server.socket_path(), "/tmp/onevox/onevox.sock");
    let mut state = DaemonState::new(Config::default(), 7, 0);
    let mut ask = |id: u64, command: Command, uid: u32, now: u64| {
        let reply = handle_request(
            &mut server,
            &mut state,
            Message::request(id, command),
            uid,
            Supplied::Nothing,
            now,
        );
        assert_eq!(reply.id, id);
        match reply.payload {
            Payload::Response(response) => text_of(&response),
            _ => unreachable!(),
        }
    };
    assert_eq!(ask(1, Command::ListModels, 1000, 50_000), "list: ");
    assert_eq!(
        ask(2, Command::ListModels, 1000, 59_999),
        "error: Rate limited: IPC error: Rate limited"
    );
    // Another user is not held back, and neither are pings.
    assert_eq!(ask(3, Command::ListModels, 1001, 59_999), "list: ");
    assert_eq!(ask(4, Command::Ping, 1000, 59_999), "pong");
    assert_eq!(ask(5, Command::ListModels, 1000, 60_000), "list: ");
    assert_eq!(ask(6, Command::Shutdown, 1000, 60_001), "success");
    let mut server = IpcServer::new("s".to_string());
    let mut state = DaemonState::new(Config::default(), 7, 0);
    let reply = handle_request(
        &mut server,
        &mut state,
        Message::event(9, Event::Started),
        1,
        Supplied::Nothing,
        0,
    );
    match reply.payload {
        Payload::Response(Response::Error(m)) => assert_eq!(m, "Invalid message type"),
        _ => unreachable!(),
    }
    assert!(server.check_rate_limit(5, &Command::GetConfig, 100).is_ok());
    assert!(server.check_rate_limit(5, &Command::GetConfig, 50).is_err());
}

#[test]
fn frames_carry_their_length() {
    assert_eq!(frame(&[]), vec![0, 0, 0, 0]);
    assert_eq!(frame(&[9, 8, 7]), vec![3, 0, 0, 0, 9, 8, 7]);
    let big = vec![1u8; 70_000];
    let framed = frame(&big);
    assert_eq!(&framed[..4], &70_000u32.to_le_bytes());
    assert_eq!(framed.len(), 70_004);
    assert_eq!(frame_length(&[3, 0, 0, 0]).unwrap(), 3);
    assert_eq!(frame_length(&1_000_000u32.to_le_bytes()).unwrap(), 1_000_000);
    let e = frame_length(&1_000_001u32.to_le_bytes()).unwrap_err();
    assert_eq!(e.to_string(), "IPC error: Message too large");
    assert!(frame_length(&[255, 255, 255, 255]).is_err());
}

#[test]
fn only_the_own_user_is_let_in() {
    assert_eq!(verify_client_credentials(1000, 1000).unwrap(), 1000);
    let e = verify_client_credentials(1001, 1000).unwrap_err();
    assert_eq!(e.message(), "Unauthorized: different user");
}

#[test]
fn client_numbers_requests_and_reads_answers() {
    let mut client = IpcClient::new("/run/onevox.sock".to_string());
    assert_eq!(client.socket_path(), "/run/onevox.sock");
    let first = client.request(Command::Ping);
    let second = client.request(Command::GetStatus);
    assert_eq!((first.id, second.id), (1, 2));
    assert!(matches!(second.payload, Payload::Request(Command::GetStatus)));
    assert!(IpcClient::ping(&Ok(Response::Pong)));
    assert!(!IpcClient::ping(&Ok(Response::Success)));
    assert!(!IpcClient::ping(&Err(Error::Ipc("down".to_string()))));
    let status = IpcClient::get_status(Response::Status(DaemonStatus::new(3, 4))).unwrap();
    assert_eq!((status.pid, status.uptime_secs), (3, 4));
    assert_eq!(status.state, State::Starting);
    let e = IpcClient::get_status(Response::Error("nope".to_string())).unwrap_err();
    assert_eq!(e.message(), "Error: nope");
    assert_eq!(
        IpcClient::shutdown(Response::Pong).unwrap_err().message(),
        "Unexpected response"
    );
    assert!(IpcClient::shutdown(Response::Success).is_ok());
    assert_eq!(IpcClient::get_config(Response::Config("x".to_string())).unwrap(), "x");
    assert!(IpcClient::get_history(Response::History(Vec::new())).unwrap().is_empty());
    assert!(IpcClient::delete_history_entry(Response::Done("ok".to_string())).is_ok());
    assert!(IpcClient::clear_history(Response::Success).is_err());
    assert!(IpcClient::start_dictation(Response::Success).is_ok());
    assert!(IpcClient::stop_dictation(Response::Done("ok".to_string())).is_ok());
    assert!(IpcClient::stop_dictation(Response::Pong).is_err());
    let reply = Message::response(5, Response::Pong);
    assert!(matches!(IpcClient::response_of(reply), Ok(Response::Pong)));
    let stray = Message::request(5, Command::Ping);
    assert_eq!(
        IpcClient::response_of(stray).unwrap_err().message(),
        "Invalid response type"
    );
    assert_eq!(
        IpcClient::default_socket_path(Some("/run/user/1/onevox"), Some("/c")),
        "/run/user/1/onevox/onevox.sock"
    );
    assert_eq!(IpcClient::default_socket_path(None, Some("/c")), "/c/onevox.sock");
    assert_eq!(IpcClient::default_socket_path(None, None), "/tmp/onevox/onevox.sock");
}

#[test]
fn test_pid_file_path_windows() {
    let pid_file = pid_file_path(None, None);
    assert!(pid_file.contains("onevox"));
    assert!(pid_file.contains(".pid"));
    assert_eq!(pid_file, "/tmp/onevox/onevox.pid");
    assert_eq!(pid_file_path(Some("/run/user/1/onevox"), None), "/run/user/1/onevox/onevox.pid");
    assert_eq!(pid_file_content(4711), "4711");
}

#[test]
fn daemon_starts_once_and_retries_the_engine() {
    let mut daemon = Lifecycle::new();
    assert_eq!(daemon.phase(), LifecyclePhase::Created);
    assert_eq!(daemon.start(), vec![LifecycleAction::ProbeInstance]);
    assert_eq!(
        daemon.on_event(LifecycleEvent::ProbeAnswered(false)),
        vec![LifecycleAction::RemoveStaleSocket, LifecycleAction::BindSocket]
    );
    assert_eq!(
        daemon.on_event(LifecycleEvent::SocketBound(true)),
        vec![
            LifecycleAction::MarkReady,
            LifecycleAction::AcceptConnections,
            LifecycleAction::CreateEngine
        ]
    );
    assert_eq!(daemon.phase(), LifecyclePhase::Running);
    assert_eq!(
        daemon.on_event(LifecycleEvent::EngineCreated(false)),
        vec![LifecycleAction::ReportPermissionHelp, LifecycleAction::Sleep(5000)]
    );
    assert_eq!(daemon.engine(), EnginePhase::Waiting);
    // An event that does not fit changes nothing.
    assert!(daemon.on_event(LifecycleEvent::EngineCreated(true)).is_empty());
    assert_eq!(
        daemon.on_event(LifecycleEvent::BackoffElapsed),
        vec![LifecycleAction::CreateEngine]
    );
    assert_eq!(
        daemon.on_event(LifecycleEvent::EngineCreated(false)),
        vec![LifecycleAction::Sleep(5000)]
    );
    assert_eq!(
        daemon.on_event(LifecycleEvent::BackoffElapsed),
        vec![LifecycleAction::CreateEngine]
    );
    assert_eq!(
        daemon.on_event(LifecycleEvent::EngineCreated(false)),
        vec![LifecycleAction::ReportNoHotkeys]
    );
    assert_eq!(daemon.engine(), EnginePhase::Unavailable);
    assert!(!daemon.hotkeys_available());
    assert!(daemon.on_event(LifecycleEvent::BackoffElapsed).is_empty());
    // The daemon runs on without hotkeys and still shuts down cleanly.
    assert_eq!(daemon.phase(), LifecyclePhase::Running);
    assert_eq!(
        daemon.on_event(LifecycleEvent::ShutdownRequested),
        vec![
            LifecycleAction::MarkShuttingDown,
            LifecycleAction::StopDictationThread,
            LifecycleAction::AbortAcceptLoop,
            LifecycleAction::RemoveSocket,
            LifecycleAction::ReleaseInjector,
            LifecycleAction::ReleaseCapture,
            LifecycleAction::ReleaseVad,
            LifecycleAction::UnloadModel,
            LifecycleAction::Exit(0),
        ]
    );
    assert_eq!(daemon.phase(), LifecyclePhase::Stopped);
    assert!(daemon.on_event(LifecycleEvent::ShutdownSignal).is_empty());
}

#[test]
fn daemon_refuses_to_start_twice() {
    let mut daemon = Lifecycle::new();
    daemon.start();
    assert_eq!(
        daemon.on_event(LifecycleEvent::ProbeAnswered(true)),
        vec![LifecycleAction::Exit(1)]
    );
    assert_eq!(daemon.phase(), LifecyclePhase::Failed);
    let mut unbound = Lifecycle::new();
    unbound.start();
    unbound.on_event(LifecycleEvent::ProbeAnswered(false));
    assert_eq!(
        unbound.on_event(LifecycleEvent::SocketBound(false)),
        vec![LifecycleAction::Exit(1)]
    );
    let mut ready = Lifecycle::new();
    ready.start();
    ready.on_event(LifecycleEvent::ProbeAnswered(false));
    ready.on_event(LifecycleEvent::SocketBound(true));
    assert!(ready.on_event(LifecycleEvent::EngineCreated(true)).is_empty());
    assert!(ready.hotkeys_available());
    assert_eq!(ready.on_event(LifecycleEvent::ShutdownSignal).len(), 9);
    assert!(Lifecycle::stop(Ok(true)).is_ok());
    assert_eq!(Lifecycle::stop(Ok(false)).unwrap_err().message(), "Daemon is not responding");
    assert_eq!(Lifecycle::stop(Err(())).unwrap_err().message(), "Daemon is not running");
}

#[test]
fn a_command_that_was_supplied_something_else_is_answered_with_an_error() {
    let mut state = DaemonState::new(Config::default(), 7, 100);
    let misfit = "error: Internal error: the command was not supplied what it needs";
    for command in [
        Command::GetStatus,
        Command::ReloadConfig,
        Command::GetConfig,
        Command::GetHistory,
        Command::DeleteHistoryEntry { id: 3 },
        Command::ClearHistory,
    ] {
        assert_eq!(text_of(&handle_command(command, &mut state, Supplied::Nothing)), misfit);
    }
    assert_eq!(
        text_of(&handle_command(
            Command::GetHistory,
            &mut state,
            Supplied::HistoryClearing(Ok(()))
        )),
        misfit
    );
    // A command that needs nothing takes no notice of what was supplied.
    assert_eq!(
        text_of(&handle_command(Command::Ping, &mut state, Supplied::HistoryClearing(Ok(())))),
        "pong"
    );
    assert!(!state.is_shutdown_requested());
}
