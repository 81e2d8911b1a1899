use debugger_core::Architecture;
use debugger_core::context::{RawThreadContext, X64RawContext};
use debugger_core::event::DebugEvent;
use debugger_core::machine::{
    apply_pause, apply_step_result, begin_run, finish_session, handle_receiver_disconnected,
    handle_server_event, handle_ui_command, record_run_outcome, AuxQuery, CommandDisposition,
    EventDisposition, PauseOutcome, StepKind, StepOutcome, UICommand, UiEmit,
};
use debugger_core::settings::DebugSettings;
use debugger_core::state::{SessionStateUI, SessionStatusUI};
use debugger_core::LogLevel;

fn fresh_session() -> SessionStateUI {
    SessionStateUI::new(
        "session_1234".to_string(),
        "t1".to_string(),
        "tcp://127.0.0.1:9000".to_string(),
        "target.exe".to_string(),
    )
}

fn raw_ctx(rip: u64) -> RawThreadContext {
    RawThreadContext::X64(X64RawContext {
        rax: 0, rbx: 0, rcx: 0, rdx: 0,
        rsi: 0, rdi: 0, rbp: 0, rsp: 0,
        rip,
        r8: 0, r9: 0, r10: 0, r11: 0,
        r12: 0, r13: 0, r14: 0, r15: 0,
        eflags: 0x202,
    })
}

fn process_created() -> DebugEvent {
    DebugEvent::ProcessCreated {
        pid: 1000,
        tid: 2000,
        image_file_name: Some("target.exe".to_string()),
        base_of_image: 0x400000,
        size_of_image: Some(0x2000),
    }
}

#[test]
fn create_start_step_stop() {
    let mut state = fresh_session();
    let settings = DebugSettings::default();

    // Start: the run takes the receiver and hands back how to connect.
    let (url, cmd) = begin_run(&mut state).expect("begin");
    assert_eq!(url, "tcp://127.0.0.1:9000");
    assert_eq!(cmd, "target.exe");
    assert_eq!(state.status, SessionStatusUI::Running);

    // Process creation pauses under the default policy, after a context fetch.
    let event = process_created();
    let (d, emits) = handle_server_event(&mut state, &event, &settings);
    assert!(matches!(d, EventDisposition::FetchContext { pid: 1000, tid: 2000 }));
    assert!(emits.is_empty());

    let (o, emits) = apply_pause(&mut state, &event, Ok(raw_ctx(0x401000)));
    assert!(matches!(o, PauseOutcome::AwaitCommands));
    assert_eq!(state.status, SessionStatusUI::Paused);
    assert_eq!(state.modules.len(), 1);
    assert_eq!(state.modules[0].name, "target.exe");
    assert_eq!(state.modules[0].base, 0x400000);
    assert_eq!(state.modules[0].size, Some(0x2000));
    assert_eq!(state.threads.len(), 1);
    assert_eq!(state.threads[0].tid, 2000);
    assert_eq!(state.threads[0].start_address, 0x400000);
    assert_eq!(emits.len(), 1);
    match &emits[0] {
        UiEmit::SessionUpdated(snap) => {
            assert_eq!(snap.status, SessionStatusUI::Paused);
            let info = snap.current_event.as_ref().expect("current event");
            assert_eq!(info.event_type, "ProcessCreated");
            // No address on the event itself: defaulted from the context's rip.
            assert_eq!(info.address, Some(0x401000));
        },
        other => panic!("expected a snapshot, got {:?}", other),
    }

    // Step in: the loop sends a step-into for the paused thread.
    let (d, emits) = handle_ui_command(&mut state, &UICommand::StepIn, &event);
    assert!(matches!(
        d,
        CommandDisposition::IssueStep { kind: StepKind::Into, pid: 1000, tid: 2000 }
    ));
    assert!(emits.is_empty());
    let (o, emits) = apply_step_result(&mut state, StepKind::Into, Ok(()));
    assert!(matches!(o, StepOutcome::Resume));
    assert_eq!(state.status, SessionStatusUI::Running);
    assert_eq!(emits.len(), 1);

    // Stop: the loop exits and the session comes to rest stopped.
    let (d, _emits) = handle_ui_command(&mut state, &UICommand::Stop, &event);
    assert!(matches!(d, CommandDisposition::ExitLoop));
    assert_eq!(state.status, SessionStatusUI::Stopped);
    let emits = finish_session(&mut state);
    assert_eq!(state.status, SessionStatusUI::Stopped);
    assert!(state.current_event.is_none());
    assert!(state.ui_receiver_present);
    assert_eq!(emits.len(), 1);
}

#[test]
fn receiver_taken_once() {
    let mut state = fresh_session();
    assert!(begin_run(&mut state).is_ok());
    let second = begin_run(&mut state);
    assert!(second.is_err());
    // After the run ends, a fresh queue is installed and a start works again.
    finish_session(&mut state);
    assert!(begin_run(&mut state).is_ok());
}

#[test]
fn output_event_logs_and_continues() {
    let mut state = fresh_session();
    state.status = SessionStatusUI::Running;
    let settings = DebugSettings::default();
    let event = DebugEvent::Output { pid: 1000, tid: 2000, output: "hello".to_string() };
    let (d, emits) = handle_server_event(&mut state, &event, &settings);
    assert!(matches!(d, EventDisposition::AutoContinue));
    assert_eq!(state.status, SessionStatusUI::Running);
    assert_eq!(state.events.len(), 1);
    assert_eq!(emits.len(), 3);
    match &emits[0] {
        UiEmit::Log(LogLevel::Info, m) => assert_eq!(m, "OutputDebugString: hello"),
        other => panic!("expected a log, got {:?}", other),
    }
    match &emits[1] {
        UiEmit::Toast(m) => assert_eq!(m, "OutputDebugString: hello"),
        other => panic!("expected a toast, got {:?}", other),
    }
    assert!(matches!(&emits[2], UiEmit::SessionUpdated(_)));
}

#[test]
fn dll_churn_under_auto_continue() {
    let mut state = fresh_session();
    state.status = SessionStatusUI::Running;
    let mut settings = DebugSettings::default();
    settings.stop_on_dll_load = false;
    settings.stop_on_dll_unload = false;

    let load = DebugEvent::DllLoaded {
        pid: 1000,
        tid: 2000,
        dll_name: Some("ntdll.dll".to_string()),
        base_of_dll: 0x7FFF0000,
        size_of_dll: Some(0x200000),
    };
    let (d, emits) = handle_server_event(&mut state, &load, &settings);
    assert!(matches!(d, EventDisposition::AutoContinue));
    assert_eq!(state.status, SessionStatusUI::Running);
    assert_eq!(state.modules.len(), 1);
    assert_eq!(state.modules[0].name, "ntdll.dll");
    assert_eq!(emits.len(), 4);
    match &emits[0] {
        UiEmit::DllLoaded(p) => {
            assert_eq!(p.session_id, "session_1234");
            assert_eq!(p.dll_name, "ntdll.dll");
            assert_eq!(p.base_of_dll, 0x7FFF0000);
            assert_eq!(p.size_of_dll, Some(0x200000));
        },
        other => panic!("expected dll-loaded, got {:?}", other),
    }
    match &emits[1] {
        UiEmit::Log(LogLevel::Info, m) => {
            assert_eq!(m, "DLL loaded: ntdll.dll @ 0x7FFF0000 (size: 0x200000)")
        },
        other => panic!("expected a log, got {:?}", other),
    }
    assert!(matches!(&emits[3], UiEmit::SessionUpdated(_)));

    let unload = DebugEvent::DllUnloaded { pid: 1000, tid: 2000, base_of_dll: 0x7FFF0000 };
    let (d, emits) = handle_server_event(&mut state, &unload, &settings);
    assert!(matches!(d, EventDisposition::AutoContinue));
    assert_eq!(state.status, SessionStatusUI::Running);
    assert_eq!(state.modules.len(), 0);
    match &emits[0] {
        UiEmit::DllUnloaded(p) => {
            // The name was captured before the table dropped the module.
            assert_eq!(p.dll_name.as_deref(), Some("ntdll.dll"));
            assert_eq!(p.base_of_dll, 0x7FFF0000);
        },
        other => panic!("expected dll-unloaded, got {:?}", other),
    }
    match &emits[1] {
        UiEmit::Log(LogLevel::Info, m) => assert_eq!(m, "DLL unloaded: ntdll.dll @ 0x7FFF0000"),
        other => panic!("expected a log, got {:?}", other),
    }
}

#[test]
fn snapshots_follow_event_order() {
    let mut state = fresh_session();
    state.status = SessionStatusUI::Running;
    let mut settings = DebugSettings::default();
    settings.stop_on_thread_create = false;

    let first = DebugEvent::ThreadCreated { pid: 1000, tid: 2001, start_address: 0x1000 };
    let (_, em1) = handle_server_event(&mut state, &first, &settings);
    let second = DebugEvent::ThreadCreated { pid: 1000, tid: 2002, start_address: 0x2000 };
    let (_, em2) = handle_server_event(&mut state, &second, &settings);

    // Each handled event closes its emit list with the snapshot of the
    // record as of that event; published in order, snapshots follow events.
    assert_eq!(state.events.len(), 2);
    match (em1.last(), em2.last()) {
        (Some(UiEmit::SessionUpdated(s1)), Some(UiEmit::SessionUpdated(s2))) => {
            let i1 = s1.current_event.as_ref().unwrap();
            let i2 = s2.current_event.as_ref().unwrap();
            assert_eq!(i1.thread_id, 2001);
            assert_eq!(i2.thread_id, 2002);
        },
        _ => panic!("expected snapshots at the tail of both emit lists"),
    }
}

#[test]
fn process_exit_terminates() {
    let mut state = fresh_session();
    state.status = SessionStatusUI::Running;
    let settings = DebugSettings::default();
    // Seed tables through a non-pausing creation first.
    let mut quiet = settings;
    quiet.stop_on_process_create = false;
    handle_server_event(&mut state, &process_created(), &quiet);
    assert_eq!(state.modules.len(), 1);

    let exit = DebugEvent::ProcessExited { pid: 1000, exit_code: 0 };
    let (d, emits) = handle_server_event(&mut state, &exit, &settings);
    assert!(matches!(d, EventDisposition::Exit));
    assert_eq!(state.status, SessionStatusUI::Stopped);
    assert_eq!(state.modules.len(), 0);
    assert_eq!(state.threads.len(), 0);
    assert_eq!(emits.len(), 1);
    assert!(matches!(&emits[0], UiEmit::SessionUpdated(_)));
}

#[test]
fn context_fetch_failure_is_fatal() {
    let mut state = fresh_session();
    state.status = SessionStatusUI::Running;
    let event = process_created();
    let (o, emits) = apply_pause(&mut state, &event, Err("timeout".to_string()));
    assert!(matches!(o, PauseOutcome::ExitLoop));
    assert_eq!(
        state.status,
        SessionStatusUI::Error("GetThreadContext failed: timeout".to_string())
    );
    assert_eq!(emits.len(), 1);
}

#[test]
fn step_out_failure_stays_paused() {
    let mut state = fresh_session();
    let event = process_created();
    let (_, _) = handle_server_event(&mut state, &event, &DebugSettings::default());
    apply_pause(&mut state, &event, Ok(raw_ctx(0x401000)));
    assert_eq!(state.status, SessionStatusUI::Paused);

    // A failed step-out surfaces one error log and toast and stays paused.
    let (o, emits) = apply_step_result(&mut state, StepKind::Out, Err("no return".to_string()));
    assert!(matches!(o, StepOutcome::StayPaused));
    assert_eq!(state.status, SessionStatusUI::Paused);
    assert_eq!(emits.len(), 2);
    match &emits[0] {
        UiEmit::Log(LogLevel::Error, m) => assert_eq!(m, "Step out failed: no return"),
        other => panic!("expected a log, got {:?}", other),
    }

    // A subsequent step-in still works.
    let (d, _) = handle_ui_command(&mut state, &UICommand::StepIn, &event);
    assert!(matches!(d, CommandDisposition::IssueStep { kind: StepKind::Into, .. }));
    let (o, _) = apply_step_result(&mut state, StepKind::Into, Ok(()));
    assert!(matches!(o, StepOutcome::Resume));
}

#[test]
fn fatal_step_failure_errors_the_session() {
    let mut state = fresh_session();
    state.status = SessionStatusUI::Paused;
    let (o, emits) = apply_step_result(&mut state, StepKind::Into, Err("gone".to_string()));
    assert!(matches!(o, StepOutcome::ExitLoop));
    assert!(emits.is_empty());
    assert_eq!(
        state.status,
        SessionStatusUI::Error("Debug loop failed: Failed to start step-in: gone".to_string())
    );
}

#[test]
fn queries_keep_the_session_paused() {
    let mut state = fresh_session();
    let event = process_created();
    handle_server_event(&mut state, &event, &DebugSettings::default());
    apply_pause(&mut state, &event, Ok(raw_ctx(0x401000)));

    let cmd = UICommand::Disassembly { arch: Architecture::X64, address: 0x401000, count: 4 };
    let (d, emits) = handle_ui_command(&mut state, &cmd, &event);
    assert!(emits.is_empty());
    assert_eq!(state.status, SessionStatusUI::Paused);
    match d {
        CommandDisposition::IssueQuery(AuxQuery::Disassembly { pid, arch, address, count }) => {
            assert_eq!(pid, 1000);
            assert!(matches!(arch, Architecture::X64));
            assert_eq!(address, 0x401000);
            assert_eq!(count, 4);
        },
        other => panic!("expected a disassembly query, got {:?}", other),
    }

    let (d, _) = handle_ui_command(&mut state, &UICommand::GetCallStack, &event);
    assert!(matches!(
        d,
        CommandDisposition::IssueQuery(AuxQuery::CallStack { pid: 1000, tid: 2000 })
    ));
    assert_eq!(state.status, SessionStatusUI::Paused);
}

#[test]
fn receiver_disconnect_stops_quietly() {
    let mut state = fresh_session();
    state.status = SessionStatusUI::Running;
    handle_receiver_disconnected(&mut state);
    assert_eq!(state.status, SessionStatusUI::Stopped);

    // A recorded error is kept.
    state.status = SessionStatusUI::Error("boom".to_string());
    handle_receiver_disconnected(&mut state);
    assert_eq!(state.status, SessionStatusUI::Error("boom".to_string()));
}

#[test]
fn run_outcome_recorded() {
    let mut state = fresh_session();
    state.status = SessionStatusUI::Running;
    let emits = record_run_outcome(&mut state, Ok(()));
    assert_eq!(state.status, SessionStatusUI::Stopped);
    assert_eq!(state.debug_result, Some(Ok(())));
    assert_eq!(emits.len(), 1);

    let mut state = fresh_session();
    let emits = record_run_outcome(&mut state, Err("transport died".to_string()));
    assert_eq!(state.status, SessionStatusUI::Error("transport died".to_string()));
    assert_eq!(state.debug_result, Some(Err("transport died".to_string())));
    assert_eq!(emits.len(), 2);
    match &emits[0] {
        UiEmit::Log(LogLevel::Error, m) => {
            assert_eq!(m, "Debug session session_1234 failed: transport died")
        },
        other => panic!("expected a log, got {:?}", other),
    }
}

#[test]
fn loop_error_outlives_a_normal_return() {
    let mut state = fresh_session();
    state.status = SessionStatusUI::Error("GetThreadContext failed: timeout".to_string());
    let emits = record_run_outcome(&mut state, Ok(()));
    assert_eq!(
        state.status,
        SessionStatusUI::Error("GetThreadContext failed: timeout".to_string())
    );
    assert_eq!(
        state.debug_result,
        Some(Err("GetThreadContext failed: timeout".to_string()))
    );
    assert_eq!(emits.len(), 1);
}

#[test]
fn finish_preserves_error() {
    let mut state = fresh_session();
    state.status = SessionStatusUI::Error("boom".to_string());
    state.current_event = Some(DebugEvent::Unknown);
    let emits = finish_session(&mut state);
    assert_eq!(state.status, SessionStatusUI::Error("boom".to_string()));
    assert!(state.current_event.is_none());
    assert_eq!(emits.len(), 1);
}
