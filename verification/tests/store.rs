use debugger_core::{Architecture, Error, SessionStatusUI, SessionStore, UICommand};
use debugger_core::event::{ModuleInfo, ThreadInfo};

fn store_with_session(ts: u64) -> (SessionStore, String) {
    let mut store = SessionStore::new();
    let id = store
        .create_debug_session_at(
            "t1".to_string(),
            "tcp://127.0.0.1:9000".to_string(),
            "target.exe".to_string(),
            ts,
        )
        .expect("create");
    (store, id)
}

#[test]
fn create_mints_timestamped_id() {
    let (store, id) = store_with_session(1234);
    assert_eq!(id, "session_1234");
    let snap = store.get_debug_session(&id).expect("snapshot");
    assert_eq!(snap.id, "session_1234");
    assert_eq!(snap.name, "t1");
    assert_eq!(snap.server_url, "tcp://127.0.0.1:9000");
    assert_eq!(snap.launch_command, "target.exe");
    assert_eq!(snap.status, SessionStatusUI::Created);
    assert!(snap.current_event.is_none());
}

#[test]
fn create_with_clock_uses_prefix() {
    let mut store = SessionStore::new();
    let id = store
        .create_debug_session("t".to_string(), "u".to_string(), "c".to_string())
        .expect("create");
    assert!(id.starts_with("session_"));
}

#[test]
fn duplicate_pair_rejected() {
    let (mut store, _id) = store_with_session(1);
    let second = store.create_debug_session_at(
        "other name".to_string(),
        "tcp://127.0.0.1:9000".to_string(),
        "target.exe".to_string(),
        2,
    );
    assert!(matches!(second, Err(Error::SessionAlreadyExists)));
    assert_eq!(store.get_debug_sessions().len(), 1);
}

#[test]
fn same_millisecond_collision_rejected() {
    let (mut store, _id) = store_with_session(5);
    let second = store.create_debug_session_at(
        "t2".to_string(),
        "tcp://other:1".to_string(),
        "other.exe".to_string(),
        5,
    );
    assert!(matches!(second, Err(Error::SessionAlreadyExists)));
}

#[test]
fn update_requires_rest() {
    let (mut store, id) = store_with_session(1);
    // A freshly created session is not at rest.
    let r = store.update_debug_session(&id, "n".to_string(), "u".to_string(), "c".to_string());
    assert!(matches!(r, Err(Error::InvalidSessionState(_))));

    store.sessions[0].status = SessionStatusUI::Stopped;
    let r = store.update_debug_session(
        &id,
        "renamed".to_string(),
        "tcp://host:1".to_string(),
        "other.exe".to_string(),
    );
    assert!(r.is_ok());
    let snap = store.get_debug_session(&id).unwrap();
    assert_eq!(snap.name, "renamed");
    assert_eq!(snap.server_url, "tcp://host:1");

    store.sessions[0].status = SessionStatusUI::Error("boom".to_string());
    let r = store.update_debug_session(&id, "again".to_string(), "u2".to_string(), "c2".to_string());
    assert!(r.is_ok());
}

#[test]
fn update_unknown_id_not_found() {
    let (mut store, _id) = store_with_session(1);
    let missing = "session_999".to_string();
    let r = store.update_debug_session(&missing, "n".to_string(), "u".to_string(), "c".to_string());
    assert!(matches!(r, Err(Error::SessionNotFound(m)) if m == "session_999"));
}

#[test]
fn update_duplicate_excludes_self() {
    let (mut store, id) = store_with_session(1);
    store.sessions[0].status = SessionStatusUI::Stopped;
    // Re-submitting the session's own pair is allowed.
    let r = store.update_debug_session(
        &id,
        "t1".to_string(),
        "tcp://127.0.0.1:9000".to_string(),
        "target.exe".to_string(),
    );
    assert!(r.is_ok());
    // Another session's pair is not.
    store
        .create_debug_session_at("t2".to_string(), "u2".to_string(), "c2".to_string(), 2)
        .expect("second");
    let r = store.update_debug_session(&id, "t1".to_string(), "u2".to_string(), "c2".to_string());
    assert!(matches!(r, Err(Error::SessionAlreadyExists)));
}

#[test]
fn delete_is_idempotent() {
    let (mut store, id) = store_with_session(1);
    assert!(store.delete_debug_session(&id));
    assert_eq!(store.get_debug_sessions().len(), 0);
    // Deleting again finds nothing and still succeeds.
    assert!(!store.delete_debug_session(&id));
    assert_eq!(store.get_debug_sessions().len(), 0);
}

#[test]
fn stop_is_idempotent() {
    let (mut store, id) = store_with_session(1);
    let first = store.stop_debug_session(&id);
    assert!(first.found);
    assert!(first.had_sender);
    let second = store.stop_debug_session(&id);
    assert!(second.found);
    assert!(!second.had_sender);
    // Stopping an unknown session is success from the caller's view.
    let missing = "session_404".to_string();
    let gone = store.stop_debug_session(&missing);
    assert!(!gone.found);
    assert!(!gone.had_sender);
}

#[test]
fn step_gates_require_paused() {
    let (mut store, id) = store_with_session(1);
    let r = store.step_in_debug_session(&id);
    assert!(matches!(r, Err(Error::InvalidSessionState(m))
        if m == "Session must be paused to step in"));

    store.sessions[0].status = SessionStatusUI::Paused;
    assert!(matches!(store.step_debug_session(&id), Ok(UICommand::Go)));
    assert!(matches!(store.step_in_debug_session(&id), Ok(UICommand::StepIn)));
    assert!(matches!(store.step_over_debug_session(&id), Ok(UICommand::StepOver)));
    assert!(matches!(store.step_out_debug_session(&id), Ok(UICommand::StepOut)));
    assert!(matches!(store.request_session_callstack(&id), Ok(UICommand::GetCallStack)));
    assert!(matches!(store.get_memory_regions(&id), Ok(UICommand::GetMemoryRegions)));

    let missing = "session_404".to_string();
    assert!(matches!(store.step_debug_session(&missing), Err(Error::SessionNotFound(_))));
}

#[test]
fn gates_report_missing_sender() {
    let (mut store, id) = store_with_session(1);
    store.sessions[0].status = SessionStatusUI::Paused;
    store.sessions[0].ui_sender_present = false;
    let r = store.request_session_callstack(&id);
    assert!(matches!(r, Err(Error::InternalCommunication(m))
        if m == "Session UI sender not available"));
}

#[test]
fn query_commands_carry_arguments() {
    let (mut store, id) = store_with_session(1);
    store.sessions[0].status = SessionStatusUI::Paused;

    let r = store.request_disassembly(&id, 0x401000, 4, Architecture::X64).unwrap();
    assert!(matches!(r, UICommand::Disassembly {
        arch: Architecture::X64, address: 0x401000, count: 4,
    }));

    let r = store
        .search_session_symbols(&id, "Create*".to_string(), None)
        .unwrap();
    assert!(matches!(r, UICommand::SearchSymbols { ref pattern, limit: 30 }
        if pattern == "Create*"));

    let r = store.read_memory(&id, 0x1000, 64).unwrap();
    assert!(matches!(r, UICommand::ReadMemory { address: 0x1000, size: 64 }));

    let r = store.write_memory(&id, 0x2000, vec![1, 2, 3]).unwrap();
    assert!(matches!(r, UICommand::WriteMemory { address: 0x2000, ref data } if data == &[1, 2, 3]));
}

#[test]
fn start_gating_and_reset() {
    let (mut store, id) = store_with_session(1);
    assert!(store.start_debug_session(&id).is_ok());
    // The loop takes the receiver; a second start must be refused.
    store.sessions[0].ui_receiver_present = false;
    let r = store.start_debug_session(&id);
    assert!(matches!(r, Err(Error::InvalidSessionState(m)) if m == "Session is already running"));

    // A stopped session is reset for the next run: fresh queue installed.
    store.sessions[0].status = SessionStatusUI::Stopped;
    store.sessions[0].ui_receiver_present = true;
    store.sessions[0].ui_sender_present = false;
    assert!(store.start_debug_session(&id).is_ok());
    assert!(store.sessions[0].ui_sender_present);
    assert!(store.sessions[0].ui_receiver_present);
    assert_eq!(store.sessions[0].status, SessionStatusUI::Created);

    let missing = "session_404".to_string();
    assert!(matches!(store.start_debug_session(&missing), Err(Error::SessionNotFound(_))));
}

#[test]
fn window_state_flags() {
    let (mut store, id) = store_with_session(1);
    assert!(store
        .update_window_state(&id, &"disassembly".to_string(), true)
        .is_ok());
    assert!(store.sessions[0].is_disassembly_window_open);
    assert!(store
        .update_window_state(&id, &"registers".to_string(), true)
        .is_ok());
    assert!(store
        .update_window_state(&id, &"callstack".to_string(), true)
        .is_ok());
    assert!(store.sessions[0].is_callstack_window_open);
    assert!(store
        .update_window_state(&id, &"disassembly".to_string(), false)
        .is_ok());
    assert!(!store.sessions[0].is_disassembly_window_open);
    let r = store.update_window_state(&id, &"statusbar".to_string(), true);
    assert!(matches!(r, Err(Error::InvalidSessionState(m))
        if m == "Unknown window type: statusbar"));
}

#[test]
fn module_and_thread_listings() {
    let (mut store, id) = store_with_session(1);
    store.sessions[0].modules.push(ModuleInfo {
        name: "target.exe".to_string(),
        base: 0x400000,
        size: Some(0x2000),
    });
    store.sessions[0].modules.push(ModuleInfo {
        name: "ntdll.dll".to_string(),
        base: 0x7FFF0000,
        size: None,
    });
    store.sessions[0].threads.push(ThreadInfo { tid: 2000, start_address: 0x400000 });

    let modules = store.get_session_modules(&id).unwrap();
    assert_eq!(modules.len(), 2);
    assert_eq!(modules[0].name, "target.exe");
    assert_eq!(modules[0].base_address, "0x400000");
    assert_eq!(modules[0].size, 0x2000);
    assert_eq!(modules[0].path, "target.exe");
    assert_eq!(modules[1].size, 0);

    let threads = store.get_session_threads(&id).unwrap();
    assert_eq!(threads.len(), 1);
    assert_eq!(threads[0].id, 2000);
    assert_eq!(threads[0].status, "Running");
    assert_eq!(threads[0].start_address, "0x400000");
}
