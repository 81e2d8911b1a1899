use debugger_core::Error;
use debugger_core::{LogLevel, LogStore};
use debugger_core::context::{
    Arm64RawContext, RawThreadContext, SerializableThreadContext, X64RawContext, convert_raw_context_to_serializable,
};
use debugger_core::event::{DebugEvent, debug_event_to_info};
use debugger_core::fmtnum::parse_hex_u64;
use debugger_core::queries::extract_symbol_name;
use debugger_core::settings::{DebugSettings, should_pause};

fn x64_context(rip: u64) -> RawThreadContext {
    RawThreadContext::X64(X64RawContext {
        rax: 1, rbx: 2, rcx: 3, rdx: 4,
        rsi: 5, rdi: 6, rbp: 7, rsp: 0x7FFE0000,
        rip,
        r8: 8, r9: 9, r10: 10, r11: 11,
        r12: 12, r13: 13, r14: 14, r15: 15,
        eflags: 0x246,
    })
}

#[test]
fn process_created_info() {
    let e = DebugEvent::ProcessCreated {
        pid: 1000,
        tid: 2000,
        image_file_name: Some("target.exe".to_string()),
        base_of_image: 0x400000,
        size_of_image: Some(0x2000),
    };
    let info = debug_event_to_info(&e);
    assert_eq!(info.event_type, "ProcessCreated");
    assert_eq!(info.process_id, 1000);
    assert_eq!(info.thread_id, 2000);
    assert!(info.can_continue);
    assert_eq!(info.address, None);
    assert_eq!(
        info.details,
        "Process created: PID=1000, TID=2000, Image=target.exe, Base=0x400000, Size=0x2000"
    );
}

#[test]
fn process_exited_cannot_continue() {
    let e = DebugEvent::ProcessExited { pid: 1000, exit_code: 0 };
    let info = debug_event_to_info(&e);
    assert_eq!(info.event_type, "ProcessExited");
    assert!(!info.can_continue);
    assert_eq!(info.thread_id, 0);
    assert_eq!(info.details, "Process exited: PID=1000, Exit Code=0");
}

#[test]
fn breakpoint_carries_address() {
    let e = DebugEvent::Breakpoint { pid: 1, tid: 2, address: 0x401000 };
    let info = debug_event_to_info(&e);
    assert_eq!(info.address, Some(0x401000));
    assert_eq!(info.details, "Breakpoint hit: PID=1, TID=2, Address=0x401000");
}

#[test]
fn exception_uses_lowercase_hex() {
    let e = DebugEvent::Exception {
        pid: 1,
        tid: 2,
        code: 0xC0000005,
        address: 0x401A2B,
        first_chance: true,
    };
    let info = debug_event_to_info(&e);
    assert_eq!(
        info.details,
        "Exception occurred: PID=1, TID=2, Code=0xc0000005, Address=0x401a2b, First Chance=true"
    );
}

#[test]
fn dll_loaded_unknown_name() {
    let e = DebugEvent::DllLoaded {
        pid: 1,
        tid: 2,
        dll_name: None,
        base_of_dll: 0x7FFF0000,
        size_of_dll: None,
    };
    let info = debug_event_to_info(&e);
    assert_eq!(
        info.details,
        "DLL loaded: PID=1, TID=2, Name=Unknown, Base=0x7FFF0000, Size=Unknown"
    );
}

#[test]
fn context_serialization_is_fixed_width() {
    let ctx = convert_raw_context_to_serializable(&x64_context(0x401000));
    match &ctx {
        SerializableThreadContext::X64(c) => {
            assert_eq!(c.rip, "0x0000000000401000");
            assert_eq!(c.rip.len(), 18);
            assert_eq!(c.rax, "0x0000000000000001");
            assert_eq!(c.eflags, "0x00000246");
            assert_eq!(c.eflags.len(), 10);
            // Decoding the rendered instruction pointer yields the value.
            assert_eq!(parse_hex_u64(&c.rip), Some(0x401000));
        },
        _ => panic!("expected an x64 context"),
    }
}

#[test]
fn symbol_name_extraction() {
    assert_eq!(extract_symbol_name("ntdll!NtCreateFile"), "NtCreateFile");
    assert_eq!(extract_symbol_name("NoBangHere"), "NoBangHere");
    assert_eq!(extract_symbol_name("a!b!c"), "b!c");
    assert_eq!(extract_symbol_name(""), "");
    assert_eq!(extract_symbol_name("mod!"), "");
}

#[test]
fn stop_policy_follows_settings_and_variant() {
    let defaults = DebugSettings::default();
    assert!(should_pause(
        &DebugEvent::ProcessCreated {
            pid: 1, tid: 2, image_file_name: None, base_of_image: 0, size_of_image: None,
        },
        &defaults,
    ));
    // Thread exit does not pause by default.
    assert!(!should_pause(
        &DebugEvent::ThreadExited { pid: 1, tid: 2, exit_code: 0 },
        &defaults,
    ));
    // Output never pauses, and process exit is terminal rather than pausing.
    assert!(!should_pause(
        &DebugEvent::Output { pid: 1, tid: 2, output: "hi".to_string() },
        &defaults,
    ));
    assert!(!should_pause(&DebugEvent::ProcessExited { pid: 1, exit_code: 0 }, &defaults));
    // Unclassified events always pause.
    assert!(should_pause(&DebugEvent::Breakpoint { pid: 1, tid: 2, address: 0 }, &defaults));
    assert!(should_pause(&DebugEvent::Unknown, &defaults));

    // The decision depends only on the variant and the switch.
    let mut s = defaults;
    s.stop_on_dll_load = false;
    let load_a = DebugEvent::DllLoaded {
        pid: 1, tid: 2, dll_name: Some("a.dll".to_string()), base_of_dll: 1, size_of_dll: None,
    };
    let load_b = DebugEvent::DllLoaded {
        pid: 9, tid: 9, dll_name: None, base_of_dll: 999, size_of_dll: Some(4),
    };
    assert_eq!(should_pause(&load_a, &s), should_pause(&load_b, &s));
    assert!(!should_pause(&load_a, &s));
}

#[test]
fn error_messages() {
    assert_eq!(
        Error::SessionNotFound("session_1".to_string()).message(),
        "Session not found: session_1"
    );
    assert_eq!(
        Error::ConnectionFailed("refused".to_string()).message(),
        "Failed to connect to debug server: refused"
    );
    assert_eq!(Error::DebugLoop("boom".to_string()).message(), "Debug loop failed: boom");
    assert_eq!(
        Error::InternalCommunication("closed".to_string()).message(),
        "Internal communication failed: closed"
    );
    assert_eq!(
        Error::InvalidSessionState("busy".to_string()).message(),
        "Invalid session state: busy"
    );
    assert_eq!(
        Error::SessionAlreadyExists.message(),
        "A session with the same server and command already exists"
    );
}

#[test]
fn log_store_appends_and_clears() {
    let mut logs = LogStore::new();
    logs.log(LogLevel::Info, "hello", Some("session_1".to_string()));
    logs.log(LogLevel::Error, "bad", None);
    let entries = logs.get_logs();
    assert_eq!(entries.len(), 2);
    assert_eq!(entries[0].level, "INFO");
    assert_eq!(entries[0].message, "hello");
    assert_eq!(entries[0].session_id.as_deref(), Some("session_1"));
    assert_eq!(entries[1].level, "ERROR");
    assert_eq!(LogLevel::Warning.as_str(), "WARNING");
    assert_eq!(LogLevel::Debug.as_str(), "DEBUG");
    logs.clear_logs();
    assert_eq!(logs.get_logs().len(), 0);
}

#[test]
fn arm64_context_serialization() {
    let raw = RawThreadContext::Arm64(Arm64RawContext {
        x0: 0xAB, x1: 0, x2: 0, x3: 0, x4: 0, x5: 0, x6: 0, x7: 0,
        x8: 0, x9: 0, x10: 0, x11: 0, x12: 0, x13: 0, x14: 0, x15: 0,
        x16: 0, x17: 0, x18: 0, x19: 0, x20: 0, x21: 0, x22: 0, x23: 0,
        x24: 0, x25: 0, x26: 0, x27: 0, x28: 0, x29: 0, x30: 0,
        sp: 0x7FFE0000,
        pc: 0x401000,
        cpsr: 0x60000000,
    });
    let ctx = convert_raw_context_to_serializable(&raw);
    match &ctx {
        SerializableThreadContext::Arm64(c) => {
            assert_eq!(c.x0, "0x00000000000000ab");
            assert_eq!(c.pc, "0x0000000000401000");
            assert_eq!(c.sp, "0x000000007ffe0000");
            assert_eq!(c.cpsr, "0x60000000");
            assert_eq!(parse_hex_u64(&c.pc), Some(0x401000));
        },
        _ => panic!("expected an arm64 context"),
    }
}

#[test]
fn initial_breakpoint_follows_its_switch() {
    let mut s = DebugSettings::default();
    let e = DebugEvent::InitialBreakpoint { pid: 1, tid: 2 };
    assert!(should_pause(&e, &s));
    s.stop_on_initial_breakpoint = false;
    assert!(!should_pause(&e, &s));
    let info = debug_event_to_info(&e);
    assert_eq!(info.event_type, "InitialBreakpoint");
    assert_eq!(info.details, "Initial breakpoint: PID=1, TID=2");
}
