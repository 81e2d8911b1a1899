//! Controller-side core of an interactive native-code debugger.
//!
//! The library models the per-session control logic of a debugger front-end:
//! the session store with its duplicate guard, the stop policy that decides
//! whether a debug event pauses the debuggee, the event-driven module and
//! thread tables, the translation of debug events and register contexts into
//! serializable UI records, and the state machine that drives one session
//! from launch to termination. All I/O (the RPC transport, the window shell,
//! the settings file) lives outside the library and hands it plain values.

use vstd::prelude::*;

pub mod clock;
pub mod context;
pub mod error;
pub mod event;
pub mod fmtnum;
pub mod logs;
pub mod machine;
pub mod queries;
pub mod settings;
pub mod state;
pub mod store;

pub use context::{
    Arm64RawContext, RawThreadContext, SerializableArm64ThreadContext, SerializableThreadContext,
    Serializablex64ThreadContext, X64RawContext, convert_raw_context_to_serializable,
};
pub use event::{DebugEvent, DebugEventInfo, ModuleInfo, ThreadInfo, debug_event_to_info};
pub use fmtnum::{format_bytes, parse_hex_u64, hex_upper, hex_lower, hex_fixed_lower, dec_u64};
pub use error::Error;
pub use logs::{LogEntry, LogLevel, LogStore};
pub use machine::{
    Architecture, AuxQuery, CommandDisposition, EventDisposition, PauseOutcome, StepKind,
    StepOutcome, UICommand, UiEmit, apply_pause, apply_step_result, begin_run, finish_session,
    handle_receiver_disconnected, handle_server_event, handle_ui_command, record_run_outcome,
};
pub use queries::{
    CallStackData, Instruction, MemoryReadError, MemoryReadResult, MemoryRegionsError,
    MemoryRegionsResult, MemoryWriteError, MemoryWriteResult, SerializableInstruction,
    SerializableMemoryRegion, SymbolData, build_callstack_result, build_disassembly_result,
    build_memory_read_emit, build_memory_regions_result, build_memory_write_emit,
    build_symbols_result, extract_symbol_name,
};
pub use settings::{DebugSettings, should_pause};
pub use state::{DebugSessionUI, SessionStateUI, SessionStatusUI, update_session_from_event};
pub use store::{ModuleData, SessionStore, StopSignal, ThreadData};

verus! {

} // verus!
