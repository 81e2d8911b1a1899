//! The per-session control loop as a state machine. The host owns the two
//! RPC channels and the command queue; it feeds every server event and every
//! user command into these functions, mutates nothing itself, and performs
//! the returned dispositions in order: send a continuation, fetch a thread
//! context, run a query, publish the listed emits. All ordering guarantees
//! of the loop are consequences of these contracts.

use vstd::prelude::*;
use crate::context::{RawThreadContext, convert_raw_context_to_serializable, spec_context_matches};
use crate::event::{DebugEvent, ModuleInfo, spec_event_pid, spec_event_tid};
use crate::fmtnum::{hex_seq_upper, hex_upper};
use crate::logs::LogLevel;
use crate::settings::{DebugSettings, should_pause, spec_should_pause};
use crate::state::{
    DebugSessionUI, SessionStateUI, SessionStatusUI, spec_snapshot_matches, spec_tables_updated,
    update_session_from_event,
};

verus! {

/// The instruction-set architecture of a debuggee.
#[derive(Debug, Clone, Copy, PartialEq, Eq, Structural)]
pub enum Architecture {
    X64,
    Arm64,
}

/// How a step proceeds: into calls, over them, or out of the frame.
#[derive(Debug, Clone, Copy, PartialEq, Eq, Structural)]
pub enum StepKind {
    Into,
    Over,
    Out,
}

/// A user command delivered to the control loop through its queue.
#[derive(Debug)]
pub enum UICommand {
    Go,
    StepIn,
    StepOver,
    StepOut,
    Stop,
    Disassembly { arch: Architecture, address: u64, count: u32 },
    GetCallStack,
    SearchSymbols { pattern: String, limit: u32 },
    ReadMemory { address: u64, size: usize },
    WriteMemory { address: u64, data: Vec<u8> },
    GetMemoryRegions,
}

/// Payload of the targeted `dll-loaded` event.
#[derive(Debug)]
pub struct DllLoadedEvent {
    pub session_id: String,
    pub pid: u32,
    pub tid: u32,
    pub dll_name: String,
    pub base_of_dll: u64,
    pub size_of_dll: Option<u64>,
}

/// Payload of the targeted `dll-unloaded` event; the name is the one the
/// module table held before removal, if it held the module at all.
#[derive(Debug)]
pub struct DllUnloadedEvent {
    pub session_id: String,
    pub pid: u32,
    pub tid: u32,
    pub base_of_dll: u64,
    pub dll_name: Option<String>,
}

/// One emission the host must publish, in list order: a full snapshot, a
/// targeted DLL event, a log line, or a toast.
#[derive(Debug)]
pub enum UiEmit {
    SessionUpdated(DebugSessionUI),
    DllLoaded(DllLoadedEvent),
    DllUnloaded(DllUnloadedEvent),
    Log(LogLevel, String),
    Toast(String),
}

/// What the host does after a server event is handled.
#[derive(Debug)]
pub enum EventDisposition {
    /// Publish the emits, then answer the server with a continuation.
    AutoContinue,
    /// Publish the emits; the loop is over.
    Exit,
    /// Fetch the thread context for this thread on the auxiliary channel,
    /// then hand the outcome to `apply_pause`.
    FetchContext { pid: u32, tid: u32 },
}

/// What the host does after a pausing event was applied.
#[derive(Debug)]
pub enum PauseOutcome {
    /// Block on the command queue and feed commands to `handle_ui_command`.
    AwaitCommands,
    /// The context fetch failed; the loop is over.
    ExitLoop,
}

/// What the host does after a user command is handled.
#[derive(Debug)]
pub enum CommandDisposition {
    /// Answer the server with a continuation; the loop reads the next event.
    Resume,
    /// Send the step request, then hand the outcome to `apply_step_result`.
    IssueStep { kind: StepKind, pid: u32, tid: u32 },
    /// Run the query on the auxiliary channel, publish its payload, stay
    /// paused, and keep waiting for commands.
    IssueQuery(AuxQuery),
    /// Stop was requested; the loop is over.
    ExitLoop,
}

/// What the host does after a step request was answered.
#[derive(Debug)]
pub enum StepOutcome {
    /// Answer the server with a continuation; the loop reads the next event.
    Resume,
    /// The step-out failed; stay paused and keep waiting for commands.
    StayPaused,
    /// The step failed fatally; the loop is over.
    ExitLoop,
}

/// A read-only query the host runs on the auxiliary channel while paused.
#[derive(Debug)]
pub enum AuxQuery {
    Disassembly { pid: u32, arch: Architecture, address: u64, count: u32 },
    CallStack { pid: u32, tid: u32 },
    SearchSymbols { pid: u32, pattern: String, limit: u32 },
    ReadMemory { pid: u32, address: u64, size: usize },
    WriteMemory { pid: u32, address: u64, data: Vec<u8> },
    MemoryRegions { pid: u32 },
}

/// Identity fields never change while a session runs.
pub open spec fn spec_same_identity(a: SessionStateUI, b: SessionStateUI) -> bool {
    &&& b.id == a.id
    &&& b.name == a.name
    &&& b.server_url == a.server_url
    &&& b.launch_command == a.launch_command
    &&& b.created_at == a.created_at
}

/// Queue endpoints, run result and window flags, untouched by the loop's
/// event handling.
pub open spec fn spec_same_plumbing(a: SessionStateUI, b: SessionStateUI) -> bool {
    &&& b.ui_sender_present == a.ui_sender_present
    &&& b.ui_receiver_present == a.ui_receiver_present
    &&& b.debug_result == a.debug_result
    &&& b.is_disassembly_window_open == a.is_disassembly_window_open
    &&& b.is_registers_window_open == a.is_registers_window_open
    &&& b.is_callstack_window_open == a.is_callstack_window_open
}

/// The log line for a debug-output event.
pub open spec fn spec_output_msg(output: Seq<char>) -> Seq<char> {
    "OutputDebugString: "@ + output
}

/// The DLL name shown in the `dll-loaded` payload and message.
pub open spec fn spec_loaded_name(dll_name: Option<String>) -> Seq<char> {
    match dll_name {
        Some(n) => n@,
        None => "<unknown>"@,
    }
}

/// The log line for a DLL load.
pub open spec fn spec_dll_loaded_msg(name: Seq<char>, base: u64, size: Option<u64>) -> Seq<char> {
    let head = "DLL loaded: "@ + name + " @ 0x"@ + hex_seq_upper(base as nat);
    match size {
        Some(sz) => head + " (size: 0x"@ + hex_seq_upper(sz as nat) + ")"@,
        None => head,
    }
}

/// The log line for a DLL unload, with the captured name when one was held.
pub open spec fn spec_dll_unloaded_msg(name: Option<String>, base: u64) -> Seq<char> {
    match name {
        Some(n) => "DLL unloaded: "@ + n@ + " @ 0x"@ + hex_seq_upper(base as nat),
        None => "DLL unloaded @ 0x"@ + hex_seq_upper(base as nat),
    }
}

/// Whether `name` is the module name the table holds for `base`: the name
/// of an entry based there, or nothing when the table has none.
pub open spec fn spec_captured_name(
    modules: Seq<ModuleInfo>,
    base: u64,
    name: Option<String>,
) -> bool {
    if exists|i: int| 0 <= i < modules.len() && modules[i].base == base {
        name matches Some(n) && exists|i: int|
            0 <= i < modules.len() && (#[trigger] modules[i]).base == base && n@ == modules[i].name@
    } else {
        name is None
    }
}

/// The targeted, log, toast and snapshot emits that follow a recorded
/// event: four for a DLL load or unload, the lone snapshot otherwise. For
/// an unload, the name in the payload is whatever the module table held
/// for that base before the event removed it.
pub open spec fn spec_event_emits(
    old_s: SessionStateUI,
    event: DebugEvent,
    new_s: SessionStateUI,
    emits: Seq<UiEmit>,
) -> bool {
    exists|cap: Option<String>|
        #[trigger] spec_emits_built(new_s, event, cap, emits)
            && (event is DllUnloaded
                ==> spec_captured_name(old_s.modules@, spec_unload_base(event), cap))
}

/// The whole contract of `handle_server_event`: what the record becomes,
/// what the host must do next, and what it must publish, for every event
/// and every stop policy.
pub open spec fn spec_server_event_outcome(
    old_s: SessionStateUI,
    event: DebugEvent,
    settings: DebugSettings,
    new_s: SessionStateUI,
    d: EventDisposition,
    emits: Seq<UiEmit>,
) -> bool {
    if event is Output {
        // Logged and toasted with the prefix, recorded, never pauses.
        &&& spec_same_identity(old_s, new_s)
        &&& spec_same_plumbing(old_s, new_s)
        &&& new_s.status == old_s.status
        &&& new_s.modules == old_s.modules
        &&& new_s.threads == old_s.threads
        &&& new_s.current_event == old_s.current_event
        &&& new_s.current_context == old_s.current_context
        &&& new_s.events@ == old_s.events@.push(event)
        &&& d is AutoContinue
        &&& emits.len() == 3
        &&& (event matches DebugEvent::Output { output, .. }
            ==> (emits[0] matches UiEmit::Log(lvl, m) && lvl is Info
                    && m@ == spec_output_msg(output@))
                && (emits[1] matches UiEmit::Toast(m) && m@ == spec_output_msg(output@)))
        &&& emits[2] matches UiEmit::SessionUpdated(snap) && spec_snapshot_matches(new_s, snap)
    } else if event is ProcessExited {
        // Terminal: tables cleared, session stopped, one final snapshot.
        &&& spec_same_identity(old_s, new_s)
        &&& spec_same_plumbing(old_s, new_s)
        &&& new_s.status is Stopped
        &&& new_s.modules@.len() == 0
        &&& new_s.threads@.len() == 0
        &&& new_s.current_event == Some(event)
        &&& new_s.current_context == old_s.current_context
        &&& new_s.events@ == old_s.events@.push(event)
        &&& d is Exit
        &&& emits.len() == 1
        &&& emits[0] matches UiEmit::SessionUpdated(snap) && spec_snapshot_matches(new_s, snap)
    } else if spec_should_pause(event, settings) {
        // Pausing: nothing happens until the thread context arrives.
        &&& new_s == old_s
        &&& d matches EventDisposition::FetchContext { pid, tid }
            && pid == spec_event_pid(event) && tid == spec_event_tid(event)
        &&& emits.len() == 0
    } else {
        // Auto-continue: record and tables updated, session kept running.
        &&& spec_same_identity(old_s, new_s)
        &&& spec_same_plumbing(old_s, new_s)
        &&& new_s.status is Running
        &&& spec_tables_updated(old_s, event, new_s)
        &&& new_s.current_event == Some(event)
        &&& new_s.current_context == old_s.current_context
        &&& new_s.events@ == old_s.events@.push(event)
        &&& d is AutoContinue
        &&& spec_event_emits(old_s, event, new_s, emits)
    }
}

fn capture_module_name(modules: &Vec<ModuleInfo>, base: u64) -> (r: Option<String>)
    ensures
        spec_captured_name(modules@, base, r),
{
    let n = modules.len();
    let mut i: usize = 0;
    while i < n
        invariant
            0 <= i <= n,
            n == modules@.len(),
            forall|j: int| 0 <= j < i ==> modules@[j].base != base,
        decreases n - i,
    {
        if modules[i].base == base {
            return Some(modules[i].name.clone());
        }
        i = i + 1;
    }
    None
}

fn loaded_name(dll_name: &Option<String>) -> (r: String)
    ensures
        r@ == spec_loaded_name(*dll_name),
{
    match dll_name {
        Some(n) => n.clone(),
        None => {
            proof { reveal_strlit("<unknown>"); }
            String::from_str("<unknown>")
        },
    }
}

fn dll_loaded_msg(name: &String, base: u64, size: &Option<u64>) -> (r: String)
    ensures
        r@ == spec_dll_loaded_msg(name@, base, *size),
{
    proof {
        reveal_strlit("DLL loaded: ");
        reveal_strlit(" @ 0x");
        reveal_strlit(" (size: 0x");
        reveal_strlit(")");
    }
    let mut r = String::from_str("DLL loaded: ");
    r.append(name.as_str());
    r.append(" @ 0x");
    let base_s = hex_upper(base);
    r.append(base_s.as_str());
    match size {
        Some(sz) => {
            r.append(" (size: 0x");
            let sz_s = hex_upper(*sz);
            r.append(sz_s.as_str());
            r.append(")");
        },
        None => {},
    }
    proof { assert(r@ =~= spec_dll_loaded_msg(name@, base, *size)); }
    r
}

fn dll_unloaded_msg(name: &Option<String>, base: u64) -> (r: String)
    ensures
        r@ == spec_dll_unloaded_msg(*name, base),
{
    proof {
        reveal_strlit("DLL unloaded: ");
        reveal_strlit("DLL unloaded @ 0x");
        reveal_strlit(" @ 0x");
    }
    let mut r = match name {
        Some(n) => {
            let mut r = String::from_str("DLL unloaded: ");
            r.append(n.as_str());
            r.append(" @ 0x");
            r
        },
        None => String::from_str("DLL unloaded @ 0x"),
    };
    let base_s = hex_upper(base);
    r.append(base_s.as_str());
    proof { assert(r@ =~= spec_dll_unloaded_msg(*name, base)); }
    r
}

/// Push the targeted, log, toast and snapshot emits that follow a recorded
/// DLL load or unload, or the lone snapshot for any other event.
fn push_event_emits(
    state: &SessionStateUI,
    event: &DebugEvent,
    captured: Option<String>,
    emits: &mut Vec<UiEmit>,
)
    requires
        old(emits)@.len() == 0,
    ensures
        spec_emits_built(*state, *event, captured, final(emits)@),
{
    match event {
        DebugEvent::DllLoaded { pid, tid, dll_name, base_of_dll, size_of_dll } => {
            let name = loaded_name(dll_name);
            let msg = dll_loaded_msg(&name, *base_of_dll, size_of_dll);
            emits.push(UiEmit::DllLoaded(DllLoadedEvent {
                session_id: state.id.clone(),
                pid: *pid,
                tid: *tid,
                dll_name: name,
                base_of_dll: *base_of_dll,
                size_of_dll: *size_of_dll,
            }));
            emits.push(UiEmit::Log(LogLevel::Info, msg.clone()));
            emits.push(UiEmit::Toast(msg));
            emits.push(UiEmit::SessionUpdated(state.to_debug_session()));
        },
        DebugEvent::DllUnloaded { pid, tid, base_of_dll } => {
            let msg = dll_unloaded_msg(&captured, *base_of_dll);
            emits.push(UiEmit::DllUnloaded(DllUnloadedEvent {
                session_id: state.id.clone(),
                pid: *pid,
                tid: *tid,
                base_of_dll: *base_of_dll,
                dll_name: captured,
            }));
            emits.push(UiEmit::Log(LogLevel::Info, msg.clone()));
            emits.push(UiEmit::Toast(msg));
            emits.push(UiEmit::SessionUpdated(state.to_debug_session()));
        },
        _ => {
            emits.push(UiEmit::SessionUpdated(state.to_debug_session()));
        },
    }
}

/// What `push_event_emits` leaves in the list, given the state already
/// updated, the event, and the name captured before an unload.
pub open spec fn spec_emits_built(
    new_s: SessionStateUI,
    event: DebugEvent,
    captured: Option<String>,
    emits: Seq<UiEmit>,
) -> bool {
    match event {
        DebugEvent::DllLoaded { pid, tid, dll_name, base_of_dll, size_of_dll } => {
            &&& emits.len() == 4
            &&& emits[0] matches UiEmit::DllLoaded(p)
                && p.session_id@ == new_s.id@
                && p.pid == pid
                && p.tid == tid
                && p.dll_name@ == spec_loaded_name(dll_name)
                && p.base_of_dll == base_of_dll
                && p.size_of_dll == size_of_dll
            &&& emits[1] matches UiEmit::Log(lvl, m) && lvl is Info
                && m@ == spec_dll_loaded_msg(spec_loaded_name(dll_name), base_of_dll, size_of_dll)
            &&& emits[2] matches UiEmit::Toast(m)
                && m@ == spec_dll_loaded_msg(spec_loaded_name(dll_name), base_of_dll, size_of_dll)
            &&& emits[3] matches UiEmit::SessionUpdated(snap) && spec_snapshot_matches(new_s, snap)
        },
        DebugEvent::DllUnloaded { pid, tid, base_of_dll } => {
            &&& emits.len() == 4
            &&& emits[0] matches UiEmit::DllUnloaded(p)
                && p.session_id@ == new_s.id@
                && p.pid == pid
                && p.tid == tid
                && p.base_of_dll == base_of_dll
                && p.dll_name == captured
            &&& emits[1] matches UiEmit::Log(lvl, m) && lvl is Info
                && m@ == spec_dll_unloaded_msg(captured, base_of_dll)
            &&& emits[2] matches UiEmit::Toast(m)
                && m@ == spec_dll_unloaded_msg(captured, base_of_dll)
            &&& emits[3] matches UiEmit::SessionUpdated(snap) && spec_snapshot_matches(new_s, snap)
        },
        _ => {
            &&& emits.len() == 1
            &&& emits[0] matches UiEmit::SessionUpdated(snap) && spec_snapshot_matches(new_s, snap)
        },
    }
}

/// Handle one server event under the given stop policy: record it, apply
/// it to the tables, and tell the host whether to continue, to end the
/// loop, or to fetch a thread context and pause.
pub fn handle_server_event(
    state: &mut SessionStateUI,
    event: &DebugEvent,
    settings: &DebugSettings,
) -> (r: (EventDisposition, Vec<UiEmit>))
    ensures
        spec_server_event_outcome(*old(state), *event, *settings, *final(state), r.0, r.1@),
        old(state).tables_wf() ==> final(state).tables_wf(),
{
    let mut emits: Vec<UiEmit> = Vec::new();
    match event {
        DebugEvent::Output { output, .. } => {
            proof { reveal_strlit("OutputDebugString: "); }
            let mut msg = String::from_str("OutputDebugString: ");
            msg.append(output.as_str());
            proof {
                assert(msg@ =~= spec_output_msg(output@));
            }
            state.events.push(event.clone());
            emits.push(UiEmit::Log(LogLevel::Info, msg.clone()));
            emits.push(UiEmit::Toast(msg));
            emits.push(UiEmit::SessionUpdated(state.to_debug_session()));
            return (EventDisposition::AutoContinue, emits);
        },
        DebugEvent::ProcessExited { .. } => {
            state.current_event = Some(event.clone());
            state.events.push(event.clone());
            update_session_from_event(state, event);
            emits.push(UiEmit::SessionUpdated(state.to_debug_session()));
            return (EventDisposition::Exit, emits);
        },
        _ => {},
    }
    if should_pause(event, settings) {
        return (
            EventDisposition::FetchContext { pid: event.pid(), tid: event.tid() },
            emits,
        );
    }
    // Auto-continue: capture the unloaded module's name before the table
    // drops it, update the record, then emit.
    let captured: Option<String> = match event {
        DebugEvent::DllUnloaded { base_of_dll, .. } => {
            capture_module_name(&state.modules, *base_of_dll)
        },
        _ => None,
    };
    let ghost cap0 = captured;
    state.current_event = Some(event.clone());
    state.events.push(event.clone());
    update_session_from_event(state, event);
    state.status = SessionStatusUI::Running;
    push_event_emits(state, event, captured, &mut emits);
    proof {
        assert(spec_emits_built(*state, *event, cap0, emits@));
        assert(spec_event_emits(*old(state), *event, *state, emits@));
    }
    (EventDisposition::AutoContinue, emits)
}

/// Apply the outcome of the thread-context fetch for a pausing event: with
/// a context the session pauses on the event; without one it fails.
pub fn apply_pause(
    state: &mut SessionStateUI,
    event: &DebugEvent,
    context: Result<RawThreadContext, String>,
) -> (r: (PauseOutcome, Vec<UiEmit>))
    requires
        !(event is ProcessExited),
    ensures
        spec_pause_outcome(*old(state), *event, context, *final(state), r.0, r.1@),
        old(state).tables_wf() ==> final(state).tables_wf(),
{
    let mut emits: Vec<UiEmit> = Vec::new();
    match context {
        Err(e) => {
            proof { reveal_strlit("GetThreadContext failed: "); }
            let mut msg = String::from_str("GetThreadContext failed: ");
            msg.append(e.as_str());
            proof {
                assert(msg@ =~= "GetThreadContext failed: "@ + e@);
            }
            state.status = SessionStatusUI::Error(msg);
            emits.push(UiEmit::SessionUpdated(state.to_debug_session()));
            (PauseOutcome::ExitLoop, emits)
        },
        Ok(raw) => {
            let captured: Option<String> = match event {
                DebugEvent::DllUnloaded { base_of_dll, .. } => {
                    capture_module_name(&state.modules, *base_of_dll)
                },
                _ => None,
            };
            let ghost cap0 = captured;
            state.current_event = Some(event.clone());
            state.events.push(event.clone());
            state.status = SessionStatusUI::Paused;
            state.current_context = Some(convert_raw_context_to_serializable(&raw));
            update_session_from_event(state, event);
            push_event_emits(state, event, captured, &mut emits);
            proof {
                assert(spec_emits_built(*state, *event, cap0, emits@));
                assert(spec_event_emits(*old(state), *event, *state, emits@));
            }
            (PauseOutcome::AwaitCommands, emits)
        },
    }
}

/// The whole contract of `apply_pause`: a failed fetch turns the session
/// into an error with one final snapshot; a fetched context records the
/// event, stores the serialized context, pauses, and emits as the event
/// demands.
pub open spec fn spec_pause_outcome(
    old_s: SessionStateUI,
    event: DebugEvent,
    context: Result<RawThreadContext, String>,
    new_s: SessionStateUI,
    o: PauseOutcome,
    emits: Seq<UiEmit>,
) -> bool {
    match context {
        Err(e) => {
            &&& spec_same_identity(old_s, new_s)
            &&& spec_same_plumbing(old_s, new_s)
            &&& new_s.status matches SessionStatusUI::Error(m)
                && m@ == "GetThreadContext failed: "@ + e@
            &&& new_s.modules == old_s.modules
            &&& new_s.threads == old_s.threads
            &&& new_s.events == old_s.events
            &&& new_s.current_event == old_s.current_event
            &&& new_s.current_context == old_s.current_context
            &&& o is ExitLoop
            &&& emits.len() == 1
            &&& emits[0] matches UiEmit::SessionUpdated(snap) && spec_snapshot_matches(new_s, snap)
        },
        Ok(raw) => {
            &&& spec_same_identity(old_s, new_s)
            &&& spec_same_plumbing(old_s, new_s)
            &&& new_s.status is Paused
            &&& spec_tables_updated(old_s, event, new_s)
            &&& new_s.current_event == Some(event)
            &&& new_s.current_context matches Some(c) && spec_context_matches(raw, c)
            &&& new_s.events@ == old_s.events@.push(event)
            &&& o is AwaitCommands
            &&& spec_event_emits(old_s, event, new_s, emits)
        },
    }
}

/// The base address an unload removes; zero for any other event (used only
/// to phrase the captured-name clause uniformly).
pub open spec fn spec_unload_base(event: DebugEvent) -> u64 {
    match event {
        DebugEvent::DllUnloaded { base_of_dll, .. } => base_of_dll,
        _ => 0,
    }
}

/// `b` is `a` with only the status replaced.
pub open spec fn spec_status_set(a: SessionStateUI, b: SessionStateUI, status: SessionStatusUI) -> bool {
    b == SessionStateUI { status, ..a }
}

/// The whole contract of `handle_ui_command`: a continuation resumes the
/// debuggee, a step or query is handed back for the host to perform, and
/// stop ends the loop. Only `Go` and `Stop` touch the record.
pub open spec fn spec_command_outcome(
    old_s: SessionStateUI,
    cmd: UICommand,
    event: DebugEvent,
    new_s: SessionStateUI,
    d: CommandDisposition,
    emits: Seq<UiEmit>,
) -> bool {
    match cmd {
        UICommand::Go => {
            &&& spec_status_set(old_s, new_s, SessionStatusUI::Running)
            &&& d is Resume
            &&& emits.len() == 1
            &&& emits[0] matches UiEmit::SessionUpdated(snap) && spec_snapshot_matches(new_s, snap)
        },
        UICommand::Stop => {
            &&& spec_status_set(old_s, new_s, SessionStatusUI::Stopped)
            &&& d is ExitLoop
            &&& emits.len() == 0
        },
        UICommand::StepIn => {
            &&& new_s == old_s
            &&& d matches CommandDisposition::IssueStep { kind, pid, tid }
                && kind is Into && pid == spec_event_pid(event) && tid == spec_event_tid(event)
            &&& emits.len() == 0
        },
        UICommand::StepOver => {
            &&& new_s == old_s
            &&& d matches CommandDisposition::IssueStep { kind, pid, tid }
                && kind is Over && pid == spec_event_pid(event) && tid == spec_event_tid(event)
            &&& emits.len() == 0
        },
        UICommand::StepOut => {
            &&& new_s == old_s
            &&& d matches CommandDisposition::IssueStep { kind, pid, tid }
                && kind is Out && pid == spec_event_pid(event) && tid == spec_event_tid(event)
            &&& emits.len() == 0
        },
        UICommand::Disassembly { arch, address, count } => {
            &&& new_s == old_s
            &&& d matches CommandDisposition::IssueQuery(q)
                && q matches AuxQuery::Disassembly { pid, arch: a, address: ad, count: c }
                && pid == spec_event_pid(event) && a == arch && ad == address && c == count
            &&& emits.len() == 0
        },
        UICommand::GetCallStack => {
            &&& new_s == old_s
            &&& d matches CommandDisposition::IssueQuery(q)
                && q matches AuxQuery::CallStack { pid, tid }
                && pid == spec_event_pid(event) && tid == spec_event_tid(event)
            &&& emits.len() == 0
        },
        UICommand::SearchSymbols { pattern, limit } => {
            &&& new_s == old_s
            &&& d matches CommandDisposition::IssueQuery(q)
                && q matches AuxQuery::SearchSymbols { pid, pattern: p, limit: l }
                && pid == spec_event_pid(event) && p@ == pattern@ && l == limit
            &&& emits.len() == 0
        },
        UICommand::ReadMemory { address, size } => {
            &&& new_s == old_s
            &&& d matches CommandDisposition::IssueQuery(q)
                && q matches AuxQuery::ReadMemory { pid, address: a, size: s }
                && pid == spec_event_pid(event) && a == address && s == size
            &&& emits.len() == 0
        },
        UICommand::WriteMemory { address, data } => {
            &&& new_s == old_s
            &&& d matches CommandDisposition::IssueQuery(q)
                && q matches AuxQuery::WriteMemory { pid, address: a, data: b }
                && pid == spec_event_pid(event) && a == address && b@ == data@
            &&& emits.len() == 0
        },
        UICommand::GetMemoryRegions => {
            &&& new_s == old_s
            &&& d matches CommandDisposition::IssueQuery(q)
                && q matches AuxQuery::MemoryRegions { pid }
                && pid == spec_event_pid(event)
            &&& emits.len() == 0
        },
    }
}

fn clone_bytes(v: &Vec<u8>) -> (r: Vec<u8>)
    ensures
        r@ == v@,
{
    let n = v.len();
    let mut out: Vec<u8> = Vec::new();
    let mut i: usize = 0;
    while i < n
        invariant
            0 <= i <= n,
            n == v@.len(),
            out@ == v@.subrange(0, i as int),
        decreases n - i,
    {
        out.push(v[i]);
        proof {
            assert(out@ =~= v@.subrange(0, i + 1));
        }
        i = i + 1;
    }
    proof {
        assert(v@.subrange(0, n as int) =~= v@);
    }
    out
}

/// Handle one user command while the session is paused on `event`: resume,
/// hand a step or a query back to the host, or end the loop on stop.
pub fn handle_ui_command(
    state: &mut SessionStateUI,
    cmd: &UICommand,
    event: &DebugEvent,
) -> (r: (CommandDisposition, Vec<UiEmit>))
    ensures
        spec_command_outcome(*old(state), *cmd, *event, *final(state), r.0, r.1@),
{
    let mut emits: Vec<UiEmit> = Vec::new();
    match cmd {
        UICommand::Go => {
            state.status = SessionStatusUI::Running;
            emits.push(UiEmit::SessionUpdated(state.to_debug_session()));
            (CommandDisposition::Resume, emits)
        },
        UICommand::Stop => {
            state.status = SessionStatusUI::Stopped;
            (CommandDisposition::ExitLoop, emits)
        },
        UICommand::StepIn => {
            (
                CommandDisposition::IssueStep {
                    kind: StepKind::Into,
                    pid: event.pid(),
                    tid: event.tid(),
                },
                emits,
            )
        },
        UICommand::StepOver => {
            (
                CommandDisposition::IssueStep {
                    kind: StepKind::Over,
                    pid: event.pid(),
                    tid: event.tid(),
                },
                emits,
            )
        },
        UICommand::StepOut => {
            (
                CommandDisposition::IssueStep {
                    kind: StepKind::Out,
                    pid: event.pid(),
                    tid: event.tid(),
                },
                emits,
            )
        },
        UICommand::Disassembly { arch, address, count } => {
            (
                CommandDisposition::IssueQuery(AuxQuery::Disassembly {
                    pid: event.pid(),
                    arch: *arch,
                    address: *address,
                    count: *count,
                }),
                emits,
            )
        },
        UICommand::GetCallStack => {
            (
                CommandDisposition::IssueQuery(AuxQuery::CallStack {
                    pid: event.pid(),
                    tid: event.tid(),
                }),
                emits,
            )
        },
        UICommand::SearchSymbols { pattern, limit } => {
            (
                CommandDisposition::IssueQuery(AuxQuery::SearchSymbols {
                    pid: event.pid(),
                    pattern: pattern.clone(),
                    limit: *limit,
                }),
                emits,
            )
        },
        UICommand::ReadMemory { address, size } => {
            (
                CommandDisposition::IssueQuery(AuxQuery::ReadMemory {
                    pid: event.pid(),
                    address: *address,
                    size: *size,
                }),
                emits,
            )
        },
        UICommand::WriteMemory { address, data } => {
            (
                CommandDisposition::IssueQuery(AuxQuery::WriteMemory {
                    pid: event.pid(),
                    address: *address,
                    data: clone_bytes(data),
                }),
                emits,
            )
        },
        UICommand::GetMemoryRegions => {
            (
                CommandDisposition::IssueQuery(AuxQuery::MemoryRegions { pid: event.pid() }),
                emits,
            )
        },
    }
}

/// The log line for a failed step-out, which is surfaced without ending
/// the session.
pub open spec fn spec_step_out_failed_msg(e: Seq<char>) -> Seq<char> {
    "Step out failed: "@ + e
}

/// The error status text for a step that failed fatally.
pub open spec fn spec_step_error_msg(kind: StepKind, e: Seq<char>) -> Seq<char> {
    match kind {
        StepKind::Into => "Debug loop failed: Failed to start step-in: "@ + e,
        StepKind::Over => "Debug loop failed: Failed to start step-over: "@ + e,
        StepKind::Out => "Debug loop failed: Failed to start step-out: "@ + e,
    }
}

/// The whole contract of `apply_step_result`: an accepted step resumes the
/// session; a failed step-out is surfaced as an error log and toast while
/// the session stays paused; any other failed step ends the loop with the
/// session in error.
pub open spec fn spec_step_outcome(
    old_s: SessionStateUI,
    kind: StepKind,
    outcome: Result<(), String>,
    new_s: SessionStateUI,
    o: StepOutcome,
    emits: Seq<UiEmit>,
) -> bool {
    match outcome {
        Ok(_) => {
            &&& spec_status_set(old_s, new_s, SessionStatusUI::Running)
            &&& o is Resume
            &&& emits.len() == 1
            &&& emits[0] matches UiEmit::SessionUpdated(snap) && spec_snapshot_matches(new_s, snap)
        },
        Err(e) => {
            if kind is Out {
                &&& new_s == old_s
                &&& o is StayPaused
                &&& emits.len() == 2
                &&& emits[0] matches UiEmit::Log(lvl, m) && lvl is Error
                    && m@ == spec_step_out_failed_msg(e@)
                &&& emits[1] matches UiEmit::Toast(m) && m@ == spec_step_out_failed_msg(e@)
            } else {
                &&& new_s.status matches SessionStatusUI::Error(m)
                    && m@ == spec_step_error_msg(kind, e@)
                &&& spec_status_set(old_s, new_s, new_s.status)
                &&& o is ExitLoop
                &&& emits.len() == 0
            }
        },
    }
}

/// Apply the server's answer to a step request.
pub fn apply_step_result(
    state: &mut SessionStateUI,
    kind: StepKind,
    outcome: Result<(), String>,
) -> (r: (StepOutcome, Vec<UiEmit>))
    ensures
        spec_step_outcome(*old(state), kind, outcome, *final(state), r.0, r.1@),
{
    let mut emits: Vec<UiEmit> = Vec::new();
    match outcome {
        Ok(_) => {
            state.status = SessionStatusUI::Running;
            emits.push(UiEmit::SessionUpdated(state.to_debug_session()));
            (StepOutcome::Resume, emits)
        },
        Err(e) => {
            match kind {
                StepKind::Out => {
                    proof { reveal_strlit("Step out failed: "); }
                    let mut msg = String::from_str("Step out failed: ");
                    msg.append(e.as_str());
                    proof { assert(msg@ =~= spec_step_out_failed_msg(e@)); }
                    emits.push(UiEmit::Log(LogLevel::Error, msg.clone()));
                    emits.push(UiEmit::Toast(msg));
                    (StepOutcome::StayPaused, emits)
                },
                StepKind::Into => {
                    proof { reveal_strlit("Debug loop failed: Failed to start step-in: "); }
                    let mut msg = String::from_str("Debug loop failed: Failed to start step-in: ");
                    msg.append(e.as_str());
                    proof { assert(msg@ =~= spec_step_error_msg(kind, e@)); }
                    state.status = SessionStatusUI::Error(msg);
                    (StepOutcome::ExitLoop, emits)
                },
                StepKind::Over => {
                    proof { reveal_strlit("Debug loop failed: Failed to start step-over: "); }
                    let mut msg = String::from_str(
                        "Debug loop failed: Failed to start step-over: ",
                    );
                    msg.append(e.as_str());
                    proof { assert(msg@ =~= spec_step_error_msg(kind, e@)); }
                    state.status = SessionStatusUI::Error(msg);
                    (StepOutcome::ExitLoop, emits)
                },
            }
        },
    }
}

/// The command queue's sender side is gone: the loop ends. A session that
/// already failed keeps its error; any other comes to rest stopped.
pub fn handle_receiver_disconnected(state: &mut SessionStateUI)
    ensures
        old(state).status is Error ==> *final(state) == *old(state),
        !(old(state).status is Error)
            ==> spec_status_set(*old(state), *final(state), SessionStatusUI::Stopped),
{
    match &state.status {
        SessionStatusUI::Error(_) => {},
        _ => {
            state.status = SessionStatusUI::Stopped;
        },
    }
}

/// The whole contract of `begin_run`: a session whose receiver was already
/// taken cannot start again; otherwise the run takes the receiver, marks
/// the session running, and hands the host the connection parameters.
pub open spec fn spec_begin_run_outcome(
    old_s: SessionStateUI,
    new_s: SessionStateUI,
    r: Result<(String, String), crate::error::Error>,
) -> bool {
    if old_s.ui_receiver_present {
        &&& r matches Ok(p)
            && p.0@ == old_s.server_url@
            && p.1@ == old_s.launch_command@
        &&& new_s == SessionStateUI {
            status: SessionStatusUI::Running,
            ui_receiver_present: false,
            ..old_s
        }
    } else {
        &&& r matches Err(e) && e matches crate::error::Error::InternalCommunication(m)
            && m@ == "UI receiver not available (session already running?)"@
        &&& new_s == old_s
    }
}

/// Begin a run: take the queue's receiver, mark the session running, and
/// return the server url and launch command for the host to connect with.
pub fn begin_run(state: &mut SessionStateUI) -> (r: Result<(String, String), crate::error::Error>)
    ensures
        spec_begin_run_outcome(*old(state), *final(state), r),
{
    if !state.ui_receiver_present {
        proof { reveal_strlit("UI receiver not available (session already running?)"); }
        return Err(crate::error::Error::InternalCommunication(
            String::from_str("UI receiver not available (session already running?)"),
        ));
    }
    state.ui_receiver_present = false;
    state.status = SessionStatusUI::Running;
    Ok((state.server_url.clone(), state.launch_command.clone()))
}

/// The receiver is handed out at most once per run: after a start that
/// took it, a second start fails until a reset installs a fresh queue.
pub proof fn lemma_receiver_taken_once(
    s0: SessionStateUI,
    s1: SessionStateUI,
    r1: Result<(String, String), crate::error::Error>,
    s2: SessionStateUI,
    r2: Result<(String, String), crate::error::Error>,
)
    requires
        spec_begin_run_outcome(s0, s1, r1),
        r1 is Ok,
        spec_begin_run_outcome(s1, s2, r2),
    ensures
        r2 is Err,
        s2 == s1,
{
}

/// Close out a finished run: a failed session keeps its error status; any
/// other is reset for a future start and comes to rest stopped. The
/// current event is cleared either way and one final snapshot goes out.
pub fn finish_session(state: &mut SessionStateUI) -> (emits: Vec<UiEmit>)
    ensures
        spec_same_identity(*old(state), *final(state)),
        old(state).status is Error ==> {
            &&& *final(state) == SessionStateUI { current_event: None, ..*old(state) }
        },
        !(old(state).status is Error) ==> {
            &&& final(state).status is Stopped
            &&& final(state).events@.len() == 0
            &&& final(state).modules@.len() == 0
            &&& final(state).threads@.len() == 0
            &&& final(state).current_event is None
            &&& final(state).current_context is None
            &&& final(state).debug_result is None
            &&& final(state).ui_sender_present
            &&& final(state).ui_receiver_present
        },
        emits@.len() == 1,
        emits@[0] matches UiEmit::SessionUpdated(snap) && spec_snapshot_matches(*final(state), snap),
    {
    let failed = match &state.status {
        SessionStatusUI::Error(_) => true,
        _ => false,
    };
    if !failed {
        state.reset();
        state.status = SessionStatusUI::Stopped;
    }
    state.current_event = None;
    let mut emits: Vec<UiEmit> = Vec::new();
    emits.push(UiEmit::SessionUpdated(state.to_debug_session()));
    emits
}

/// The log line recorded when a run ends in failure.
pub open spec fn spec_run_failed_msg(id: Seq<char>, e: Seq<char>) -> Seq<char> {
    "Debug session "@ + id + " failed: "@ + e
}

/// Record the overall outcome of a run on the record: a run that returned
/// normally leaves the session stopped with a success result — unless the
/// loop already recorded an error, which is kept and captured as the
/// result; a failed run leaves the session in error with the failure
/// recorded and logged. One final snapshot goes out either way.
pub fn record_run_outcome(
    state: &mut SessionStateUI,
    outcome: Result<(), String>,
) -> (emits: Vec<UiEmit>)
    ensures
        spec_same_identity(*old(state), *final(state)),
        match outcome {
            Ok(_) => {
                // An error the loop recorded outlives the run's own normal
                // return; the result captures its message.
                &&& (old(state).status matches SessionStatusUI::Error(m) ==> {
                    &&& final(state).status == old(state).status
                    &&& (final(state).debug_result matches Some(r) && r matches Err(m2)
                        && m2@ == m@)
                    &&& *final(state) == SessionStateUI {
                        debug_result: final(state).debug_result,
                        ..*old(state)
                    }
                })
                &&& (!(old(state).status is Error) ==> *final(state) == SessionStateUI {
                    status: SessionStatusUI::Stopped,
                    debug_result: Some(Ok(())),
                    ..*old(state)
                })
                &&& emits@.len() == 1
                &&& emits@[0] matches UiEmit::SessionUpdated(snap)
                    && spec_snapshot_matches(*final(state), snap)
            },
            Err(e) => {
                &&& final(state).status matches SessionStatusUI::Error(m) && m@ == e@
                &&& final(state).debug_result matches Some(r) && r matches Err(m2) && m2@ == e@
                &&& *final(state) == SessionStateUI {
                    status: final(state).status,
                    debug_result: final(state).debug_result,
                    ..*old(state)
                }
                &&& emits@.len() == 2
                &&& emits@[0] matches UiEmit::Log(lvl, m) && lvl is Error
                    && m@ == spec_run_failed_msg(old(state).id@, e@)
                &&& emits@[1] matches UiEmit::SessionUpdated(snap)
                    && spec_snapshot_matches(*final(state), snap)
            },
        },
{
    let mut emits: Vec<UiEmit> = Vec::new();
    match outcome {
        Ok(_) => {
            let failure: Option<String> = match &state.status {
                SessionStatusUI::Error(m) => Some(m.clone()),
                _ => None,
            };
            match failure {
                Some(m) => {
                    state.debug_result = Some(Err(m));
                },
                None => {
                    state.status = SessionStatusUI::Stopped;
                    state.debug_result = Some(Ok(()));
                },
            }
            emits.push(UiEmit::SessionUpdated(state.to_debug_session()));
        },
        Err(e) => {
            proof {
                reveal_strlit("Debug session ");
                reveal_strlit(" failed: ");
            }
            let mut msg = String::from_str("Debug session ");
            msg.append(state.id.as_str());
            msg.append(" failed: ");
            msg.append(e.as_str());
            proof { assert(msg@ =~= spec_run_failed_msg(state.id@, e@)); }
            emits.push(UiEmit::Log(LogLevel::Error, msg));
            state.status = SessionStatusUI::Error(e.clone());
            state.debug_result = Some(Err(e));
            emits.push(UiEmit::SessionUpdated(state.to_debug_session()));
        },
    }
    emits
}

/// Snapshots go out in event order. When two server events are handled one
/// after the other and each is recorded (it auto-continues or ends the
/// run), the first one's emit list closes with the snapshot of the record
/// holding the log up to the first event, and the second one's with the
/// snapshot of the record holding the log up to the second; since the host
/// publishes each list in order and the first list wholly before the
/// second, the front-end observes the snapshots in event order.
pub proof fn lemma_snapshot_ordering(
    s0: SessionStateUI,
    e1: DebugEvent,
    g1: DebugSettings,
    s1: SessionStateUI,
    d1: EventDisposition,
    em1: Seq<UiEmit>,
    e2: DebugEvent,
    g2: DebugSettings,
    s2: SessionStateUI,
    d2: EventDisposition,
    em2: Seq<UiEmit>,
)
    requires
        spec_server_event_outcome(s0, e1, g1, s1, d1, em1),
        !(d1 is FetchContext),
        spec_server_event_outcome(s1, e2, g2, s2, d2, em2),
        !(d2 is FetchContext),
    ensures
        s1.events@ == s0.events@.push(e1),
        s2.events@ == s0.events@.push(e1).push(e2),
        em1.len() > 0,
        em2.len() > 0,
        em1.last() matches UiEmit::SessionUpdated(snap) && spec_snapshot_matches(s1, snap),
        em2.last() matches UiEmit::SessionUpdated(snap) && spec_snapshot_matches(s2, snap),
{
    lemma_recorded_event_snapshot(s0, e1, g1, s1, d1, em1);
    lemma_recorded_event_snapshot(s1, e2, g2, s2, d2, em2);
}

/// A pausing event that obtained its thread context likewise appends
/// exactly that event to the log and closes its emits with the snapshot
/// of the now-paused record, so the order of published snapshots follows
/// event order across paused and auto-continued events alike.
pub proof fn lemma_paused_event_snapshot(
    s0: SessionStateUI,
    e: DebugEvent,
    raw: RawThreadContext,
    s1: SessionStateUI,
    o: PauseOutcome,
    em: Seq<UiEmit>,
)
    requires
        spec_pause_outcome(s0, e, Ok(raw), s1, o, em),
    ensures
        s1.events@ == s0.events@.push(e),
        em.len() > 0,
        em.last() matches UiEmit::SessionUpdated(snap) && spec_snapshot_matches(s1, snap),
{
    let cap = choose|cap: Option<String>|
        #[trigger] spec_emits_built(s1, e, cap, em)
            && (e is DllUnloaded
                ==> spec_captured_name(s0.modules@, spec_unload_base(e), cap));
    match e {
        DebugEvent::DllLoaded { .. } => {
            assert(em.last() == em[3]);
        },
        DebugEvent::DllUnloaded { .. } => {
            assert(em.last() == em[3]);
        },
        _ => {
            assert(em.last() == em[0]);
        },
    }
}

/// A handled event that is recorded appends exactly that event to the log
/// and closes its emit list with the snapshot of the updated record.
proof fn lemma_recorded_event_snapshot(
    s0: SessionStateUI,
    e: DebugEvent,
    g: DebugSettings,
    s1: SessionStateUI,
    d: EventDisposition,
    em: Seq<UiEmit>,
)
    requires
        spec_server_event_outcome(s0, e, g, s1, d, em),
        !(d is FetchContext),
    ensures
        s1.events@ == s0.events@.push(e),
        em.len() > 0,
        em.last() matches UiEmit::SessionUpdated(snap) && spec_snapshot_matches(s1, snap),
{
    if e is Output {
    } else if e is ProcessExited {
    } else {
        assert(!spec_should_pause(e, g));
        let cap = choose|cap: Option<String>|
            #[trigger] spec_emits_built(s1, e, cap, em)
                && (e is DllUnloaded
                    ==> spec_captured_name(s0.modules@, spec_unload_base(e), cap));
        match e {
            DebugEvent::DllLoaded { .. } => {
                assert(em.last() == em[3]);
            },
            DebugEvent::DllUnloaded { .. } => {
                assert(em.last() == em[3]);
            },
            _ => {
                assert(em.last() == em[0]);
            },
        }
    }
}

} // verus!
