//! The per-session record: identity, status, the event log, the module and
//! thread tables the event stream drives, the current event and register
//! context while paused, and the modeled command-queue endpoints. The store
//! owns one record per session; the control loop mutates it between events.

use vstd::prelude::*;
use crate::event::{DebugEvent, DebugEventInfo, ModuleInfo, ThreadInfo, debug_event_to_info,
    spec_event_address};
use crate::context::{SerializableThreadContext, spec_instruction_pointer_text};
use crate::fmtnum::{hex_seq_upper, hex_upper, spec_parse_hex, parse_hex_u64};
use crate::clock::now_timestamp;

verus! {

/// The lifecycle state of a session.
#[derive(Debug, PartialEq, Eq)]
pub enum SessionStatusUI {
    Created,
    Running,
    Paused,
    Stopped,
    Error(String),
}

impl Clone for SessionStatusUI {
    fn clone(&self) -> (res: Self)
        ensures
            res == *self,
    {
        match self {
            SessionStatusUI::Created => SessionStatusUI::Created,
            SessionStatusUI::Running => SessionStatusUI::Running,
            SessionStatusUI::Paused => SessionStatusUI::Paused,
            SessionStatusUI::Stopped => SessionStatusUI::Stopped,
            SessionStatusUI::Error(m) => SessionStatusUI::Error(m.clone()),
        }
    }
}

/// Whether a session in this status may be edited or restarted: only a
/// session that has come to rest, normally or with an error.
pub open spec fn spec_is_at_rest(s: SessionStatusUI) -> bool {
    s is Stopped || s is Error
}

/// The serializable snapshot of one session handed to the front-end.
#[derive(Debug)]
pub struct DebugSessionUI {
    pub id: String,
    pub name: String,
    pub server_url: String,
    pub launch_command: String,
    pub status: SessionStatusUI,
    pub current_event: Option<DebugEventInfo>,
    pub created_at: String,
}

impl Clone for DebugSessionUI {
    fn clone(&self) -> (res: Self)
        ensures
            res == *self,
    {
        DebugSessionUI {
            id: self.id.clone(),
            name: self.name.clone(),
            server_url: self.server_url.clone(),
            launch_command: self.launch_command.clone(),
            status: self.status.clone(),
            current_event: match &self.current_event {
                Some(e) => Some(e.clone()),
                None => None,
            },
            created_at: self.created_at.clone(),
        }
    }
}

/// The authoritative state of one session.
///
/// The command queue itself lives with the host that runs the control loop;
/// the record models which of its two endpoints are still available: the
/// sender is taken by a stop request, the receiver by a start.
pub struct SessionStateUI {
    pub id: String,
    pub name: String,
    pub server_url: String,
    pub launch_command: String,
    pub created_at: String,
    pub status: SessionStatusUI,
    pub events: Vec<DebugEvent>,
    pub modules: Vec<ModuleInfo>,
    pub threads: Vec<ThreadInfo>,
    pub current_event: Option<DebugEvent>,
    pub current_context: Option<SerializableThreadContext>,
    pub ui_sender_present: bool,
    pub ui_receiver_present: bool,
    pub debug_result: Option<Result<(), String>>,
    pub is_disassembly_window_open: bool,
    pub is_registers_window_open: bool,
    pub is_callstack_window_open: bool,
}

impl SessionStateUI {
    /// The module table never holds two entries with one base address, and
    /// the thread table never holds two entries with one thread id.
    pub open spec fn tables_wf(self) -> bool {
        &&& forall|i: int, j: int|
            0 <= i < j < self.modules@.len() ==> self.modules@[i].base != self.modules@[j].base
        &&& forall|i: int, j: int|
            0 <= i < j < self.threads@.len() ==> self.threads@[i].tid != self.threads@[j].tid
    }

    /// Whether the module table has an entry based at `base`.
    pub open spec fn spec_has_module(self, base: u64) -> bool {
        exists|i: int| 0 <= i < self.modules@.len() && self.modules@[i].base == base
    }

    /// Whether the thread table has an entry for `tid`.
    pub open spec fn spec_has_thread(self, tid: u32) -> bool {
        exists|i: int| 0 <= i < self.threads@.len() && self.threads@[i].tid == tid
    }

    /// A fresh record: identity as given, a timestamp from the wall clock,
    /// status `Created`, empty tables and log, both queue endpoints present.
    pub fn new(id: String, name: String, server_url: String, launch_command: String) -> (r: Self)
        ensures
            r.id == id,
            r.name == name,
            r.server_url == server_url,
            r.launch_command == launch_command,
            r.status is Created,
            r.events@.len() == 0,
            r.modules@.len() == 0,
            r.threads@.len() == 0,
            r.current_event is None,
            r.current_context is None,
            r.ui_sender_present,
            r.ui_receiver_present,
            r.debug_result is None,
            !r.is_disassembly_window_open,
            !r.is_registers_window_open,
            !r.is_callstack_window_open,
            r.tables_wf(),
    {
        SessionStateUI {
            id,
            name,
            server_url,
            launch_command,
            created_at: now_timestamp(),
            status: SessionStatusUI::Created,
            events: Vec::new(),
            modules: Vec::new(),
            threads: Vec::new(),
            current_event: None,
            current_context: None,
            ui_sender_present: true,
            ui_receiver_present: true,
            debug_result: None,
            is_disassembly_window_open: false,
            is_registers_window_open: false,
            is_callstack_window_open: false,
        }
    }

    /// Make the record ready for a new run: status back to `Created`, the
    /// transient state cleared, and a fresh command queue installed.
    /// Identity, timestamps and the window flags are kept.
    pub fn reset(&mut self)
        ensures
            final(self).id == old(self).id,
            final(self).name == old(self).name,
            final(self).server_url == old(self).server_url,
            final(self).launch_command == old(self).launch_command,
            final(self).created_at == old(self).created_at,
            final(self).status is Created,
            final(self).events@.len() == 0,
            final(self).modules@.len() == 0,
            final(self).threads@.len() == 0,
            final(self).current_event is None,
            final(self).current_context is None,
            final(self).ui_sender_present,
            final(self).ui_receiver_present,
            final(self).debug_result is None,
            final(self).is_disassembly_window_open == old(self).is_disassembly_window_open,
            final(self).is_registers_window_open == old(self).is_registers_window_open,
            final(self).is_callstack_window_open == old(self).is_callstack_window_open,
            final(self).tables_wf(),
    {
        self.status = SessionStatusUI::Created;
        self.events.clear();
        self.modules.clear();
        self.threads.clear();
        self.current_event = None;
        self.current_context = None;
        self.debug_result = None;
        self.ui_sender_present = true;
        self.ui_receiver_present = true;
    }

    /// The serializable snapshot of this record. The current event, if any,
    /// is translated to its UI record, carries the current register context,
    /// and has its address defaulted from the context's instruction pointer
    /// when the event itself carries none.
    pub fn to_debug_session(&self) -> (r: DebugSessionUI)
        ensures
            spec_snapshot_matches(*self, r),
    {
        let current_event = match &self.current_event {
            None => None,
            Some(event) => {
                let mut info = debug_event_to_info(event);
                info.context = match &self.current_context {
                    Some(c) => Some(c.clone()),
                    None => None,
                };
                if info.address.is_none() {
                    match &self.current_context {
                        Some(SerializableThreadContext::X64(ctx)) => {
                            info.address = parse_hex_u64(ctx.rip.as_str());
                        },
                        Some(SerializableThreadContext::Arm64(ctx)) => {
                            info.address = parse_hex_u64(ctx.pc.as_str());
                        },
                        None => {},
                    }
                }
                Some(info)
            },
        };
        DebugSessionUI {
            id: self.id.clone(),
            name: self.name.clone(),
            server_url: self.server_url.clone(),
            launch_command: self.launch_command.clone(),
            status: self.status.clone(),
            current_event,
            created_at: self.created_at.clone(),
        }
    }
}

/// The address a snapshot shows for an event: the event's own address when
/// it carries one, else the decoded instruction pointer of the context when
/// one is present and decodes, else nothing.
pub open spec fn spec_snapshot_address(
    e: DebugEvent,
    ctx: Option<SerializableThreadContext>,
) -> Option<u64> {
    match spec_event_address(e) {
        Some(a) => Some(a),
        None => match ctx {
            Some(c) => spec_parse_hex(spec_instruction_pointer_text(c)),
            None => None,
        },
    }
}

/// Whether `r` is the snapshot of record `s`.
pub open spec fn spec_snapshot_matches(s: SessionStateUI, r: DebugSessionUI) -> bool {
    &&& r.id == s.id
    &&& r.name == s.name
    &&& r.server_url == s.server_url
    &&& r.launch_command == s.launch_command
    &&& r.status == s.status
    &&& r.created_at == s.created_at
    &&& match s.current_event {
        None => r.current_event is None,
        Some(e) => match r.current_event {
            None => false,
            Some(info) => {
                &&& info.event_type@ == crate::event::spec_event_type(e)
                &&& info.process_id == crate::event::spec_event_pid(e)
                &&& info.thread_id == crate::event::spec_event_tid(e)
                &&& info.details@ == crate::event::spec_event_details(e)
                &&& info.can_continue == !(e is ProcessExited)
                &&& info.address == spec_snapshot_address(e, s.current_context)
                &&& info.context == s.current_context
            },
        },
    }
}

/// The module name recorded for a DLL load: the reported name, or
/// `Unknown_0x<base>` synthesized from the base address.
pub open spec fn spec_dll_module_name(dll_name: Option<String>, base: u64) -> Seq<char> {
    match dll_name {
        Some(n) => n@,
        None => "Unknown_0x"@ + hex_seq_upper(base as nat),
    }
}

/// The module name recorded for process creation: the reported image name,
/// or `main.exe`.
pub open spec fn spec_image_module_name(image: Option<String>) -> Seq<char> {
    match image {
        Some(n) => n@,
        None => "main.exe"@,
    }
}

/// The module table with every entry based at `base` removed, order kept.
pub open spec fn spec_modules_without(s: Seq<ModuleInfo>, base: u64) -> Seq<ModuleInfo>
    decreases s.len(),
{
    if s.len() == 0 {
        Seq::<ModuleInfo>::empty()
    } else {
        let prefix = spec_modules_without(s.drop_last(), base);
        if s.last().base != base {
            prefix.push(s.last())
        } else {
            prefix
        }
    }
}

/// The thread table with every entry for `tid` removed, order kept.
pub open spec fn spec_threads_without(s: Seq<ThreadInfo>, tid: u32) -> Seq<ThreadInfo>
    decreases s.len(),
{
    if s.len() == 0 {
        Seq::<ThreadInfo>::empty()
    } else {
        let prefix = spec_threads_without(s.drop_last(), tid);
        if s.last().tid != tid {
            prefix.push(s.last())
        } else {
            prefix
        }
    }
}

/// How one event changes the module and thread tables alone: process
/// creation seeds the main module and initial thread, loads and thread
/// creation insert if absent, their counterparts remove, process exit
/// clears both tables.
pub open spec fn spec_tables_updated(
    old_s: SessionStateUI,
    event: DebugEvent,
    new_s: SessionStateUI,
) -> bool {
    match event {
        DebugEvent::DllLoaded { dll_name, base_of_dll, size_of_dll, .. } => {
            &&& new_s.threads == old_s.threads
            &&& if old_s.spec_has_module(base_of_dll) {
                new_s.modules == old_s.modules
            } else {
                &&& new_s.modules@.len() == old_s.modules@.len() + 1
                &&& new_s.modules@.subrange(0, old_s.modules@.len() as int) == old_s.modules@
                &&& new_s.modules@.last().name@ == spec_dll_module_name(dll_name, base_of_dll)
                &&& new_s.modules@.last().base == base_of_dll
                &&& new_s.modules@.last().size == size_of_dll
            }
        },
        DebugEvent::ThreadCreated { tid, start_address, .. } => {
            &&& new_s.modules == old_s.modules
            &&& if old_s.spec_has_thread(tid) {
                new_s.threads == old_s.threads
            } else {
                new_s.threads@ == old_s.threads@.push(
                    ThreadInfo { tid, start_address },
                )
            }
        },
        DebugEvent::ProcessCreated { tid, image_file_name, base_of_image, size_of_image, .. } => {
            &&& if old_s.spec_has_module(base_of_image) {
                new_s.modules == old_s.modules
            } else {
                &&& new_s.modules@.len() == old_s.modules@.len() + 1
                &&& new_s.modules@.subrange(0, old_s.modules@.len() as int) == old_s.modules@
                &&& new_s.modules@.last().name@ == spec_image_module_name(image_file_name)
                &&& new_s.modules@.last().base == base_of_image
                &&& new_s.modules@.last().size == size_of_image
            }
            &&& if old_s.spec_has_thread(tid) {
                new_s.threads == old_s.threads
            } else {
                new_s.threads@ == old_s.threads@.push(
                    ThreadInfo { tid, start_address: base_of_image },
                )
            }
        },
        DebugEvent::ThreadExited { tid, .. } => {
            &&& new_s.modules == old_s.modules
            &&& new_s.threads@ == spec_threads_without(old_s.threads@, tid)
        },
        DebugEvent::DllUnloaded { base_of_dll, .. } => {
            &&& new_s.threads == old_s.threads
            &&& new_s.modules@ == spec_modules_without(old_s.modules@, base_of_dll)
        },
        DebugEvent::ProcessExited { .. } => {
            &&& new_s.modules@.len() == 0
            &&& new_s.threads@.len() == 0
        },
        _ => {
            &&& new_s.modules == old_s.modules
            &&& new_s.threads == old_s.threads
        },
    }
}

/// How one event changes the record as a whole when only the tables are
/// applied: the tables as `spec_tables_updated` says, the status stopped
/// by process exit and untouched otherwise, every other field untouched.
pub open spec fn spec_tables_after_event(
    old_s: SessionStateUI,
    event: DebugEvent,
    new_s: SessionStateUI,
) -> bool {
    &&& spec_tables_updated(old_s, event, new_s)
    &&& if event is ProcessExited {
        new_s.status is Stopped
    } else {
        new_s.status == old_s.status
    }
    &&& new_s.id == old_s.id
    &&& new_s.name == old_s.name
    &&& new_s.server_url == old_s.server_url
    &&& new_s.launch_command == old_s.launch_command
    &&& new_s.created_at == old_s.created_at
    &&& new_s.events == old_s.events
    &&& new_s.current_event == old_s.current_event
    &&& new_s.current_context == old_s.current_context
    &&& new_s.ui_sender_present == old_s.ui_sender_present
    &&& new_s.ui_receiver_present == old_s.ui_receiver_present
    &&& new_s.debug_result == old_s.debug_result
    &&& new_s.is_disassembly_window_open == old_s.is_disassembly_window_open
    &&& new_s.is_registers_window_open == old_s.is_registers_window_open
    &&& new_s.is_callstack_window_open == old_s.is_callstack_window_open
}

fn find_module(modules: &Vec<ModuleInfo>, base: u64) -> (r: bool)
    ensures
        r == exists|i: int| 0 <= i < modules@.len() && modules@[i].base == base,
{
    let n = modules.len();
    let mut i: usize = 0;
    while i < n
        invariant
            0 <= i <= n,
            n == modules@.len(),
            forall|j: int| 0 <= j < i ==> modules@[j].base != base,
        decreases n - i,
    {
        if modules[i].base == base {
            return true;
        }
        i = i + 1;
    }
    false
}

fn find_thread(threads: &Vec<ThreadInfo>, tid: u32) -> (r: bool)
    ensures
        r == exists|i: int| 0 <= i < threads@.len() && threads@[i].tid == tid,
{
    let n = threads.len();
    let mut i: usize = 0;
    while i < n
        invariant
            0 <= i <= n,
            n == threads@.len(),
            forall|j: int| 0 <= j < i ==> threads@[j].tid != tid,
        decreases n - i,
    {
        if threads[i].tid == tid {
            return true;
        }
        i = i + 1;
    }
    false
}

fn remove_module(modules: &mut Vec<ModuleInfo>, base: u64)
    ensures
        final(modules)@ == spec_modules_without(old(modules)@, base),
{
    let n = modules.len();
    let mut kept: Vec<ModuleInfo> = Vec::new();
    let mut i: usize = 0;
    while i < n
        invariant
            0 <= i <= n,
            modules@ == old(modules)@,
            n == modules@.len(),
            kept@ == spec_modules_without(modules@.subrange(0, i as int), base),
        decreases n - i,
    {
        let keep = modules[i].base != base;
        if keep {
            let m = modules[i].clone();
            kept.push(m);
        }
        proof {
            let prev = modules@.subrange(0, i as int);
            let cur = modules@.subrange(0, i + 1);
            assert(cur.drop_last() =~= prev);
            assert(cur.last() == modules@[i as int]);
            assert(kept@ == spec_modules_without(cur, base));
        }
        i = i + 1;
    }
    proof {
        assert(modules@.subrange(0, n as int) =~= modules@);
    }
    *modules = kept;
}

fn remove_thread(threads: &mut Vec<ThreadInfo>, tid: u32)
    ensures
        final(threads)@ == spec_threads_without(old(threads)@, tid),
{
    let n = threads.len();
    let mut kept: Vec<ThreadInfo> = Vec::new();
    let mut i: usize = 0;
    while i < n
        invariant
            0 <= i <= n,
            threads@ == old(threads)@,
            n == threads@.len(),
            kept@ == spec_threads_without(threads@.subrange(0, i as int), tid),
        decreases n - i,
    {
        if threads[i].tid != tid {
            let t = threads[i];
            kept.push(t);
        }
        proof {
            let prev = threads@.subrange(0, i as int);
            let cur = threads@.subrange(0, i + 1);
            assert(cur.drop_last() =~= prev);
            assert(cur.last() == threads@[i as int]);
            assert(kept@ == spec_threads_without(cur, tid));
        }
        i = i + 1;
    }
    proof {
        assert(threads@.subrange(0, n as int) =~= threads@);
    }
    *threads = kept;
}

fn dll_module_name(dll_name: &Option<String>, base: u64) -> (r: String)
    ensures
        r@ == spec_dll_module_name(*dll_name, base),
{
    match dll_name {
        Some(n) => n.clone(),
        None => {
            proof { reveal_strlit("Unknown_0x"); }
            let mut r = String::from_str("Unknown_0x");
            let digits = hex_upper(base);
            r.append(digits.as_str());
            proof { assert(r@ =~= spec_dll_module_name(*dll_name, base)); }
            r
        },
    }
}

/// Apply one debug event to the module and thread tables: process creation
/// seeds the main module and initial thread, DLL load and thread creation
/// insert if absent, their counterparts remove, and process exit clears
/// both tables and stops the session.
pub fn update_session_from_event(state: &mut SessionStateUI, event: &DebugEvent)
    ensures
        spec_tables_after_event(*old(state), *event, *final(state)),
        old(state).tables_wf() ==> final(state).tables_wf(),
{
    match event {
        DebugEvent::DllLoaded { dll_name, base_of_dll, size_of_dll, .. } => {
            if !find_module(&state.modules, *base_of_dll) {
                let name = dll_module_name(dll_name, *base_of_dll);
                state.modules.push(ModuleInfo {
                    name,
                    base: *base_of_dll,
                    size: *size_of_dll,
                });
                proof {
                    assert(state.modules@.subrange(0, old(state).modules@.len() as int)
                        =~= old(state).modules@);
                }
            }
        },
        DebugEvent::ThreadCreated { tid, start_address, .. } => {
            if !find_thread(&state.threads, *tid) {
                state.threads.push(ThreadInfo { tid: *tid, start_address: *start_address });
            }
        },
        DebugEvent::ProcessCreated { tid, image_file_name, base_of_image, size_of_image, .. } => {
            if !find_module(&state.modules, *base_of_image) {
                let name = match image_file_name {
                    Some(n) => n.clone(),
                    None => {
                        proof { reveal_strlit("main.exe"); }
                        String::from_str("main.exe")
                    },
                };
                state.modules.push(ModuleInfo {
                    name,
                    base: *base_of_image,
                    size: *size_of_image,
                });
                proof {
                    assert(state.modules@.subrange(0, old(state).modules@.len() as int)
                        =~= old(state).modules@);
                }
            }
            if !find_thread(&state.threads, *tid) {
                state.threads.push(ThreadInfo { tid: *tid, start_address: *base_of_image });
            }
        },
        DebugEvent::ThreadExited { tid, .. } => {
            remove_thread(&mut state.threads, *tid);
            proof {
                if old(state).tables_wf() {
                    lemma_threads_without_distinct(old(state).threads@, *tid);
                }
            }
        },
        DebugEvent::DllUnloaded { base_of_dll, .. } => {
            remove_module(&mut state.modules, *base_of_dll);
            proof {
                if old(state).tables_wf() {
                    lemma_modules_without_distinct(old(state).modules@, *base_of_dll);
                }
            }
        },
        DebugEvent::ProcessExited { .. } => {
            state.modules.clear();
            state.threads.clear();
            state.status = SessionStatusUI::Stopped;
        },
        _ => {},
    }
}

/// Every entry of the thread table without `tid` is an entry of the table.
proof fn lemma_threads_without_member(s: Seq<ThreadInfo>, tid: u32, i: int)
    requires
        0 <= i < spec_threads_without(s, tid).len(),
    ensures
        exists|k: int| 0 <= k < s.len() && s[k] == spec_threads_without(s, tid)[i],
    decreases s.len(),
{
    let out = spec_threads_without(s, tid);
    if s.len() > 0 {
        let sub = spec_threads_without(s.drop_last(), tid);
        if s.last().tid != tid && i == out.len() - 1 {
            assert(out[i] == s.last());
            assert(s[s.len() - 1] == s.last());
        } else {
            lemma_threads_without_member(s.drop_last(), tid, i);
            let k = choose|k: int|
                0 <= k < s.drop_last().len() && s.drop_last()[k] == sub[i];
            assert(s[k] == s.drop_last()[k]);
        }
    }
}

/// Removing a thread id keeps the remaining ids pairwise distinct.
proof fn lemma_threads_without_distinct(s: Seq<ThreadInfo>, tid: u32)
    requires
        forall|i: int, j: int| 0 <= i < j < s.len() ==> s[i].tid != s[j].tid,
    ensures
        forall|i: int, j: int|
            0 <= i < j < spec_threads_without(s, tid).len()
                ==> spec_threads_without(s, tid)[i].tid != spec_threads_without(s, tid)[j].tid,
    decreases s.len(),
{
    let out = spec_threads_without(s, tid);
    if s.len() > 0 {
        let sub = spec_threads_without(s.drop_last(), tid);
        lemma_threads_without_distinct(s.drop_last(), tid);
        assert forall|i: int, j: int| 0 <= i < j < out.len() implies
            out[i].tid != out[j].tid by {
            if s.last().tid != tid {
                assert(out == sub.push(s.last()));
                if j < out.len() - 1 {
                    assert(out[i] == sub[i] && out[j] == sub[j]);
                } else {
                    assert(out[j] == s.last());
                    assert(out[i] == sub[i]);
                    lemma_threads_without_member(s.drop_last(), tid, i);
                }
            } else {
                assert(out == sub);
            }
        }
    }
}

/// Every entry of the module table without `base` is an entry of the table.
proof fn lemma_modules_without_member(s: Seq<ModuleInfo>, base: u64, i: int)
    requires
        0 <= i < spec_modules_without(s, base).len(),
    ensures
        exists|k: int| 0 <= k < s.len() && s[k] == spec_modules_without(s, base)[i],
    decreases s.len(),
{
    let out = spec_modules_without(s, base);
    if s.len() > 0 {
        let sub = spec_modules_without(s.drop_last(), base);
        if s.last().base != base && i == out.len() - 1 {
            assert(out[i] == s.last());
            assert(s[s.len() - 1] == s.last());
        } else {
            lemma_modules_without_member(s.drop_last(), base, i);
            let k = choose|k: int|
                0 <= k < s.drop_last().len() && s.drop_last()[k] == sub[i];
            assert(s[k] == s.drop_last()[k]);
        }
    }
}

/// Removing a base keeps the remaining bases pairwise distinct.
proof fn lemma_modules_without_distinct(s: Seq<ModuleInfo>, base: u64)
    requires
        forall|i: int, j: int| 0 <= i < j < s.len() ==> s[i].base != s[j].base,
    ensures
        forall|i: int, j: int|
            0 <= i < j < spec_modules_without(s, base).len()
                ==> spec_modules_without(s, base)[i].base != spec_modules_without(s, base)[j].base,
    decreases s.len(),
{
    let out = spec_modules_without(s, base);
    if s.len() > 0 {
        let sub = spec_modules_without(s.drop_last(), base);
        lemma_modules_without_distinct(s.drop_last(), base);
        assert forall|i: int, j: int| 0 <= i < j < out.len() implies
            out[i].base != out[j].base by {
            if s.last().base != base {
                assert(out == sub.push(s.last()));
                if j < out.len() - 1 {
                    assert(out[i] == sub[i] && out[j] == sub[j]);
                } else {
                    assert(out[j] == s.last());
                    assert(out[i] == sub[i]);
                    lemma_modules_without_member(s.drop_last(), base, i);
                }
            } else {
                assert(out == sub);
            }
        }
    }
}

/// No entry based at `base` survives its removal.
pub proof fn lemma_modules_without_excludes(s: Seq<ModuleInfo>, base: u64)
    ensures
        forall|i: int|
            0 <= i < spec_modules_without(s, base).len()
                ==> spec_modules_without(s, base)[i].base != base,
    decreases s.len(),
{
    let out = spec_modules_without(s, base);
    if s.len() > 0 {
        let sub = spec_modules_without(s.drop_last(), base);
        lemma_modules_without_excludes(s.drop_last(), base);
        assert forall|i: int| 0 <= i < out.len() implies out[i].base != base by {
            if s.last().base != base {
                assert(out == sub.push(s.last()));
                if i < out.len() - 1 {
                    assert(out[i] == sub[i]);
                } else {
                    assert(out[i] == s.last());
                }
            } else {
                assert(out == sub);
            }
        }
    }
}


/// After a DLL load, the module table holds exactly one entry based at the
/// load address; after the matching unload it holds none; after process
/// exit both tables are empty.
pub proof fn lemma_module_thread_consistency(
    s0: SessionStateUI,
    load: DebugEvent,
    s1: SessionStateUI,
    unload: DebugEvent,
    s2: SessionStateUI,
    exit: DebugEvent,
    s3: SessionStateUI,
    base: u64,
)
    requires
        s0.tables_wf(),
        load matches DebugEvent::DllLoaded { base_of_dll, .. } && base_of_dll == base,
        unload matches DebugEvent::DllUnloaded { base_of_dll, .. } && base_of_dll == base,
        exit is ProcessExited,
        spec_tables_after_event(s0, load, s1),
        spec_tables_after_event(s1, unload, s2),
        spec_tables_after_event(s2, exit, s3),
    ensures
        s1.spec_has_module(base),
        forall|i: int, j: int|
            0 <= i < s1.modules@.len() && 0 <= j < s1.modules@.len()
                && s1.modules@[i].base == base && s1.modules@[j].base == base ==> i == j,
        !s2.spec_has_module(base),
        s3.modules@.len() == 0 && s3.threads@.len() == 0,
{
    if s0.spec_has_module(base) {
        assert(s1.modules == s0.modules);
    } else {
        assert(s1.modules@.last().base == base);
    }
    assert forall|i: int, j: int|
        0 <= i < s1.modules@.len() && 0 <= j < s1.modules@.len()
            && s1.modules@[i].base == base && s1.modules@[j].base == base implies i == j by {
        if s0.spec_has_module(base) {
        } else {
            assert(forall|k: int| 0 <= k < s0.modules@.len()
                ==> s1.modules@[k] == s0.modules@.subrange(0, s0.modules@.len() as int)[k]);
        }
    }
    assert(s2.modules@ == spec_modules_without(s1.modules@, base));
    lemma_modules_without_excludes(s1.modules@, base);
}

} // verus!
