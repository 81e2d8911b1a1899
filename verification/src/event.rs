//! Debug events as the library models them: one variant per event the debug
//! server reports, carrying plain values. The translator turns an event into
//! the flattened, serializable record the front-end renders, and its contract
//! pins every field, the human-readable details string included.

use vstd::prelude::*;
use crate::fmtnum::{dec_seq, dec_u64, hex_seq_upper, hex_seq_lower, hex_upper, hex_lower};
use crate::context::SerializableThreadContext;

verus! {

/// A debug event received from the debug server, normalized to plain values.
#[derive(Debug)]
pub enum DebugEvent {
    ProcessCreated {
        pid: u32,
        tid: u32,
        image_file_name: Option<String>,
        base_of_image: u64,
        size_of_image: Option<u64>,
    },
    ProcessExited { pid: u32, exit_code: u32 },
    ThreadCreated { pid: u32, tid: u32, start_address: u64 },
    ThreadExited { pid: u32, tid: u32, exit_code: u32 },
    DllLoaded {
        pid: u32,
        tid: u32,
        dll_name: Option<String>,
        base_of_dll: u64,
        size_of_dll: Option<u64>,
    },
    DllUnloaded { pid: u32, tid: u32, base_of_dll: u64 },
    Breakpoint { pid: u32, tid: u32, address: u64 },
    Exception { pid: u32, tid: u32, code: u32, address: u64, first_chance: bool },
    Output { pid: u32, tid: u32, output: String },
    RipEvent { pid: u32, tid: u32, error: u32, event_type: u32 },
    InitialBreakpoint { pid: u32, tid: u32 },
    Unknown,
}

/// A loaded module, keyed by its base address.
#[derive(Debug)]
pub struct ModuleInfo {
    pub name: String,
    pub base: u64,
    pub size: Option<u64>,
}

/// A live thread, keyed by its id.
#[derive(Debug, Clone, Copy, PartialEq, Eq, Structural)]
pub struct ThreadInfo {
    pub tid: u32,
    pub start_address: u64,
}

impl Clone for ModuleInfo {
    fn clone(&self) -> (res: Self)
        ensures
            res == *self,
    {
        ModuleInfo { name: self.name.clone(), base: self.base, size: self.size }
    }
}

/// Whether two events are of the same variant (their payloads aside).
pub open spec fn same_variant(a: DebugEvent, b: DebugEvent) -> bool {
    match (a, b) {
        (DebugEvent::ProcessCreated { .. }, DebugEvent::ProcessCreated { .. }) => true,
        (DebugEvent::ProcessExited { .. }, DebugEvent::ProcessExited { .. }) => true,
        (DebugEvent::ThreadCreated { .. }, DebugEvent::ThreadCreated { .. }) => true,
        (DebugEvent::ThreadExited { .. }, DebugEvent::ThreadExited { .. }) => true,
        (DebugEvent::DllLoaded { .. }, DebugEvent::DllLoaded { .. }) => true,
        (DebugEvent::DllUnloaded { .. }, DebugEvent::DllUnloaded { .. }) => true,
        (DebugEvent::Breakpoint { .. }, DebugEvent::Breakpoint { .. }) => true,
        (DebugEvent::Exception { .. }, DebugEvent::Exception { .. }) => true,
        (DebugEvent::Output { .. }, DebugEvent::Output { .. }) => true,
        (DebugEvent::RipEvent { .. }, DebugEvent::RipEvent { .. }) => true,
        (DebugEvent::InitialBreakpoint { .. }, DebugEvent::InitialBreakpoint { .. }) => true,
        (DebugEvent::Unknown, DebugEvent::Unknown) => true,
        _ => false,
    }
}

/// The process id an event reports (zero where the variant carries none).
pub open spec fn spec_event_pid(e: DebugEvent) -> u32 {
    match e {
        DebugEvent::ProcessCreated { pid, .. } => pid,
        DebugEvent::ProcessExited { pid, .. } => pid,
        DebugEvent::ThreadCreated { pid, .. } => pid,
        DebugEvent::ThreadExited { pid, .. } => pid,
        DebugEvent::DllLoaded { pid, .. } => pid,
        DebugEvent::DllUnloaded { pid, .. } => pid,
        DebugEvent::Breakpoint { pid, .. } => pid,
        DebugEvent::Exception { pid, .. } => pid,
        DebugEvent::Output { pid, .. } => pid,
        DebugEvent::RipEvent { pid, .. } => pid,
        DebugEvent::InitialBreakpoint { pid, .. } => pid,
        DebugEvent::Unknown => 0,
    }
}

/// The thread id an event reports (zero where the variant carries none).
pub open spec fn spec_event_tid(e: DebugEvent) -> u32 {
    match e {
        DebugEvent::ProcessCreated { tid, .. } => tid,
        DebugEvent::ProcessExited { .. } => 0,
        DebugEvent::ThreadCreated { tid, .. } => tid,
        DebugEvent::ThreadExited { tid, .. } => tid,
        DebugEvent::DllLoaded { tid, .. } => tid,
        DebugEvent::DllUnloaded { tid, .. } => tid,
        DebugEvent::Breakpoint { tid, .. } => tid,
        DebugEvent::Exception { tid, .. } => tid,
        DebugEvent::Output { tid, .. } => tid,
        DebugEvent::RipEvent { tid, .. } => tid,
        DebugEvent::InitialBreakpoint { tid, .. } => tid,
        DebugEvent::Unknown => 0,
    }
}

impl DebugEvent {
    /// The process id the event reports.
    pub fn pid(&self) -> (r: u32)
        ensures
            r == spec_event_pid(*self),
    {
        match self {
            DebugEvent::ProcessCreated { pid, .. } => *pid,
            DebugEvent::ProcessExited { pid, .. } => *pid,
            DebugEvent::ThreadCreated { pid, .. } => *pid,
            DebugEvent::ThreadExited { pid, .. } => *pid,
            DebugEvent::DllLoaded { pid, .. } => *pid,
            DebugEvent::DllUnloaded { pid, .. } => *pid,
            DebugEvent::Breakpoint { pid, .. } => *pid,
            DebugEvent::Exception { pid, .. } => *pid,
            DebugEvent::Output { pid, .. } => *pid,
            DebugEvent::RipEvent { pid, .. } => *pid,
            DebugEvent::InitialBreakpoint { pid, .. } => *pid,
            DebugEvent::Unknown => 0,
        }
    }

    /// The thread id the event reports.
    pub fn tid(&self) -> (r: u32)
        ensures
            r == spec_event_tid(*self),
    {
        match self {
            DebugEvent::ProcessCreated { tid, .. } => *tid,
            DebugEvent::ProcessExited { .. } => 0,
            DebugEvent::ThreadCreated { tid, .. } => *tid,
            DebugEvent::ThreadExited { tid, .. } => *tid,
            DebugEvent::DllLoaded { tid, .. } => *tid,
            DebugEvent::DllUnloaded { tid, .. } => *tid,
            DebugEvent::Breakpoint { tid, .. } => *tid,
            DebugEvent::Exception { tid, .. } => *tid,
            DebugEvent::Output { tid, .. } => *tid,
            DebugEvent::RipEvent { tid, .. } => *tid,
            DebugEvent::InitialBreakpoint { tid, .. } => *tid,
            DebugEvent::Unknown => 0,
        }
    }
}

impl Clone for DebugEvent {
    fn clone(&self) -> (res: Self)
        ensures
            res == *self,
    {
        match self {
            DebugEvent::ProcessCreated { pid, tid, image_file_name, base_of_image, size_of_image } => {
                DebugEvent::ProcessCreated {
                    pid: *pid,
                    tid: *tid,
                    image_file_name: clone_opt_string(image_file_name),
                    base_of_image: *base_of_image,
                    size_of_image: *size_of_image,
                }
            },
            DebugEvent::ProcessExited { pid, exit_code } => {
                DebugEvent::ProcessExited { pid: *pid, exit_code: *exit_code }
            },
            DebugEvent::ThreadCreated { pid, tid, start_address } => {
                DebugEvent::ThreadCreated { pid: *pid, tid: *tid, start_address: *start_address }
            },
            DebugEvent::ThreadExited { pid, tid, exit_code } => {
                DebugEvent::ThreadExited { pid: *pid, tid: *tid, exit_code: *exit_code }
            },
            DebugEvent::DllLoaded { pid, tid, dll_name, base_of_dll, size_of_dll } => {
                DebugEvent::DllLoaded {
                    pid: *pid,
                    tid: *tid,
                    dll_name: clone_opt_string(dll_name),
                    base_of_dll: *base_of_dll,
                    size_of_dll: *size_of_dll,
                }
            },
            DebugEvent::DllUnloaded { pid, tid, base_of_dll } => {
                DebugEvent::DllUnloaded { pid: *pid, tid: *tid, base_of_dll: *base_of_dll }
            },
            DebugEvent::Breakpoint { pid, tid, address } => {
                DebugEvent::Breakpoint { pid: *pid, tid: *tid, address: *address }
            },
            DebugEvent::Exception { pid, tid, code, address, first_chance } => {
                DebugEvent::Exception {
                    pid: *pid,
                    tid: *tid,
                    code: *code,
                    address: *address,
                    first_chance: *first_chance,
                }
            },
            DebugEvent::Output { pid, tid, output } => {
                DebugEvent::Output { pid: *pid, tid: *tid, output: output.clone() }
            },
            DebugEvent::RipEvent { pid, tid, error, event_type } => {
                DebugEvent::RipEvent { pid: *pid, tid: *tid, error: *error, event_type: *event_type }
            },
            DebugEvent::InitialBreakpoint { pid, tid } => {
                DebugEvent::InitialBreakpoint { pid: *pid, tid: *tid }
            },
            DebugEvent::Unknown => DebugEvent::Unknown,
        }
    }
}

fn clone_opt_string(o: &Option<String>) -> (res: Option<String>)
    ensures
        res == *o,
{
    match o {
        Some(s) => Some(s.clone()),
        None => None,
    }
}

/// The flattened, serializable projection of a debug event for the UI.
#[derive(Debug)]
pub struct DebugEventInfo {
    pub event_type: String,
    pub process_id: u32,
    pub thread_id: u32,
    pub details: String,
    pub can_continue: bool,
    pub address: Option<u64>,
    pub context: Option<SerializableThreadContext>,
}

impl Clone for DebugEventInfo {
    fn clone(&self) -> (res: Self)
        ensures
            res == *self,
    {
        DebugEventInfo {
            event_type: self.event_type.clone(),
            process_id: self.process_id,
            thread_id: self.thread_id,
            details: self.details.clone(),
            can_continue: self.can_continue,
            address: self.address,
            context: match &self.context {
                Some(c) => Some(c.clone()),
                None => None,
            },
        }
    }
}

/// An optional name, or `Unknown` where none was reported.
pub open spec fn opt_name_seq(o: Option<String>) -> Seq<char> {
    match o {
        Some(s) => s@,
        None => "Unknown"@,
    }
}

/// An optional size as upper-case hex, or `Unknown` where none was reported.
pub open spec fn opt_size_seq(o: Option<u64>) -> Seq<char> {
    match o {
        Some(v) => "0x"@ + hex_seq_upper(v as nat),
        None => "Unknown"@,
    }
}

/// `true` or `false`.
pub open spec fn bool_seq(b: bool) -> Seq<char> {
    if b {
        "true"@
    } else {
        "false"@
    }
}

/// The fixed tag naming an event's variant.
pub open spec fn spec_event_type(e: DebugEvent) -> Seq<char> {
    match e {
        DebugEvent::ProcessCreated { .. } => "ProcessCreated"@,
        DebugEvent::ProcessExited { .. } => "ProcessExited"@,
        DebugEvent::ThreadCreated { .. } => "ThreadCreated"@,
        DebugEvent::ThreadExited { .. } => "ThreadExited"@,
        DebugEvent::DllLoaded { .. } => "DllLoaded"@,
        DebugEvent::DllUnloaded { .. } => "DllUnloaded"@,
        DebugEvent::Breakpoint { .. } => "Breakpoint"@,
        DebugEvent::Exception { .. } => "Exception"@,
        DebugEvent::Output { .. } => "Output"@,
        DebugEvent::RipEvent { .. } => "RipEvent"@,
        DebugEvent::InitialBreakpoint { .. } => "InitialBreakpoint"@,
        DebugEvent::Unknown => "Unknown"@,
    }
}

/// The address of interest an event itself carries: the start address of a
/// new thread, the site of a breakpoint or an exception; nothing otherwise.
pub open spec fn spec_event_address(e: DebugEvent) -> Option<u64> {
    match e {
        DebugEvent::ThreadCreated { start_address, .. } => Some(start_address),
        DebugEvent::Breakpoint { address, .. } => Some(address),
        DebugEvent::Exception { address, .. } => Some(address),
        _ => None,
    }
}

/// The human-readable details line for an event.
pub open spec fn spec_event_details(e: DebugEvent) -> Seq<char> {
    match e {
        DebugEvent::ProcessCreated { pid, tid, image_file_name, base_of_image, size_of_image } => {
            "Process created: PID="@ + dec_seq(pid as nat) + ", TID="@ + dec_seq(tid as nat)
                + ", Image="@ + opt_name_seq(image_file_name) + ", Base=0x"@
                + hex_seq_upper(base_of_image as nat) + ", Size="@ + opt_size_seq(size_of_image)
        },
        DebugEvent::ProcessExited { pid, exit_code } => {
            "Process exited: PID="@ + dec_seq(pid as nat) + ", Exit Code="@
                + dec_seq(exit_code as nat)
        },
        DebugEvent::ThreadCreated { pid, tid, start_address } => {
            "Thread created: PID="@ + dec_seq(pid as nat) + ", TID="@ + dec_seq(tid as nat)
                + ", Start Address=0x"@ + hex_seq_upper(start_address as nat)
        },
        DebugEvent::ThreadExited { pid, tid, exit_code } => {
            "Thread exited: PID="@ + dec_seq(pid as nat) + ", TID="@ + dec_seq(tid as nat)
                + ", Exit Code="@ + dec_seq(exit_code as nat)
        },
        DebugEvent::DllLoaded { pid, tid, dll_name, base_of_dll, size_of_dll } => {
            "DLL loaded: PID="@ + dec_seq(pid as nat) + ", TID="@ + dec_seq(tid as nat)
                + ", Name="@ + opt_name_seq(dll_name) + ", Base=0x"@
                + hex_seq_upper(base_of_dll as nat) + ", Size="@ + opt_size_seq(size_of_dll)
        },
        DebugEvent::DllUnloaded { pid, tid, base_of_dll } => {
            "DLL unloaded: PID="@ + dec_seq(pid as nat) + ", TID="@ + dec_seq(tid as nat)
                + ", Base=0x"@ + hex_seq_upper(base_of_dll as nat)
        },
        DebugEvent::Breakpoint { pid, tid, address } => {
            "Breakpoint hit: PID="@ + dec_seq(pid as nat) + ", TID="@ + dec_seq(tid as nat)
                + ", Address=0x"@ + hex_seq_upper(address as nat)
        },
        DebugEvent::Exception { pid, tid, code, address, first_chance } => {
            "Exception occurred: PID="@ + dec_seq(pid as nat) + ", TID="@ + dec_seq(tid as nat)
                + ", Code=0x"@ + hex_seq_lower(code as nat) + ", Address=0x"@
                + hex_seq_lower(address as nat) + ", First Chance="@ + bool_seq(first_chance)
        },
        DebugEvent::Output { pid, tid, output } => {
            "Debug output: PID="@ + dec_seq(pid as nat) + ", TID="@ + dec_seq(tid as nat)
                + ", Output="@ + output@
        },
        DebugEvent::RipEvent { pid, tid, error, event_type } => {
            "RIP event: PID="@ + dec_seq(pid as nat) + ", TID="@ + dec_seq(tid as nat)
                + ", Error="@ + dec_seq(error as nat) + ", Type="@ + dec_seq(event_type as nat)
        },
        DebugEvent::InitialBreakpoint { pid, tid } => {
            "Initial breakpoint: PID="@ + dec_seq(pid as nat) + ", TID="@ + dec_seq(tid as nat)
        },
        DebugEvent::Unknown => "Unknown debug event"@,
    }
}

/// What the translator produces for an event: the variant tag, the ids, the
/// details line, continuability (false only for process exit), the carried
/// address, and no context (the caller attaches one when it has one).
pub open spec fn spec_event_info_matches(e: DebugEvent, info: DebugEventInfo) -> bool {
    &&& info.event_type@ == spec_event_type(e)
    &&& info.process_id == spec_event_pid(e)
    &&& info.thread_id == spec_event_tid(e)
    &&& info.details@ == spec_event_details(e)
    &&& info.can_continue == !(e is ProcessExited)
    &&& info.address == spec_event_address(e)
    &&& info.context is None
}

fn append_dec_u32(out: &mut String, v: u32)
    ensures
        final(out)@ == old(out)@ + dec_seq(v as nat),
{
    let s = dec_u64(v as u64);
    out.append(s.as_str());
}

fn append_hex_upper_u64(out: &mut String, v: u64)
    ensures
        final(out)@ == old(out)@ + hex_seq_upper(v as nat),
{
    let s = hex_upper(v);
    out.append(s.as_str());
}

fn append_opt_name(out: &mut String, o: &Option<String>)
    ensures
        final(out)@ == old(out)@ + opt_name_seq(*o),
{
    match o {
        Some(s) => out.append(s.as_str()),
        None => {
            proof { reveal_strlit("Unknown"); }
            out.append("Unknown");
        },
    }
}

fn append_opt_size(out: &mut String, o: &Option<u64>)
    ensures
        final(out)@ == old(out)@ + opt_size_seq(*o),
{
    match o {
        Some(v) => {
            proof { reveal_strlit("0x"); }
            out.append("0x");
            append_hex_upper_u64(out, *v);
            proof {
                assert(final(out)@ =~= old(out)@ + opt_size_seq(*o));
            }
        },
        None => {
            proof { reveal_strlit("Unknown"); }
            out.append("Unknown");
        },
    }
}

fn append_bool(out: &mut String, b: bool)
    ensures
        final(out)@ == old(out)@ + bool_seq(b),
{
    if b {
        proof { reveal_strlit("true"); }
        out.append("true");
    } else {
        proof { reveal_strlit("false"); }
        out.append("false");
    }
}

/// Translate a debug event into its UI record.
pub fn debug_event_to_info(event: &DebugEvent) -> (info: DebugEventInfo)
    ensures
        spec_event_info_matches(*event, info),
{
    match event {
        DebugEvent::ProcessCreated { pid, tid, image_file_name, base_of_image, size_of_image } => {
            let mut d = String::new();
            proof {
                reveal_strlit("Process created: PID=");
                reveal_strlit(", TID=");
                reveal_strlit(", Image=");
                reveal_strlit(", Base=0x");
                reveal_strlit(", Size=");
            }
            d.append("Process created: PID=");
            append_dec_u32(&mut d, *pid);
            d.append(", TID=");
            append_dec_u32(&mut d, *tid);
            d.append(", Image=");
            append_opt_name(&mut d, image_file_name);
            d.append(", Base=0x");
            append_hex_upper_u64(&mut d, *base_of_image);
            d.append(", Size=");
            append_opt_size(&mut d, size_of_image);
            proof { assert(d@ =~= spec_event_details(*event)); }
            DebugEventInfo {
                event_type: String::from_str("ProcessCreated"),
                process_id: *pid,
                thread_id: *tid,
                details: d,
                can_continue: true,
                address: None,
                context: None,
            }
        },
        DebugEvent::ProcessExited { pid, exit_code } => {
            let mut d = String::new();
            proof {
                reveal_strlit("Process exited: PID=");
                reveal_strlit(", Exit Code=");
            }
            d.append("Process exited: PID=");
            append_dec_u32(&mut d, *pid);
            d.append(", Exit Code=");
            append_dec_u32(&mut d, *exit_code);
            proof { assert(d@ =~= spec_event_details(*event)); }
            DebugEventInfo {
                event_type: String::from_str("ProcessExited"),
                process_id: *pid,
                thread_id: 0,
                details: d,
                can_continue: false,
                address: None,
                context: None,
            }
        },
        DebugEvent::ThreadCreated { pid, tid, start_address } => {
            let mut d = String::new();
            proof {
                reveal_strlit("Thread created: PID=");
                reveal_strlit(", TID=");
                reveal_strlit(", Start Address=0x");
            }
            d.append("Thread created: PID=");
            append_dec_u32(&mut d, *pid);
            d.append(", TID=");
            append_dec_u32(&mut d, *tid);
            d.append(", Start Address=0x");
            append_hex_upper_u64(&mut d, *start_address);
            proof { assert(d@ =~= spec_event_details(*event)); }
            DebugEventInfo {
                event_type: String::from_str("ThreadCreated"),
                process_id: *pid,
                thread_id: *tid,
                details: d,
                can_continue: true,
                address: Some(*start_address),
                context: None,
            }
        },
        DebugEvent::ThreadExited { pid, tid, exit_code } => {
            let mut d = String::new();
            proof {
                reveal_strlit("Thread exited: PID=");
                reveal_strlit(", TID=");
                reveal_strlit(", Exit Code=");
            }
            d.append("Thread exited: PID=");
            append_dec_u32(&mut d, *pid);
            d.append(", TID=");
            append_dec_u32(&mut d, *tid);
            d.append(", Exit Code=");
            append_dec_u32(&mut d, *exit_code);
            proof { assert(d@ =~= spec_event_details(*event)); }
            DebugEventInfo {
                event_type: String::from_str("ThreadExited"),
                process_id: *pid,
                thread_id: *tid,
                details: d,
                can_continue: true,
                address: None,
                context: None,
            }
        },
        DebugEvent::DllLoaded { pid, tid, dll_name, base_of_dll, size_of_dll } => {
            let mut d = String::new();
            proof {
                reveal_strlit("DLL loaded: PID=");
                reveal_strlit(", TID=");
                reveal_strlit(", Name=");
                reveal_strlit(", Base=0x");
                reveal_strlit(", Size=");
            }
            d.append("DLL loaded: PID=");
            append_dec_u32(&mut d, *pid);
            d.append(", TID=");
            append_dec_u32(&mut d, *tid);
            d.append(", Name=");
            append_opt_name(&mut d, dll_name);
            d.append(", Base=0x");
            append_hex_upper_u64(&mut d, *base_of_dll);
            d.append(", Size=");
            append_opt_size(&mut d, size_of_dll);
            proof { assert(d@ =~= spec_event_details(*event)); }
            DebugEventInfo {
                event_type: String::from_str("DllLoaded"),
                process_id: *pid,
                thread_id: *tid,
                details: d,
                can_continue: true,
                address: None,
                context: None,
            }
        },
        DebugEvent::DllUnloaded { pid, tid, base_of_dll } => {
            let mut d = String::new();
            proof {
                reveal_strlit("DLL unloaded: PID=");
                reveal_strlit(", TID=");
                reveal_strlit(", Base=0x");
            }
            d.append("DLL unloaded: PID=");
            append_dec_u32(&mut d, *pid);
            d.append(", TID=");
            append_dec_u32(&mut d, *tid);
            d.append(", Base=0x");
            append_hex_upper_u64(&mut d, *base_of_dll);
            proof { assert(d@ =~= spec_event_details(*event)); }
            DebugEventInfo {
                event_type: String::from_str("DllUnloaded"),
                process_id: *pid,
                thread_id: *tid,
                details: d,
                can_continue: true,
                address: None,
                context: None,
            }
        },
        DebugEvent::Breakpoint { pid, tid, address } => {
            let mut d = String::new();
            proof {
                reveal_strlit("Breakpoint hit: PID=");
                reveal_strlit(", TID=");
                reveal_strlit(", Address=0x");
            }
            d.append("Breakpoint hit: PID=");
            append_dec_u32(&mut d, *pid);
            d.append(", TID=");
            append_dec_u32(&mut d, *tid);
            d.append(", Address=0x");
            append_hex_upper_u64(&mut d, *address);
            proof { assert(d@ =~= spec_event_details(*event)); }
            DebugEventInfo {
                event_type: String::from_str("Breakpoint"),
                process_id: *pid,
                thread_id: *tid,
                details: d,
                can_continue: true,
                address: Some(*address),
                context: None,
            }
        },
        DebugEvent::Exception { pid, tid, code, address, first_chance } => {
            let mut d = String::new();
            proof {
                reveal_strlit("Exception occurred: PID=");
                reveal_strlit(", TID=");
                reveal_strlit(", Code=0x");
                reveal_strlit(", Address=0x");
                reveal_strlit(", First Chance=");
            }
            d.append("Exception occurred: PID=");
            append_dec_u32(&mut d, *pid);
            d.append(", TID=");
            append_dec_u32(&mut d, *tid);
            d.append(", Code=0x");
            let code_s = hex_lower(*code as u64);
            d.append(code_s.as_str());
            d.append(", Address=0x");
            let addr_s = hex_lower(*address);
            d.append(addr_s.as_str());
            d.append(", First Chance=");
            append_bool(&mut d, *first_chance);
            proof { assert(d@ =~= spec_event_details(*event)); }
            DebugEventInfo {
                event_type: String::from_str("Exception"),
                process_id: *pid,
                thread_id: *tid,
                details: d,
                can_continue: true,
                address: Some(*address),
                context: None,
            }
        },
        DebugEvent::Output { pid, tid, output } => {
            let mut d = String::new();
            proof {
                reveal_strlit("Debug output: PID=");
                reveal_strlit(", TID=");
                reveal_strlit(", Output=");
            }
            d.append("Debug output: PID=");
            append_dec_u32(&mut d, *pid);
            d.append(", TID=");
            append_dec_u32(&mut d, *tid);
            d.append(", Output=");
            d.append(output.as_str());
            proof { assert(d@ =~= spec_event_details(*event)); }
            DebugEventInfo {
                event_type: String::from_str("Output"),
                process_id: *pid,
                thread_id: *tid,
                details: d,
                can_continue: true,
                address: None,
                context: None,
            }
        },
        DebugEvent::RipEvent { pid, tid, error, event_type } => {
            let mut d = String::new();
            proof {
                reveal_strlit("RIP event: PID=");
                reveal_strlit(", TID=");
                reveal_strlit(", Error=");
                reveal_strlit(", Type=");
            }
            d.append("RIP event: PID=");
            append_dec_u32(&mut d, *pid);
            d.append(", TID=");
            append_dec_u32(&mut d, *tid);
            d.append(", Error=");
            append_dec_u32(&mut d, *error);
            d.append(", Type=");
            append_dec_u32(&mut d, *event_type);
            proof { assert(d@ =~= spec_event_details(*event)); }
            DebugEventInfo {
                event_type: String::from_str("RipEvent"),
                process_id: *pid,
                thread_id: *tid,
                details: d,
                can_continue: true,
                address: None,
                context: None,
            }
        },
        DebugEvent::InitialBreakpoint { pid, tid } => {
            let mut d = String::new();
            proof {
                reveal_strlit("Initial breakpoint: PID=");
                reveal_strlit(", TID=");
            }
            d.append("Initial breakpoint: PID=");
            append_dec_u32(&mut d, *pid);
            d.append(", TID=");
            append_dec_u32(&mut d, *tid);
            proof { assert(d@ =~= spec_event_details(*event)); }
            DebugEventInfo {
                event_type: String::from_str("InitialBreakpoint"),
                process_id: *pid,
                thread_id: *tid,
                details: d,
                can_continue: true,
                address: None,
                context: None,
            }
        },
        DebugEvent::Unknown => {
            proof { reveal_strlit("Unknown debug event"); }
            let d = String::from_str("Unknown debug event");
            proof { assert(d@ =~= spec_event_details(*event)); }
            DebugEventInfo {
                event_type: String::from_str("Unknown"),
                process_id: 0,
                thread_id: 0,
                details: d,
                can_continue: true,
                address: None,
                context: None,
            }
        },
    }
}

} // verus!
