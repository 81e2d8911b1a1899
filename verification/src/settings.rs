//! The stop policy: six user-set switches that decide which debug events
//! pause the control loop. The decision is a pure function of the event's
//! variant and the settings value.

use vstd::prelude::*;
use crate::event::DebugEvent;

verus! {

/// User-configured stop policy. Each switch names the event variant it gates.
#[derive(Debug, Clone, Copy, PartialEq, Eq, Structural)]
pub struct DebugSettings {
    pub stop_on_thread_create: bool,
    pub stop_on_thread_exit: bool,
    pub stop_on_dll_load: bool,
    pub stop_on_dll_unload: bool,
    pub stop_on_initial_breakpoint: bool,
    pub stop_on_process_create: bool,
}

/// The default policy: pause on everything gated except thread exit.
pub open spec fn spec_default_settings() -> DebugSettings {
    DebugSettings {
        stop_on_thread_create: true,
        stop_on_thread_exit: false,
        stop_on_dll_load: true,
        stop_on_dll_unload: true,
        stop_on_initial_breakpoint: true,
        stop_on_process_create: true,
    }
}

impl Default for DebugSettings {
    fn default() -> (r: Self)
        ensures
            r == spec_default_settings(),
    {
        DebugSettings {
            stop_on_thread_create: true,
            stop_on_thread_exit: false,
            stop_on_dll_load: true,
            stop_on_dll_unload: true,
            stop_on_initial_breakpoint: true,
            stop_on_process_create: true,
        }
    }
}

/// Whether `event` pauses the session under `settings`.
///
/// Gated variants follow their switch; `Output` never pauses and
/// `ProcessExited` is terminal rather than pausing; every other variant
/// always pauses.
pub open spec fn spec_should_pause(event: DebugEvent, settings: DebugSettings) -> bool {
    match event {
        DebugEvent::ProcessCreated { .. } => settings.stop_on_process_create,
        DebugEvent::ThreadCreated { .. } => settings.stop_on_thread_create,
        DebugEvent::ThreadExited { .. } => settings.stop_on_thread_exit,
        DebugEvent::DllLoaded { .. } => settings.stop_on_dll_load,
        DebugEvent::DllUnloaded { .. } => settings.stop_on_dll_unload,
        DebugEvent::InitialBreakpoint { .. } => settings.stop_on_initial_breakpoint,
        DebugEvent::Output { .. } => false,
        DebugEvent::ProcessExited { .. } => false,
        _ => true,
    }
}

/// Decide whether `event` pauses the session under `settings`.
pub fn should_pause(event: &DebugEvent, settings: &DebugSettings) -> (r: bool)
    ensures
        r == spec_should_pause(*event, *settings),
{
    match event {
        DebugEvent::ProcessCreated { .. } => settings.stop_on_process_create,
        DebugEvent::ThreadCreated { .. } => settings.stop_on_thread_create,
        DebugEvent::ThreadExited { .. } => settings.stop_on_thread_exit,
        DebugEvent::DllLoaded { .. } => settings.stop_on_dll_load,
        DebugEvent::DllUnloaded { .. } => settings.stop_on_dll_unload,
        DebugEvent::InitialBreakpoint { .. } => settings.stop_on_initial_breakpoint,
        DebugEvent::Output { .. } => false,
        DebugEvent::ProcessExited { .. } => false,
        _ => true,
    }
}

/// The pause decision is a function of the event's variant alone: two
/// events of the same variant get the same decision under any one policy.
pub proof fn lemma_stop_policy_by_variant(
    e1: DebugEvent,
    e2: DebugEvent,
    settings: DebugSettings,
)
    requires
        crate::event::same_variant(e1, e2),
    ensures
        spec_should_pause(e1, settings) == spec_should_pause(e2, settings),
{
}

} // verus!
