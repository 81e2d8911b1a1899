//! The session store: the process-wide mapping from session id to session
//! record. It owns the duplicate guard — no two sessions may share a
//! server url and launch command, and ids are unique — and the gates that
//! admit commands only in the right status. The host serializes access;
//! every operation here is a short exclusive-access mutation or read.

use vstd::prelude::*;
use crate::clock::now_unix_millis;
use crate::error::Error;
use crate::event::{ModuleInfo, ThreadInfo};
use crate::fmtnum::{dec_seq, dec_u64, hex_seq_upper, hex_upper};
use crate::machine::{Architecture, UICommand};
use crate::context::SerializableThreadContext;
use crate::state::{
    DebugSessionUI, SessionStateUI, SessionStatusUI, spec_is_at_rest, spec_snapshot_matches,
};

verus! {

/// One loaded module as the module listing shows it.
#[derive(Debug)]
pub struct ModuleData {
    pub name: String,
    pub base_address: String,
    pub size: u64,
    pub path: String,
}

/// One live thread as the thread listing shows it.
#[derive(Debug)]
pub struct ThreadData {
    pub id: u32,
    pub status: String,
    pub start_address: String,
}

/// What a stop request found: whether the session exists, and whether its
/// queue sender was still in place (and so must now be signalled and
/// dropped by the host).
#[derive(Debug, Clone, Copy, PartialEq, Eq, Structural)]
pub struct StopSignal {
    pub found: bool,
    pub had_sender: bool,
}

/// The process-wide collection of session records.
pub struct SessionStore {
    pub sessions: Vec<SessionStateUI>,
}

/// The store's records with every record of the given id removed, order
/// kept.
pub open spec fn spec_sessions_without(s: Seq<SessionStateUI>, id: Seq<char>) -> Seq<SessionStateUI>
    decreases s.len(),
{
    if s.len() == 0 {
        Seq::<SessionStateUI>::empty()
    } else {
        let prefix = spec_sessions_without(s.drop_last(), id);
        if s.last().id@ != id {
            prefix.push(s.last())
        } else {
            prefix
        }
    }
}

impl SessionStore {
    /// The duplicate guard: ids are unique, and no two sessions share a
    /// server url and launch command.
    pub open spec fn store_wf(self) -> bool {
        &&& forall|i: int, j: int|
            0 <= i < j < self.sessions@.len()
                ==> self.sessions@[i].id@ != self.sessions@[j].id@
        &&& forall|i: int, j: int|
            0 <= i < j < self.sessions@.len()
                ==> !(self.sessions@[i].server_url@ == self.sessions@[j].server_url@
                    && self.sessions@[i].launch_command@ == self.sessions@[j].launch_command@)
    }

    /// Whether some session has this id.
    pub open spec fn spec_has_id(self, id: Seq<char>) -> bool {
        exists|i: int| 0 <= i < self.sessions@.len() && self.sessions@[i].id@ == id
    }

    /// Whether some session uses this server url and launch command.
    pub open spec fn spec_has_pair(self, url: Seq<char>, cmd: Seq<char>) -> bool {
        exists|i: int|
            0 <= i < self.sessions@.len()
                && self.sessions@[i].server_url@ == url
                && (#[trigger] self.sessions@[i]).launch_command@ == cmd
    }

    /// Whether a session other than the given one uses this server url
    /// and launch command.
    pub open spec fn spec_has_pair_excluding(
        self,
        url: Seq<char>,
        cmd: Seq<char>,
        id: Seq<char>,
    ) -> bool {
        exists|i: int|
            0 <= i < self.sessions@.len()
                && self.sessions@[i].server_url@ == url
                && (#[trigger] self.sessions@[i]).launch_command@ == cmd
                && self.sessions@[i].id@ != id
    }

    /// An empty store.
    pub fn new() -> (r: Self)
        ensures
            r.sessions@.len() == 0,
            r.store_wf(),
    {
        SessionStore { sessions: Vec::new() }
    }

    fn find_session(&self, session_id: &String) -> (r: Option<usize>)
        ensures
            match r {
                Some(i) => i < self.sessions@.len() && self.sessions@[i as int].id@ == session_id@,
                None => !self.spec_has_id(session_id@),
            },
    {
        let n = self.sessions.len();
        let mut i: usize = 0;
        while i < n
            invariant
                0 <= i <= n,
                n == self.sessions@.len(),
                forall|j: int| 0 <= j < i ==> self.sessions@[j].id@ != session_id@,
            decreases n - i,
        {
            if self.sessions[i].id == *session_id {
                return Some(i);
            }
            i = i + 1;
        }
        None
    }

    fn pair_taken(&self, server_url: &String, launch_command: &String) -> (r: bool)
        ensures
            r == self.spec_has_pair(server_url@, launch_command@),
    {
        let n = self.sessions.len();
        let mut i: usize = 0;
        while i < n
            invariant
                0 <= i <= n,
                n == self.sessions@.len(),
                forall|j: int| 0 <= j < i
                    ==> !(self.sessions@[j].server_url@ == server_url@
                        && (#[trigger] self.sessions@[j]).launch_command@ == launch_command@),
            decreases n - i,
        {
            if self.sessions[i].server_url == *server_url
                && self.sessions[i].launch_command == *launch_command {
                return true;
            }
            i = i + 1;
        }
        false
    }

    fn pair_taken_excluding(
        &self,
        server_url: &String,
        launch_command: &String,
        session_id: &String,
    ) -> (r: bool)
        ensures
            r == self.spec_has_pair_excluding(server_url@, launch_command@, session_id@),
    {
        let n = self.sessions.len();
        let mut i: usize = 0;
        while i < n
            invariant
                0 <= i <= n,
                n == self.sessions@.len(),
                forall|j: int| 0 <= j < i
                    ==> !(self.sessions@[j].server_url@ == server_url@
                        && (#[trigger] self.sessions@[j]).launch_command@ == launch_command@
                        && self.sessions@[j].id@ != session_id@),
            decreases n - i,
        {
            if self.sessions[i].server_url == *server_url
                && self.sessions[i].launch_command == *launch_command
                && !(self.sessions[i].id == *session_id) {
                return true;
            }
            i = i + 1;
        }
        false
    }

    /// Create a session whose id is minted from the given wall-clock
    /// milliseconds. Rejected when another session already uses the same
    /// server url and launch command — and also when a session of the
    /// same minted id already exists, which a second creation within one
    /// millisecond would produce.
    pub fn create_debug_session_at(
        &mut self,
        name: String,
        server_url: String,
        launch_command: String,
        timestamp_millis: u64,
    ) -> (r: Result<String, Error>)
        requires
            old(self).store_wf(),
        ensures
            final(self).store_wf(),
            ({
                let id_seq = "session_"@ + dec_seq(timestamp_millis as nat);
                if old(self).spec_has_pair(server_url@, launch_command@)
                    || old(self).spec_has_id(id_seq) {
                    &&& r matches Err(e) && e is SessionAlreadyExists
                    &&& *final(self) == *old(self)
                } else {
                    &&& r matches Ok(id) && id@ == id_seq
                    &&& final(self).sessions@.len() == old(self).sessions@.len() + 1
                    &&& final(self).sessions@.subrange(0, old(self).sessions@.len() as int)
                        == old(self).sessions@
                    &&& ({
                        let rec = final(self).sessions@.last();
                        &&& rec.id@ == id_seq
                        &&& rec.name == name
                        &&& rec.server_url == server_url
                        &&& rec.launch_command == launch_command
                        &&& rec.status is Created
                        &&& rec.events@.len() == 0
                        &&& rec.modules@.len() == 0
                        &&& rec.threads@.len() == 0
                        &&& rec.current_event is None
                        &&& rec.current_context is None
                        &&& rec.ui_sender_present
                        &&& rec.ui_receiver_present
                        &&& rec.debug_result is None
                    })
                }
            }),
    {
        if self.pair_taken(&server_url, &launch_command) {
            return Err(Error::SessionAlreadyExists);
        }
        proof { reveal_strlit("session_"); }
        let mut session_id = String::from_str("session_");
        let digits = dec_u64(timestamp_millis);
        session_id.append(digits.as_str());
        proof {
            assert(session_id@ =~= "session_"@ + dec_seq(timestamp_millis as nat));
        }
        if let Some(_i) = self.find_session(&session_id) {
            return Err(Error::SessionAlreadyExists);
        }
        let record = SessionStateUI::new(
            session_id.clone(),
            name,
            server_url,
            launch_command,
        );
        self.sessions.push(record);
        proof {
            assert(self.sessions@.subrange(0, old(self).sessions@.len() as int)
                =~= old(self).sessions@);
            assert forall|i: int, j: int| 0 <= i < j < self.sessions@.len()
                implies self.sessions@[i].id@ != self.sessions@[j].id@ by {
                if j == self.sessions@.len() - 1 {
                    assert(self.sessions@[i] == old(self).sessions@[i]);
                }
            }
            assert forall|i: int, j: int| 0 <= i < j < self.sessions@.len()
                implies !(self.sessions@[i].server_url@ == self.sessions@[j].server_url@
                    && self.sessions@[i].launch_command@ == self.sessions@[j].launch_command@) by {
                if j == self.sessions@.len() - 1 {
                    assert(self.sessions@[i] == old(self).sessions@[i]);
                }
            }
        }
        Ok(session_id)
    }

    /// Create a session, minting its id from the wall clock (a negative
    /// clock reading counts as the epoch). Whatever the clock returned, a
    /// duplicate server url and launch command is rejected, and a created
    /// session carries exactly the given identity with a fresh record.
    pub fn create_debug_session(
        &mut self,
        name: String,
        server_url: String,
        launch_command: String,
    ) -> (r: Result<String, Error>)
        requires
            old(self).store_wf(),
        ensures
            final(self).store_wf(),
            old(self).spec_has_pair(server_url@, launch_command@) ==> r is Err,
            match r {
                Err(e) => e is SessionAlreadyExists && *final(self) == *old(self),
                Ok(id) => {
                    &&& !old(self).spec_has_pair(server_url@, launch_command@)
                    &&& final(self).sessions@.len() == old(self).sessions@.len() + 1
                    &&& final(self).sessions@.subrange(0, old(self).sessions@.len() as int)
                        == old(self).sessions@
                    &&& ({
                        let rec = final(self).sessions@.last();
                        &&& rec.id@ == id@
                        &&& id@.len() >= 8 && id@.subrange(0, 8) == "session_"@
                        &&& rec.name == name
                        &&& rec.server_url == server_url
                        &&& rec.launch_command == launch_command
                        &&& rec.status is Created
                        &&& rec.events@.len() == 0
                        &&& rec.modules@.len() == 0
                        &&& rec.threads@.len() == 0
                        &&& rec.current_event is None
                        &&& rec.current_context is None
                        &&& rec.ui_sender_present
                        &&& rec.ui_receiver_present
                        &&& rec.debug_result is None
                    })
                },
            },
    {
        let ts = now_unix_millis();
        let ts_u: u64 = if ts < 0 {
            0
        } else {
            ts as u64
        };
        let r = self.create_debug_session_at(name, server_url, launch_command, ts_u);
        proof {
            if r is Ok {
                reveal_strlit("session_");
                let id_seq = "session_"@ + dec_seq(ts_u as nat);
                assert(id_seq.subrange(0, 8) =~= "session_"@);
            }
        }
        r
    }

    /// Edit a session's identity. Allowed only while the session is at
    /// rest (stopped or in error); the duplicate check excludes the
    /// session itself; everything else of the record is untouched.
    pub fn update_debug_session(
        &mut self,
        session_id: &String,
        name: String,
        server_url: String,
        launch_command: String,
    ) -> (r: Result<(), Error>)
        requires
            old(self).store_wf(),
        ensures
            final(self).store_wf(),
            spec_update_applied(
                *old(self), session_id@, name, server_url, launch_command, *final(self), r,
            ),
    {
        if self.pair_taken_excluding(&server_url, &launch_command, session_id) {
            return Err(Error::SessionAlreadyExists);
        }
        let found = self.find_session(session_id);
        match found {
            None => Err(Error::SessionNotFound(session_id.clone())),
            Some(i) => {
                let at_rest = match &self.sessions[i].status {
                    SessionStatusUI::Stopped => true,
                    SessionStatusUI::Error(_) => true,
                    _ => false,
                };
                if !at_rest {
                    proof {
                        reveal_strlit("Session can only be edited when stopped or in error");
                    }
                    return Err(Error::InvalidSessionState(
                        String::from_str("Session can only be edited when stopped or in error"),
                    ));
                }
                let mut rec = self.sessions.remove(i);
                rec.name = name;
                rec.server_url = server_url;
                rec.launch_command = launch_command;
                self.sessions.insert(i, rec);
                proof {
                    assert(forall|j: int| 0 <= j < old(self).sessions@.len() && j != i
                        ==> final(self).sessions@[j] == old(self).sessions@[j]);
                    assert forall|a: int, b: int| 0 <= a < b < self.sessions@.len()
                        implies self.sessions@[a].id@ != self.sessions@[b].id@ by {
                        if a != i && b != i {
                            assert(self.sessions@[a] == old(self).sessions@[a]);
                            assert(self.sessions@[b] == old(self).sessions@[b]);
                        }
                    }
                    assert forall|a: int, b: int| 0 <= a < b < self.sessions@.len()
                        implies !(self.sessions@[a].server_url@ == self.sessions@[b].server_url@
                            && self.sessions@[a].launch_command@
                                == self.sessions@[b].launch_command@) by {
                        if a != i && b != i {
                            assert(self.sessions@[a] == old(self).sessions@[a]);
                            assert(self.sessions@[b] == old(self).sessions@[b]);
                        } else if a == i {
                            assert(self.sessions@[b] == old(self).sessions@[b]);
                            assert(old(self).sessions@[b].id@ != session_id@);
                        } else {
                            assert(self.sessions@[a] == old(self).sessions@[a]);
                            assert(old(self).sessions@[a].id@ != session_id@);
                        }
                    }
                }
                Ok(())
            },
        }
    }

    /// The snapshot of one session, if it exists.
    pub fn get_debug_session(&self, session_id: &String) -> (r: Option<DebugSessionUI>)
        ensures
            match r {
                None => !self.spec_has_id(session_id@),
                Some(snap) => exists|i: int|
                    0 <= i < self.sessions@.len()
                        && (#[trigger] self.sessions@[i]).id@ == session_id@
                        && spec_snapshot_matches(self.sessions@[i], snap),
            },
    {
        match self.find_session(session_id) {
            None => None,
            Some(i) => Some(self.sessions[i].to_debug_session()),
        }
    }

    /// The snapshots of all sessions, in store order.
    pub fn get_debug_sessions(&self) -> (r: Vec<DebugSessionUI>)
        ensures
            r@.len() == self.sessions@.len(),
            forall|i: int| 0 <= i < self.sessions@.len()
                ==> spec_snapshot_matches(self.sessions@[i], #[trigger] r@[i]),
    {
        let n = self.sessions.len();
        let mut out: Vec<DebugSessionUI> = Vec::new();
        let mut i: usize = 0;
        while i < n
            invariant
                0 <= i <= n,
                n == self.sessions@.len(),
                out@.len() == i,
                forall|k: int| 0 <= k < i
                    ==> spec_snapshot_matches(self.sessions@[k], #[trigger] out@[k]),
            decreases n - i,
        {
            let snap = self.sessions[i].to_debug_session();
            out.push(snap);
            i = i + 1;
        }
        out
    }

    /// Take the session's queue sender, so that the host can signal stop
    /// and drop it. Finding no session, or no sender, is itself success:
    /// the session is as stopped as it can be.
    pub fn stop_debug_session(&mut self, session_id: &String) -> (r: StopSignal)
        requires
            old(self).store_wf(),
        ensures
            final(self).store_wf(),
            spec_stop_applied(*old(self), session_id@, *final(self), r),
    {
        match self.find_session(session_id) {
            None => {
                StopSignal { found: false, had_sender: false }
            },
            Some(i) => {
                let mut rec = self.sessions.remove(i);
                let had_sender = rec.ui_sender_present;
                rec.ui_sender_present = false;
                self.sessions.insert(i, rec);
                proof {
                    assert(final(self).sessions@.len() == old(self).sessions@.len());
                    assert forall|a: int, b: int| 0 <= a < b < self.sessions@.len()
                        implies self.sessions@[a].id@ != self.sessions@[b].id@ by {
                        assert(self.sessions@[a].id@ == old(self).sessions@[a].id@);
                        assert(self.sessions@[b].id@ == old(self).sessions@[b].id@);
                    }
                    assert forall|a: int, b: int| 0 <= a < b < self.sessions@.len()
                        implies !(self.sessions@[a].server_url@ == self.sessions@[b].server_url@
                            && self.sessions@[a].launch_command@
                                == self.sessions@[b].launch_command@) by {
                        assert(self.sessions@[a].server_url@ == old(self).sessions@[a].server_url@
                            && self.sessions@[a].launch_command@
                                == old(self).sessions@[a].launch_command@);
                        assert(self.sessions@[b].server_url@ == old(self).sessions@[b].server_url@
                            && self.sessions@[b].launch_command@
                                == old(self).sessions@[b].launch_command@);
                    }
                }
                StopSignal { found: true, had_sender }
            },
        }
    }

    /// Remove the session outright. Idempotent: removing an unknown id is
    /// success and changes nothing. The host signals stop first and emits
    /// `session-removed` exactly when this returns true.
    pub fn delete_debug_session(&mut self, session_id: &String) -> (removed: bool)
        requires
            old(self).store_wf(),
        ensures
            final(self).store_wf(),
            removed == old(self).spec_has_id(session_id@),
            final(self).sessions@ == spec_sessions_without(old(self).sessions@, session_id@),
    {
        match self.find_session(session_id) {
            None => {
                proof {
                    lemma_sessions_without_absent(self.sessions@, session_id@);
                }
                false
            },
            Some(i) => {
                self.sessions.remove(i);
                proof {
                    lemma_sessions_without_unique_remove(
                        old(self).sessions@, session_id@, i as int,
                    );
                    assert forall|a: int, b: int| 0 <= a < b < self.sessions@.len()
                        implies self.sessions@[a].id@ != self.sessions@[b].id@ by {
                        lemma_remove_keeps(old(self).sessions@, i as int, a);
                        lemma_remove_keeps(old(self).sessions@, i as int, b);
                    }
                    assert forall|a: int, b: int| 0 <= a < b < self.sessions@.len()
                        implies !(self.sessions@[a].server_url@ == self.sessions@[b].server_url@
                            && self.sessions@[a].launch_command@
                                == self.sessions@[b].launch_command@) by {
                        lemma_remove_keeps(old(self).sessions@, i as int, a);
                        lemma_remove_keeps(old(self).sessions@, i as int, b);
                    }
                }
                true
            },
        }
    }
}

/// The architecture a context reveals, with the host's own as fallback.
pub open spec fn spec_arch_of(
    ctx: Option<SerializableThreadContext>,
    dflt: Architecture,
) -> Architecture {
    match ctx {
        Some(SerializableThreadContext::X64(_)) => Architecture::X64,
        Some(SerializableThreadContext::Arm64(_)) => Architecture::Arm64,
        None => dflt,
    }
}

/// Whether `d` renders module `m` for the module listing: the base in
/// upper-case hex, an unknown size as zero, the name doubling as path.
pub open spec fn spec_module_data_matches(m: ModuleInfo, d: ModuleData) -> bool {
    &&& d.name@ == m.name@
    &&& d.base_address@ == "0x"@ + hex_seq_upper(m.base as nat)
    &&& d.size == (match m.size {
        Some(s) => s,
        None => 0u64,
    })
    &&& d.path@ == m.name@
}

/// Whether `d` renders thread `t` for the thread listing.
pub open spec fn spec_thread_data_matches(t: ThreadInfo, d: ThreadData) -> bool {
    &&& d.id == t.tid
    &&& d.status@ == "Running"@
    &&& d.start_address@ == "0x"@ + hex_seq_upper(t.start_address as nat)
}

/// Which of the paused-command preconditions a session meets.
enum GateCheck {
    Ready(usize),
    NotFound,
    NotPaused,
    NoSender,
}

impl SessionStore {
    /// Whether the session exists, is paused, and still has its queue
    /// sender: exactly the state in which a step or query command can be
    /// delivered to its control loop.
    pub open spec fn spec_paused_ready(self, sid: Seq<char>) -> bool {
        exists|i: int|
            0 <= i < self.sessions@.len()
                && (#[trigger] self.sessions@[i]).id@ == sid
                && self.sessions@[i].status is Paused
                && self.sessions@[i].ui_sender_present
    }

    /// Whether the session exists but is not paused.
    pub open spec fn spec_found_not_paused(self, sid: Seq<char>) -> bool {
        exists|i: int|
            0 <= i < self.sessions@.len()
                && (#[trigger] self.sessions@[i]).id@ == sid
                && !(self.sessions@[i].status is Paused)
    }

    /// Whether the session is paused but its queue sender is gone.
    pub open spec fn spec_paused_no_sender(self, sid: Seq<char>) -> bool {
        exists|i: int|
            0 <= i < self.sessions@.len()
                && (#[trigger] self.sessions@[i]).id@ == sid
                && self.sessions@[i].status is Paused
                && !self.sessions@[i].ui_sender_present
    }

    fn paused_gate(&self, session_id: &String) -> (g: GateCheck)
        ensures
            match g {
                GateCheck::Ready(i) => {
                    &&& i < self.sessions@.len()
                    &&& self.sessions@[i as int].id@ == session_id@
                    &&& self.sessions@[i as int].status is Paused
                    &&& self.sessions@[i as int].ui_sender_present
                },
                GateCheck::NotFound => !self.spec_has_id(session_id@),
                GateCheck::NotPaused => self.spec_found_not_paused(session_id@),
                GateCheck::NoSender => self.spec_paused_no_sender(session_id@),
            },
            self.spec_paused_ready(session_id@) && self.store_wf() ==> g is Ready,
    {
        match self.find_session(session_id) {
            None => GateCheck::NotFound,
            Some(i) => {
                let paused = match &self.sessions[i].status {
                    SessionStatusUI::Paused => true,
                    _ => false,
                };
                if !paused {
                    proof {
                        if self.spec_paused_ready(session_id@) && self.store_wf() {
                            let k = choose|k: int|
                                0 <= k < self.sessions@.len()
                                    && (#[trigger] self.sessions@[k]).id@ == session_id@
                                    && self.sessions@[k].status is Paused
                                    && self.sessions@[k].ui_sender_present;
                            assert(k == i);
                        }
                    }
                    GateCheck::NotPaused
                } else if !self.sessions[i].ui_sender_present {
                    proof {
                        if self.spec_paused_ready(session_id@) && self.store_wf() {
                            let k = choose|k: int|
                                0 <= k < self.sessions@.len()
                                    && (#[trigger] self.sessions@[k]).id@ == session_id@
                                    && self.sessions@[k].status is Paused
                                    && self.sessions@[k].ui_sender_present;
                            assert(k == i);
                        }
                    }
                    GateCheck::NoSender
                } else {
                    GateCheck::Ready(i)
                }
            },
        }
    }
}

/// Whether the error side of a paused-command gate is the right one: the
/// id was absent, the session was not paused (with the command's own
/// message), or the paused session had lost its queue sender.
pub open spec fn spec_gate_error(
    store: SessionStore,
    sid: Seq<char>,
    e: Error,
    not_paused_msg: Seq<char>,
    no_sender_msg: Seq<char>,
) -> bool {
    ||| (e matches Error::SessionNotFound(m) && m@ == sid && !store.spec_has_id(sid))
    ||| (e matches Error::InvalidSessionState(m) && m@ == not_paused_msg
        && store.spec_found_not_paused(sid))
    ||| (e matches Error::InternalCommunication(m) && m@ == no_sender_msg
        && store.spec_paused_no_sender(sid))
}

impl SessionStore {
    fn gate_error(&self, session_id: &String, g: GateCheck, not_paused_msg: &str) -> (e: Error)
        requires
            !(g is Ready),
            match g {
                GateCheck::NotFound => !self.spec_has_id(session_id@),
                GateCheck::NotPaused => self.spec_found_not_paused(session_id@),
                GateCheck::NoSender => self.spec_paused_no_sender(session_id@),
                GateCheck::Ready(_) => false,
            },
        ensures
            spec_gate_error(
                *self, session_id@, e, not_paused_msg@,
                "Session UI sender not available"@,
            ),
    {
        match g {
            GateCheck::NotFound => Error::SessionNotFound(session_id.clone()),
            GateCheck::NotPaused => {
                Error::InvalidSessionState(not_paused_msg.to_owned())
            },
            _ => {
                proof { reveal_strlit("Session UI sender not available"); }
                Error::InternalCommunication(
                    String::from_str("Session UI sender not available"),
                )
            },
        }
    }

    /// Admit a continue command: only a paused session with a live queue
    /// can be resumed.
    pub fn step_debug_session(&self, session_id: &String) -> (r: Result<UICommand, Error>)
        ensures
            self.store_wf() && self.spec_paused_ready(session_id@) ==> r is Ok,
            match r {
                Ok(cmd) => self.spec_paused_ready(session_id@) && cmd is Go,
                Err(e) => spec_gate_error(
                    *self, session_id@, e,
                    "Session must be paused to step"@,
                    "Session UI sender not available"@,
                ),
            },
    {
        proof { reveal_strlit("Session must be paused to step"); }
        match self.paused_gate(session_id) {
            GateCheck::Ready(_i) => Ok(UICommand::Go),
            g => Err(self.gate_error(session_id, g, "Session must be paused to step")),
        }
    }

    /// Admit a step-in command.
    pub fn step_in_debug_session(&self, session_id: &String) -> (r: Result<UICommand, Error>)
        ensures
            self.store_wf() && self.spec_paused_ready(session_id@) ==> r is Ok,
            match r {
                Ok(cmd) => self.spec_paused_ready(session_id@) && cmd is StepIn,
                Err(e) => spec_gate_error(
                    *self, session_id@, e,
                    "Session must be paused to step in"@,
                    "Session UI sender not available"@,
                ),
            },
    {
        proof { reveal_strlit("Session must be paused to step in"); }
        match self.paused_gate(session_id) {
            GateCheck::Ready(_i) => Ok(UICommand::StepIn),
            g => Err(self.gate_error(session_id, g, "Session must be paused to step in")),
        }
    }

    /// Admit a step-over command.
    pub fn step_over_debug_session(&self, session_id: &String) -> (r: Result<UICommand, Error>)
        ensures
            self.store_wf() && self.spec_paused_ready(session_id@) ==> r is Ok,
            match r {
                Ok(cmd) => self.spec_paused_ready(session_id@) && cmd is StepOver,
                Err(e) => spec_gate_error(
                    *self, session_id@, e,
                    "Session must be paused to step over"@,
                    "Session UI sender not available"@,
                ),
            },
    {
        proof { reveal_strlit("Session must be paused to step over"); }
        match self.paused_gate(session_id) {
            GateCheck::Ready(_i) => Ok(UICommand::StepOver),
            g => Err(self.gate_error(session_id, g, "Session must be paused to step over")),
        }
    }

    /// Admit a step-out command.
    pub fn step_out_debug_session(&self, session_id: &String) -> (r: Result<UICommand, Error>)
        ensures
            self.store_wf() && self.spec_paused_ready(session_id@) ==> r is Ok,
            match r {
                Ok(cmd) => self.spec_paused_ready(session_id@) && cmd is StepOut,
                Err(e) => spec_gate_error(
                    *self, session_id@, e,
                    "Session must be paused to step out"@,
                    "Session UI sender not available"@,
                ),
            },
    {
        proof { reveal_strlit("Session must be paused to step out"); }
        match self.paused_gate(session_id) {
            GateCheck::Ready(_i) => Ok(UICommand::StepOut),
            g => Err(self.gate_error(session_id, g, "Session must be paused to step out")),
        }
    }

    /// Admit a disassembly request. The architecture comes from the
    /// session's current register context, or from the host's own when no
    /// context is held.
    pub fn request_disassembly(
        &self,
        session_id: &String,
        address: u64,
        count: u32,
        default_arch: Architecture,
    ) -> (r: Result<UICommand, Error>)
        ensures
            self.store_wf() && self.spec_paused_ready(session_id@) ==> r is Ok,
            match r {
                Ok(cmd) => self.spec_paused_ready(session_id@)
                    && exists|i: int|
                        0 <= i < self.sessions@.len()
                            && (#[trigger] self.sessions@[i]).id@ == session_id@
                            && self.sessions@[i].status is Paused
                            && self.sessions@[i].ui_sender_present
                            && cmd == (UICommand::Disassembly {
                                arch: spec_arch_of(
                                    self.sessions@[i].current_context, default_arch,
                                ),
                                address,
                                count,
                            }),
                Err(e) => spec_gate_error(
                    *self, session_id@, e,
                    "Session must be paused to get disassembly"@,
                    "Session UI sender not available"@,
                ),
            },
    {
        proof { reveal_strlit("Session must be paused to get disassembly"); }
        match self.paused_gate(session_id) {
            GateCheck::Ready(i) => {
                let arch = match &self.sessions[i].current_context {
                    Some(SerializableThreadContext::X64(_)) => Architecture::X64,
                    Some(SerializableThreadContext::Arm64(_)) => Architecture::Arm64,
                    None => default_arch,
                };
                Ok(UICommand::Disassembly { arch, address, count })
            },
            g => Err(self.gate_error(
                session_id, g, "Session must be paused to get disassembly",
            )),
        }
    }

    /// Admit a call-stack request.
    pub fn request_session_callstack(&self, session_id: &String) -> (r: Result<UICommand, Error>)
        ensures
            self.store_wf() && self.spec_paused_ready(session_id@) ==> r is Ok,
            match r {
                Ok(cmd) => self.spec_paused_ready(session_id@) && cmd is GetCallStack,
                Err(e) => spec_gate_error(
                    *self, session_id@, e,
                    "Session must be paused to get call stack"@,
                    "Session UI sender not available"@,
                ),
            },
    {
        proof { reveal_strlit("Session must be paused to get call stack"); }
        match self.paused_gate(session_id) {
            GateCheck::Ready(_i) => Ok(UICommand::GetCallStack),
            g => Err(self.gate_error(
                session_id, g, "Session must be paused to get call stack",
            )),
        }
    }

    /// Admit a symbol search; an absent limit defaults to thirty hits.
    pub fn search_session_symbols(
        &self,
        session_id: &String,
        pattern: String,
        limit: Option<u32>,
    ) -> (r: Result<UICommand, Error>)
        ensures
            self.store_wf() && self.spec_paused_ready(session_id@) ==> r is Ok,
            match r {
                Ok(cmd) => self.spec_paused_ready(session_id@)
                    && (cmd matches UICommand::SearchSymbols { pattern: p, limit: l }
                        && p@ == pattern@
                        && l == (match limit {
                            Some(v) => v,
                            None => 30u32,
                        })),
                Err(e) => spec_gate_error(
                    *self, session_id@, e,
                    "Session must be paused to search symbols"@,
                    "Session UI sender not available"@,
                ),
            },
    {
        proof { reveal_strlit("Session must be paused to search symbols"); }
        match self.paused_gate(session_id) {
            GateCheck::Ready(_i) => {
                let l = match limit {
                    Some(v) => v,
                    None => 30,
                };
                Ok(UICommand::SearchSymbols { pattern, limit: l })
            },
            g => Err(self.gate_error(
                session_id, g, "Session must be paused to search symbols",
            )),
        }
    }

    /// Admit a memory read.
    pub fn read_memory(
        &self,
        session_id: &String,
        address: u64,
        size: usize,
    ) -> (r: Result<UICommand, Error>)
        ensures
            self.store_wf() && self.spec_paused_ready(session_id@) ==> r is Ok,
            match r {
                Ok(cmd) => self.spec_paused_ready(session_id@)
                    && cmd == (UICommand::ReadMemory { address, size }),
                Err(e) => spec_gate_error(
                    *self, session_id@, e,
                    "Session must be paused to read memory"@,
                    "Session UI sender not available"@,
                ),
            },
    {
        proof { reveal_strlit("Session must be paused to read memory"); }
        match self.paused_gate(session_id) {
            GateCheck::Ready(_i) => Ok(UICommand::ReadMemory { address, size }),
            g => Err(self.gate_error(session_id, g, "Session must be paused to read memory")),
        }
    }

    /// Admit a memory write.
    pub fn write_memory(
        &self,
        session_id: &String,
        address: u64,
        data: Vec<u8>,
    ) -> (r: Result<UICommand, Error>)
        ensures
            self.store_wf() && self.spec_paused_ready(session_id@) ==> r is Ok,
            match r {
                Ok(cmd) => self.spec_paused_ready(session_id@)
                    && (cmd matches UICommand::WriteMemory { address: a, data: d }
                        && a == address && d@ == data@),
                Err(e) => spec_gate_error(
                    *self, session_id@, e,
                    "Session must be paused to write memory"@,
                    "Session UI sender not available"@,
                ),
            },
    {
        proof { reveal_strlit("Session must be paused to write memory"); }
        match self.paused_gate(session_id) {
            GateCheck::Ready(_i) => Ok(UICommand::WriteMemory { address, data }),
            g => Err(self.gate_error(session_id, g, "Session must be paused to write memory")),
        }
    }

    /// Admit a memory-regions enumeration.
    pub fn get_memory_regions(&self, session_id: &String) -> (r: Result<UICommand, Error>)
        ensures
            self.store_wf() && self.spec_paused_ready(session_id@) ==> r is Ok,
            match r {
                Ok(cmd) => self.spec_paused_ready(session_id@) && cmd is GetMemoryRegions,
                Err(e) => spec_gate_error(
                    *self, session_id@, e,
                    "Session must be paused to get memory regions"@,
                    "Session UI sender not available"@,
                ),
            },
    {
        proof { reveal_strlit("Session must be paused to get memory regions"); }
        match self.paused_gate(session_id) {
            GateCheck::Ready(_i) => Ok(UICommand::GetMemoryRegions),
            g => Err(self.gate_error(
                session_id, g, "Session must be paused to get memory regions",
            )),
        }
    }
}

/// What an edit does to the store. A pair already used by another session
/// is rejected first; an unknown id next; a session not at rest (neither
/// stopped nor in error) next. Otherwise only the named session's
/// identity fields change.
pub open spec fn spec_update_applied(
    old_s: SessionStore,
    sid: Seq<char>,
    name: String,
    server_url: String,
    launch_command: String,
    new_s: SessionStore,
    r: Result<(), Error>,
) -> bool {
    if old_s.spec_has_pair_excluding(server_url@, launch_command@, sid) {
        r matches Err(e) && e is SessionAlreadyExists && new_s == old_s
    } else if !old_s.spec_has_id(sid) {
        r matches Err(e) && e matches Error::SessionNotFound(m) && m@ == sid && new_s == old_s
    } else {
        forall|i: int|
            0 <= i < old_s.sessions@.len() && (#[trigger] old_s.sessions@[i]).id@ == sid
                ==> spec_update_at(old_s, i, name, server_url, launch_command, new_s, r)
    }
}

/// The edit applied at the index holding the session: allowed at rest,
/// rejected otherwise.
pub open spec fn spec_update_at(
    old_s: SessionStore,
    i: int,
    name: String,
    server_url: String,
    launch_command: String,
    new_s: SessionStore,
    r: Result<(), Error>,
) -> bool {
    if spec_is_at_rest(old_s.sessions@[i].status) {
        &&& r is Ok
        &&& new_s.sessions@.len() == old_s.sessions@.len()
        &&& forall|j: int|
            0 <= j < old_s.sessions@.len() && j != i
                ==> new_s.sessions@[j] == old_s.sessions@[j]
        &&& new_s.sessions@[i] == (SessionStateUI {
            name: name,
            server_url: server_url,
            launch_command: launch_command,
            ..old_s.sessions@[i]
        })
    } else {
        &&& r matches Err(e) && e matches Error::InvalidSessionState(m)
            && m@ == "Session can only be edited when stopped or in error"@
        &&& new_s == old_s
    }
}

impl SessionStore {
    /// Ready a session for a run: unknown ids are rejected, as is a
    /// session whose queue receiver is already taken (it is running); a
    /// session at rest is reset for the new run. The host then spawns the
    /// control loop, which takes the receiver through `begin_run`.
    pub fn start_debug_session(&mut self, session_id: &String) -> (r: Result<(), Error>)
        requires
            old(self).store_wf(),
        ensures
            final(self).store_wf(),
            spec_start_applied(*old(self), session_id@, *final(self), r),
    {
        match self.find_session(session_id) {
            None => Err(Error::SessionNotFound(session_id.clone())),
            Some(i) => {
                if !self.sessions[i].ui_receiver_present {
                    proof { reveal_strlit("Session is already running"); }
                    return Err(Error::InvalidSessionState(
                        String::from_str("Session is already running"),
                    ));
                }
                let at_rest = match &self.sessions[i].status {
                    SessionStatusUI::Stopped => true,
                    SessionStatusUI::Error(_) => true,
                    _ => false,
                };
                if at_rest {
                    let mut rec = self.sessions.remove(i);
                    rec.reset();
                    self.sessions.insert(i, rec);
                    proof {
                        assert forall|a: int, b: int| 0 <= a < b < self.sessions@.len()
                            implies self.sessions@[a].id@ != self.sessions@[b].id@ by {
                            assert(self.sessions@[a].id@ == old(self).sessions@[a].id@);
                            assert(self.sessions@[b].id@ == old(self).sessions@[b].id@);
                        }
                        assert forall|a: int, b: int| 0 <= a < b < self.sessions@.len()
                            implies !(self.sessions@[a].server_url@
                                == self.sessions@[b].server_url@
                                && self.sessions@[a].launch_command@
                                    == self.sessions@[b].launch_command@) by {
                            assert(self.sessions@[a].server_url@
                                == old(self).sessions@[a].server_url@
                                && self.sessions@[a].launch_command@
                                    == old(self).sessions@[a].launch_command@);
                            assert(self.sessions@[b].server_url@
                                == old(self).sessions@[b].server_url@
                                && self.sessions@[b].launch_command@
                                    == old(self).sessions@[b].launch_command@);
                        }
                    }
                }
                Ok(())
            },
        }
    }

    /// Record which auxiliary pane the front-end opened or closed.
    pub fn update_window_state(
        &mut self,
        session_id: &String,
        window_type: &String,
        is_open: bool,
    ) -> (r: Result<(), Error>)
        requires
            old(self).store_wf(),
        ensures
            final(self).store_wf(),
            spec_window_state_applied(
                *old(self), session_id@, window_type@, is_open, *final(self), r,
            ),
    {
        let disassembly = String::from_str("disassembly");
        let registers = String::from_str("registers");
        let callstack = String::from_str("callstack");
        match self.find_session(session_id) {
            None => Err(Error::SessionNotFound(session_id.clone())),
            Some(i) => {
                proof {
                    assert forall|k: int|
                        0 <= k < self.sessions@.len()
                            && (#[trigger] self.sessions@[k]).id@ == session_id@
                        implies k == i by {
                        if k < i {
                            assert(self.sessions@[k].id@ != self.sessions@[i as int].id@);
                        } else if k > i {
                            assert(self.sessions@[i as int].id@ != self.sessions@[k].id@);
                        }
                    }
                }
                let is_dis = *window_type == disassembly;
                let is_reg = *window_type == registers;
                let is_cal = *window_type == callstack;
                if !is_dis && !is_reg && !is_cal {
                    proof { reveal_strlit("Unknown window type: "); }
                    let mut m = String::from_str("Unknown window type: ");
                    m.append(window_type.as_str());
                    proof {
                        assert(m@ =~= "Unknown window type: "@ + window_type@);
                    }
                    return Err(Error::InvalidSessionState(m));
                }
                let mut rec = self.sessions.remove(i);
                if is_dis {
                    rec.is_disassembly_window_open = is_open;
                } else if is_reg {
                    rec.is_registers_window_open = is_open;
                } else {
                    rec.is_callstack_window_open = is_open;
                }
                let ghost recg = rec;
                self.sessions.insert(i, rec);
                proof {
                    reveal_strlit("disassembly");
                    reveal_strlit("registers");
                    reveal_strlit("callstack");
                    assert("disassembly"@.len() == 11);
                    assert("registers"@.len() == 9);
                    assert("callstack"@.len() == 9);
                    assert("registers"@[0] == 'r');
                    assert("callstack"@[0] == 'c');
                    assert("disassembly"@ != "callstack"@ && "registers"@ != "callstack"@
                        && "disassembly"@ != "registers"@);
                    assert(self.sessions@[i as int] == recg);
                    assert(window_type@ == "callstack"@
                        ==> recg.is_callstack_window_open == is_open);
                    assert(window_type@ == "registers"@
                        ==> recg.is_registers_window_open == is_open);
                    assert(window_type@ == "disassembly"@
                        ==> recg.is_disassembly_window_open == is_open);
                    assert(self.sessions@.len() == old(self).sessions@.len());
                    assert forall|a: int, b: int| 0 <= a < b < self.sessions@.len()
                        implies self.sessions@[a].id@ != self.sessions@[b].id@ by {
                        assert(self.sessions@[a].id@ == old(self).sessions@[a].id@);
                        assert(self.sessions@[b].id@ == old(self).sessions@[b].id@);
                    }
                    assert forall|a: int, b: int| 0 <= a < b < self.sessions@.len()
                        implies !(self.sessions@[a].server_url@ == self.sessions@[b].server_url@
                            && self.sessions@[a].launch_command@
                                == self.sessions@[b].launch_command@) by {
                        assert(self.sessions@[a].server_url@ == old(self).sessions@[a].server_url@
                            && self.sessions@[a].launch_command@
                                == old(self).sessions@[a].launch_command@);
                        assert(self.sessions@[b].server_url@ == old(self).sessions@[b].server_url@
                            && self.sessions@[b].launch_command@
                                == old(self).sessions@[b].launch_command@);
                    }
                }
                Ok(())
            },
        }
    }

    /// List a session's loaded modules.
    pub fn get_session_modules(&self, session_id: &String) -> (r: Result<Vec<ModuleData>, Error>)
        ensures
            match r {
                Err(e) => e matches Error::SessionNotFound(m) && m@ == session_id@
                    && !self.spec_has_id(session_id@),
                Ok(out) => exists|i: int|
                    0 <= i < self.sessions@.len()
                        && (#[trigger] self.sessions@[i]).id@ == session_id@
                        && out@.len() == self.sessions@[i].modules@.len()
                        && (forall|k: int| 0 <= k < out@.len()
                            ==> spec_module_data_matches(
                                self.sessions@[i].modules@[k], #[trigger] out@[k],
                            )),
            },
    {
        match self.find_session(session_id) {
            None => Err(Error::SessionNotFound(session_id.clone())),
            Some(i) => {
                let modules = &self.sessions[i].modules;
                let n = modules.len();
                let mut out: Vec<ModuleData> = Vec::new();
                let mut k: usize = 0;
                while k < n
                    invariant
                        0 <= k <= n,
                        n == modules@.len(),
                        out@.len() == k,
                        forall|j: int| 0 <= j < k
                            ==> spec_module_data_matches(modules@[j], #[trigger] out@[j]),
                    decreases n - k,
                {
                    let m = &modules[k];
                    proof { reveal_strlit("0x"); }
                    let mut base_address = String::from_str("0x");
                    let digits = hex_upper(m.base);
                    base_address.append(digits.as_str());
                    proof {
                        assert(base_address@ =~= "0x"@ + hex_seq_upper(m.base as nat));
                    }
                    let size = match m.size {
                        Some(s) => s,
                        None => 0,
                    };
                    out.push(ModuleData {
                        name: m.name.clone(),
                        base_address,
                        size,
                        path: m.name.clone(),
                    });
                    k = k + 1;
                }
                Ok(out)
            },
        }
    }

    /// List a session's live threads.
    pub fn get_session_threads(&self, session_id: &String) -> (r: Result<Vec<ThreadData>, Error>)
        ensures
            match r {
                Err(e) => e matches Error::SessionNotFound(m) && m@ == session_id@
                    && !self.spec_has_id(session_id@),
                Ok(out) => exists|i: int|
                    0 <= i < self.sessions@.len()
                        && (#[trigger] self.sessions@[i]).id@ == session_id@
                        && out@.len() == self.sessions@[i].threads@.len()
                        && (forall|k: int| 0 <= k < out@.len()
                            ==> spec_thread_data_matches(
                                self.sessions@[i].threads@[k], #[trigger] out@[k],
                            )),
            },
    {
        match self.find_session(session_id) {
            None => Err(Error::SessionNotFound(session_id.clone())),
            Some(i) => {
                let threads = &self.sessions[i].threads;
                let n = threads.len();
                let mut out: Vec<ThreadData> = Vec::new();
                let mut k: usize = 0;
                proof { reveal_strlit("Running"); }
                while k < n
                    invariant
                        0 <= k <= n,
                        n == threads@.len(),
                        out@.len() == k,
                        forall|j: int| 0 <= j < k
                            ==> spec_thread_data_matches(threads@[j], #[trigger] out@[j]),
                    decreases n - k,
                {
                    let t = threads[k];
                    proof { reveal_strlit("0x"); }
                    let mut start_address = String::from_str("0x");
                    let digits = hex_upper(t.start_address);
                    start_address.append(digits.as_str());
                    proof {
                        assert(start_address@ =~= "0x"@ + hex_seq_upper(t.start_address as nat));
                    }
                    out.push(ThreadData {
                        id: t.tid,
                        status: String::from_str("Running"),
                        start_address,
                    });
                    k = k + 1;
                }
                Ok(out)
            },
        }
    }
}

/// What readying a session for a run does: an unknown id or a session
/// already running is rejected; a session at rest is reset; a freshly
/// created one is started as it stands.
pub open spec fn spec_start_applied(
    old_s: SessionStore,
    sid: Seq<char>,
    new_s: SessionStore,
    r: Result<(), Error>,
) -> bool {
    if !old_s.spec_has_id(sid) {
        r matches Err(e) && e matches Error::SessionNotFound(m) && m@ == sid && new_s == old_s
    } else {
        forall|i: int|
            0 <= i < old_s.sessions@.len() && (#[trigger] old_s.sessions@[i]).id@ == sid
                ==> spec_start_at(old_s, i, new_s, r)
    }
}

/// Readying applied at the index holding the session.
pub open spec fn spec_start_at(
    old_s: SessionStore,
    i: int,
    new_s: SessionStore,
    r: Result<(), Error>,
) -> bool {
    let rec = old_s.sessions@[i];
    if !rec.ui_receiver_present {
        &&& r matches Err(e) && e matches Error::InvalidSessionState(m)
            && m@ == "Session is already running"@
        &&& new_s == old_s
    } else if spec_is_at_rest(rec.status) {
        &&& r is Ok
        &&& new_s.sessions@.len() == old_s.sessions@.len()
        &&& forall|j: int|
            0 <= j < old_s.sessions@.len() && j != i
                ==> new_s.sessions@[j] == old_s.sessions@[j]
        &&& ({
            let nr = new_s.sessions@[i];
            &&& nr.id == rec.id
            &&& nr.name == rec.name
            &&& nr.server_url == rec.server_url
            &&& nr.launch_command == rec.launch_command
            &&& nr.created_at == rec.created_at
            &&& nr.status is Created
            &&& nr.events@.len() == 0
            &&& nr.modules@.len() == 0
            &&& nr.threads@.len() == 0
            &&& nr.current_event is None
            &&& nr.current_context is None
            &&& nr.ui_sender_present
            &&& nr.ui_receiver_present
            &&& nr.debug_result is None
        })
    } else {
        &&& r is Ok
        &&& new_s == old_s
    }
}

/// What a window-state change does: an unknown session or pane name is
/// rejected; otherwise only the named pane flag of the named session
/// changes.
pub open spec fn spec_window_state_applied(
    old_s: SessionStore,
    sid: Seq<char>,
    window: Seq<char>,
    is_open: bool,
    new_s: SessionStore,
    r: Result<(), Error>,
) -> bool {
    if !old_s.spec_has_id(sid) {
        r matches Err(e) && e matches Error::SessionNotFound(m) && m@ == sid && new_s == old_s
    } else {
        forall|i: int|
            0 <= i < old_s.sessions@.len() && (#[trigger] old_s.sessions@[i]).id@ == sid
                ==> spec_window_state_at(old_s, i, window, is_open, new_s, r)
    }
}

/// The window-state change applied at the index holding the session.
pub open spec fn spec_window_state_at(
    old_s: SessionStore,
    i: int,
    window: Seq<char>,
    is_open: bool,
    new_s: SessionStore,
    r: Result<(), Error>,
) -> bool {
    let rec = old_s.sessions@[i];
    let known = window == "disassembly"@ || window == "registers"@ || window == "callstack"@;
    if known {
        &&& r is Ok
        &&& new_s.sessions@.len() == old_s.sessions@.len()
        &&& forall|j: int|
            0 <= j < old_s.sessions@.len() && j != i
                ==> new_s.sessions@[j] == old_s.sessions@[j]
        &&& new_s.sessions@[i] == (SessionStateUI {
            is_disassembly_window_open: if window == "disassembly"@ {
                is_open
            } else {
                rec.is_disassembly_window_open
            },
            is_registers_window_open: if window == "registers"@ {
                is_open
            } else {
                rec.is_registers_window_open
            },
            is_callstack_window_open: if window == "callstack"@ {
                is_open
            } else {
                rec.is_callstack_window_open
            },
            ..rec
        })
    } else {
        &&& r matches Err(e) && e matches Error::InvalidSessionState(m)
            && m@ == "Unknown window type: "@ + window
        &&& new_s == old_s
    }
}

/// What a stop request does to the store: nothing at all for an unknown
/// id; for a known one, only that session's sender flag is cleared, and
/// the signal reports whether it was set.
pub open spec fn spec_stop_applied(
    old_s: SessionStore,
    id: Seq<char>,
    new_s: SessionStore,
    r: StopSignal,
) -> bool {
    if !old_s.spec_has_id(id) {
        &&& new_s == old_s
        &&& r == (StopSignal { found: false, had_sender: false })
    } else {
        &&& r.found
        &&& new_s.sessions@.len() == old_s.sessions@.len()
        &&& forall|i: int| 0 <= i < old_s.sessions@.len()
            && (#[trigger] old_s.sessions@[i]).id@ != id
            ==> new_s.sessions@[i] == old_s.sessions@[i]
        &&& forall|i: int| 0 <= i < old_s.sessions@.len()
            && (#[trigger] old_s.sessions@[i]).id@ == id
            ==> new_s.sessions@[i] == (SessionStateUI {
                ui_sender_present: false,
                ..old_s.sessions@[i]
            }) && r.had_sender == old_s.sessions@[i].ui_sender_present
    }
}

/// An element of a sequence survives the removal of another index.
proof fn lemma_remove_keeps(s: Seq<SessionStateUI>, i: int, a: int)
    requires
        0 <= i < s.len(),
        0 <= a < s.len() - 1,
    ensures
        exists|k: int| 0 <= k < s.len() && k != i && s.remove(i)[a] == s[k],
{
    if a < i {
        assert(s.remove(i)[a] == s[a]);
    } else {
        assert(s.remove(i)[a] == s[a + 1]);
    }
}

/// Removing an id that no record carries changes nothing.
proof fn lemma_sessions_without_absent(s: Seq<SessionStateUI>, id: Seq<char>)
    requires
        forall|i: int| 0 <= i < s.len() ==> (#[trigger] s[i]).id@ != id,
    ensures
        spec_sessions_without(s, id) == s,
    decreases s.len(),
{
    if s.len() > 0 {
        assert(forall|i: int| 0 <= i < s.drop_last().len()
            ==> (#[trigger] s.drop_last()[i]).id@ != id);
        lemma_sessions_without_absent(s.drop_last(), id);
        assert(s[s.len() - 1] == s.last());
        assert(spec_sessions_without(s, id) =~= s);
    }
}

/// With unique ids, removing the one record at index `i` is the same as
/// removing the id everywhere.
proof fn lemma_sessions_without_unique_remove(s: Seq<SessionStateUI>, id: Seq<char>, i: int)
    requires
        0 <= i < s.len(),
        s[i].id@ == id,
        forall|a: int, b: int| 0 <= a < b < s.len() ==> s[a].id@ != s[b].id@,
    ensures
        spec_sessions_without(s, id) == s.remove(i),
    decreases s.len(),
{
    if i == s.len() - 1 {
        assert(forall|k: int| 0 <= k < s.drop_last().len()
            ==> (#[trigger] s.drop_last()[k]).id@ != id);
        lemma_sessions_without_absent(s.drop_last(), id);
        assert(s.remove(i) =~= s.drop_last());
    } else {
        assert(s.drop_last()[i] == s[i]);
        lemma_sessions_without_unique_remove(s.drop_last(), id, i);
        assert(s.last().id@ != id);
        assert(spec_sessions_without(s, id)
            == spec_sessions_without(s.drop_last(), id).push(s.last()));
        assert(spec_sessions_without(s, id) =~= s.remove(i)) by {
            assert(s.drop_last().remove(i).push(s.last()) =~= s.remove(i));
        }
    }
}

/// Deleting twice is deleting once: a second removal of the same id finds
/// nothing and leaves the store as the first left it.
pub proof fn lemma_delete_idempotent(s: Seq<SessionStateUI>, id: Seq<char>)
    ensures
        spec_sessions_without(spec_sessions_without(s, id), id) == spec_sessions_without(s, id),
    decreases s.len(),
{
    lemma_sessions_without_excludes(s, id);
    lemma_sessions_without_absent(spec_sessions_without(s, id), id);
}

/// No record with the removed id survives a removal.
proof fn lemma_sessions_without_excludes(s: Seq<SessionStateUI>, id: Seq<char>)
    ensures
        forall|i: int| 0 <= i < spec_sessions_without(s, id).len()
            ==> (#[trigger] spec_sessions_without(s, id)[i]).id@ != id,
    decreases s.len(),
{
    let out = spec_sessions_without(s, id);
    if s.len() > 0 {
        let sub = spec_sessions_without(s.drop_last(), id);
        lemma_sessions_without_excludes(s.drop_last(), id);
        assert forall|i: int| 0 <= i < out.len() implies out[i].id@ != id by {
            if s.last().id@ != id {
                assert(out == sub.push(s.last()));
                if i < out.len() - 1 {
                    assert(out[i] == sub[i]);
                } else {
                    assert(out[i] == s.last());
                }
            } else {
                assert(out == sub);
            }
        }
    }
}

/// The duplicate guard, spelled out: in a well-formed store no two
/// distinct sessions agree on both the server url and the launch command.
pub proof fn lemma_duplicate_guard(store: SessionStore, i: int, j: int)
    requires
        store.store_wf(),
        0 <= i < store.sessions@.len(),
        0 <= j < store.sessions@.len(),
        i != j,
    ensures
        !(store.sessions@[i].server_url@ == store.sessions@[j].server_url@
            && store.sessions@[i].launch_command@ == store.sessions@[j].launch_command@),
{
}

/// Stopping twice is stopping once: the second request changes nothing
/// and reports that no sender was left to signal.
pub proof fn lemma_stop_idempotent(
    s0: SessionStore,
    id: Seq<char>,
    s1: SessionStore,
    r1: StopSignal,
    s2: SessionStore,
    r2: StopSignal,
)
    requires
        s0.store_wf(),
        spec_stop_applied(s0, id, s1, r1),
        spec_stop_applied(s1, id, s2, r2),
    ensures
        s2.sessions@ =~= s1.sessions@,
        !r2.had_sender || !r1.found,
{
    if s0.spec_has_id(id) {
        assert(s1.spec_has_id(id)) by {
            let i = choose|i: int|
                0 <= i < s0.sessions@.len() && (#[trigger] s0.sessions@[i]).id@ == id;
            assert(s1.sessions@[i].id@ == id);
        }
        assert forall|i: int| 0 <= i < s1.sessions@.len() implies
            s2.sessions@[i] == s1.sessions@[i] by {
            assert(s1.sessions@[i].id@ == s0.sessions@[i].id@);
            if s1.sessions@[i].id@ == id {
                assert(!s1.sessions@[i].ui_sender_present);
            }
        }
    }
}

} // verus!
