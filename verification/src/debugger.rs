//! The debugging session store: sessions, breakpoints, and inspection.
//!
//! A plain keyed store — sessions by id, breakpoints by id and file — with
//! the stepping and thread-selection bookkeeping the editor shell drives.

use vstd::prelude::*;
use crate::errors::AiError;
use crate::text::str_eq;

verus! {

/// The debugger engine: its sessions, its breakpoints, its knobs.
#[derive(Debug)]
pub struct DebuggerEngine {
    pub active_sessions: Vec<DebugSession>,
    pub breakpoints: Vec<Breakpoint>,
    pub debugger_settings: DebuggerSettings,
}

/// One debugging session.
#[derive(Debug)]
#[verifier::ext_equal]
pub struct DebugSession {
    pub id: String,
    pub name: String,
    pub program_path: String,
    pub working_directory: String,
    pub arguments: Vec<String>,
    pub environment: Vec<(String, String)>,
    pub status: DebugStatus,
    pub current_frame: Option<StackFrame>,
    pub call_stack: Vec<StackFrame>,
    pub variables: Vec<Variable>,
    pub threads: Vec<Thread>,
}

/// One breakpoint.
#[derive(Debug)]
#[verifier::ext_equal]
pub struct Breakpoint {
    pub id: String,
    pub file_path: String,
    pub line: u32,
    pub column: Option<u32>,
    pub condition: Option<String>,
    pub hit_count: u32,
    pub is_enabled: bool,
    pub is_verified: bool,
}

/// One stack frame.
#[derive(Debug)]
#[verifier::ext_equal]
pub struct StackFrame {
    pub id: u32,
    pub name: String,
    pub file_path: String,
    pub line: u32,
    pub column: u32,
    pub variables: Vec<Variable>,
}

/// One inspected value, possibly expanded into children.
#[derive(Debug)]
#[verifier::ext_equal]
pub struct Variable {
    pub name: String,
    pub value: String,
    pub type_label: String,
    pub is_expanded: bool,
    pub children: Vec<Variable>,
}

/// One thread of the debuggee.
#[derive(Debug)]
#[verifier::ext_equal]
pub struct Thread {
    pub id: u32,
    pub name: String,
    pub is_active: bool,
    pub state: ThreadState,
}

/// Where a session stands.
#[derive(Debug, Clone, Copy, PartialEq, Eq, Structural)]
pub enum DebugStatus {
    NotStarted,
    Running,
    Paused,
    Stopped,
    Terminated,
}

/// Where a thread stands.
#[derive(Debug, Clone, Copy, PartialEq, Eq, Structural)]
pub enum ThreadState {
    Running,
    Stopped,
    Suspended,
}

/// The debugger's knobs.
#[derive(Debug, Clone)]
pub struct DebuggerSettings {
    pub auto_attach: bool,
    pub break_on_exceptions: bool,
    pub break_on_unhandled_exceptions: bool,
    pub show_return_value: bool,
    pub enable_step_filtering: bool,
    pub max_string_length: usize,
    pub max_array_elements: usize,
}

impl Default for DebuggerSettings {
    /// The stock knobs: break on exceptions, show return values, filter
    /// steps, and bounded value rendering.
    fn default() -> (r: Self)
        ensures
            !r.auto_attach,
            r.break_on_exceptions,
            r.break_on_unhandled_exceptions,
            r.show_return_value,
            r.enable_step_filtering,
            r.max_string_length == 1000,
            r.max_array_elements == 100,
    {
        DebuggerSettings {
            auto_attach: false,
            break_on_exceptions: true,
            break_on_unhandled_exceptions: true,
            show_return_value: true,
            enable_step_filtering: true,
            max_string_length: 1000,
            max_array_elements: 100,
        }
    }
}

impl Default for DebuggerEngine {
    /// An engine with no sessions, no breakpoints, and stock knobs.
    fn default() -> (r: Self)
        ensures
            r.active_sessions@ == Seq::<DebugSession>::empty(),
            r.breakpoints@ == Seq::<Breakpoint>::empty(),
    {
        DebuggerEngine {
            active_sessions: Vec::new(),
            breakpoints: Vec::new(),
            debugger_settings: DebuggerSettings::default(),
        }
    }
}

/// Relies on `uuid::Uuid::new_v4` and its canonical hyphenated rendering
/// for a fresh random identifier; the value is random, so nothing is
/// promised of it.
#[verifier::external_body]
fn new_id() -> String {
    uuid::Uuid::new_v4().to_string()
}

/// The index of the first session with the given id, scanning from `i`.
pub open spec fn sess_idx(ss: Seq<DebugSession>, id: Seq<char>, i: int) -> Option<int>
    decreases ss.len() - i + 1 when i >= 0
{
    if i >= ss.len() {
        None
    } else if ss[i].id@ == id {
        Some(i)
    } else {
        sess_idx(ss, id, i + 1)
    }
}

/// The index of the first breakpoint with the given id, scanning from
/// `i`.
pub open spec fn bp_idx(bs: Seq<Breakpoint>, id: Seq<char>, i: int) -> Option<int>
    decreases bs.len() - i + 1 when i >= 0
{
    if i >= bs.len() {
        None
    } else if bs[i].id@ == id {
        Some(i)
    } else {
        bp_idx(bs, id, i + 1)
    }
}

/// The breakpoints minus every one carrying the given id, in order.
pub open spec fn without_bp(bs: Seq<Breakpoint>, id: Seq<char>) -> Seq<Breakpoint>
    decreases bs.len(),
{
    if bs.len() == 0 {
        Seq::empty()
    } else {
        without_bp(bs.drop_last(), id) + if bs.last().id@ != id {
            seq![bs.last()]
        } else {
            Seq::empty()
        }
    }
}

/// The breakpoints set in the given file, in order.
pub open spec fn bps_for(bs: Seq<Breakpoint>, path: Seq<char>) -> Seq<Breakpoint>
    decreases bs.len(),
{
    if bs.len() == 0 {
        Seq::empty()
    } else {
        bps_for(bs.drop_last(), path) + if bs.last().file_path@ == path {
            seq![bs.last()]
        } else {
            Seq::empty()
        }
    }
}

/// The values behind a list of variable references, in order.
pub open spec fn vars_deref(s: Seq<&Variable>) -> Seq<Variable> {
    s.map_values(|v: &Variable| *v)
}

/// The values behind a list of session references, in order.
pub open spec fn sessions_deref(s: Seq<&DebugSession>) -> Seq<DebugSession> {
    s.map_values(|x: &DebugSession| *x)
}

/// The values behind a list of breakpoint references, in order.
pub open spec fn bps_deref(s: Seq<&Breakpoint>) -> Seq<Breakpoint> {
    s.map_values(|b: &Breakpoint| *b)
}

/// A session with its status replaced.
pub open spec fn with_status(s: DebugSession, st: DebugStatus) -> DebugSession {
    DebugSession { status: st, ..s }
}

/// The threads with exactly the given one active.
pub open spec fn threads_selected(ts: Seq<Thread>, tid: u32) -> Seq<Thread> {
    Seq::new(
        ts.len(),
        |k: int| Thread { is_active: ts[k].id == tid, ..ts[k] },
    )
}

/// A fresh session record as `start_debug_session` creates it.
pub open spec fn fresh_session(
    s: DebugSession,
    id: Seq<char>,
    name: String,
    program_path: String,
    working_directory: String,
    arguments: Vec<String>,
) -> bool {
    &&& s.id@ == id
    &&& s.name == name
    &&& s.program_path == program_path
    &&& s.working_directory == working_directory
    &&& s.arguments == arguments
    &&& s.environment@ == Seq::<(String, String)>::empty()
    &&& s.status == DebugStatus::NotStarted
    &&& s.current_frame is None
    &&& s.call_stack@ == Seq::<StackFrame>::empty()
    &&& s.variables@ == Seq::<Variable>::empty()
    &&& s.threads@ == Seq::<Thread>::empty()
}

impl DebuggerEngine {
    /// An engine with no sessions, no breakpoints, and stock knobs.
    pub fn new() -> (r: Self)
        ensures
            r.active_sessions@ == Seq::<DebugSession>::empty(),
            r.breakpoints@ == Seq::<Breakpoint>::empty(),
    {
        DebuggerEngine::default()
    }

    /// The index of the first session with the given id, if any.
    fn find_session(&self, session_id: &str) -> (r: Option<usize>)
        ensures
            match r {
                Some(j) => sess_idx(self.active_sessions@, session_id@, 0) == Some(j as int) && j
                    < self.active_sessions@.len(),
                None => sess_idx(self.active_sessions@, session_id@, 0) is None,
            },
    {
        let ss = &self.active_sessions;
        let n = ss.len();
        let mut i: usize = 0;
        while i < n
            invariant
                n == ss@.len(),
                ss@ == self.active_sessions@,
                i <= n,
                sess_idx(ss@, session_id@, 0) == sess_idx(ss@, session_id@, i as int),
            decreases n - i,
        {
            if str_eq(ss[i].id.as_str(), session_id) {
                return Some(i);
            }
            i = i + 1;
        }
        None
    }

    /// Opens a fresh session under a new random id and returns the id. A
    /// colliding id (which a random UUID in practice never produces)
    /// would replace its session rather than duplicate it.
    pub fn start_debug_session(
        &mut self,
        name: String,
        program_path: String,
        working_directory: String,
        arguments: Vec<String>,
    ) -> (r: Result<String, AiError>)
        ensures
            final(self).breakpoints == old(self).breakpoints,
            final(self).debugger_settings == old(self).debugger_settings,
            r matches Ok(idv) && ({
                let ss = final(self).active_sessions@;
                match sess_idx(old(self).active_sessions@, idv@, 0) {
                    Some(j) => ss == old(self).active_sessions@.update(j, ss[j]) && fresh_session(
                        ss[j],
                        idv@,
                        name,
                        program_path,
                        working_directory,
                        arguments,
                    ),
                    None => ss == old(self).active_sessions@.push(
                        ss[old(self).active_sessions@.len() as int],
                    ) && fresh_session(
                        ss[old(self).active_sessions@.len() as int],
                        idv@,
                        name,
                        program_path,
                        working_directory,
                        arguments,
                    ),
                }
            }),
    {
        let id = new_id();
        let session = DebugSession {
            id: id.clone(),
            name,
            program_path,
            working_directory,
            arguments,
            environment: Vec::new(),
            status: DebugStatus::NotStarted,
            current_frame: None,
            call_stack: Vec::new(),
            variables: Vec::new(),
            threads: Vec::new(),
        };
        match self.find_session(id.as_str()) {
            Some(j) => {
                self.active_sessions[j] = session;
            },
            None => {
                self.active_sessions.push(session);
            },
        }
        Ok(id)
    }

    /// Marks the session stopped; a no-op on an unknown id.
    pub fn stop_debug_session(&mut self, session_id: &str) -> (r: Result<(), AiError>)
        ensures
            r is Ok,
            final(self).breakpoints == old(self).breakpoints,
            final(self).debugger_settings == old(self).debugger_settings,
            match sess_idx(old(self).active_sessions@, session_id@, 0) {
                Some(j) => final(self).active_sessions@ == old(self).active_sessions@.update(
                    j,
                    with_status(old(self).active_sessions@[j], DebugStatus::Stopped),
                ),
                None => final(self).active_sessions == old(self).active_sessions,
            },
    {
        match self.find_session(session_id) {
            Some(j) => {
                self.active_sessions[j].status = DebugStatus::Stopped;
            },
            None => {},
        }
        Ok(())
    }

    /// Sets a breakpoint under a new random id and returns the id.
    pub fn set_breakpoint(
        &mut self,
        file_path: String,
        line: u32,
        column: Option<u32>,
        condition: Option<String>,
    ) -> (r: Result<String, AiError>)
        ensures
            final(self).active_sessions == old(self).active_sessions,
            final(self).debugger_settings == old(self).debugger_settings,
            r matches Ok(idv) && ({
                let bs = final(self).breakpoints@;
                let b = bs[old(self).breakpoints@.len() as int];
                &&& bs == old(self).breakpoints@.push(b)
                &&& b.id@ == idv@
                &&& b.file_path == file_path
                &&& b.line == line
                &&& b.column == column
                &&& b.condition == condition
                &&& b.hit_count == 0
                &&& b.is_enabled
                &&& !b.is_verified
            }),
    {
        let id = new_id();
        let bp = Breakpoint {
            id: id.clone(),
            file_path,
            line,
            column,
            condition,
            hit_count: 0,
            is_enabled: true,
            is_verified: false,
        };
        self.breakpoints.push(bp);
        Ok(id)
    }

    /// Removes every breakpoint carrying the given id.
    pub fn remove_breakpoint(&mut self, breakpoint_id: &str) -> (r: Result<(), AiError>)
        ensures
            r is Ok,
            final(self).active_sessions == old(self).active_sessions,
            final(self).debugger_settings == old(self).debugger_settings,
            final(self).breakpoints@ == without_bp(old(self).breakpoints@, breakpoint_id@),
    {
        let n = self.breakpoints.len();
        let mut kept: Vec<Breakpoint> = Vec::new();
        let mut i: usize = 0;
        let ghost orig = self.breakpoints@;
        while i < n
            invariant
                n == orig.len(),
                self.breakpoints@ == orig.subrange(i as int, n as int),
                i <= n,
                kept@ == without_bp(orig.take(i as int), breakpoint_id@),
                self.active_sessions == old(self).active_sessions,
                self.debugger_settings == old(self).debugger_settings,
            decreases n - i,
        {
            let ghost pre = orig.take(i as int);
            let ghost cur = orig.take(i + 1);
            proof {
                assert(cur.drop_last() =~= pre);
                assert(cur.last() == orig[i as int]);
                assert(self.breakpoints@[0] == orig[i as int]);
            }
            let bp = self.breakpoints.remove(0);
            proof {
                assert(self.breakpoints@ =~= orig.subrange(i + 1, n as int));
            }
            if !str_eq(bp.id.as_str(), breakpoint_id) {
                kept.push(bp);
            }
            i = i + 1;
        }
        proof {
            assert(orig.take(n as int) =~= orig);
        }
        self.breakpoints = kept;
        Ok(())
    }

    /// Toggles the first breakpoint carrying the given id between enabled
    /// and disabled; a no-op on an unknown id.
    pub fn toggle_breakpoint(&mut self, breakpoint_id: &str) -> (r: Result<(), AiError>)
        ensures
            r is Ok,
            final(self).active_sessions == old(self).active_sessions,
            final(self).debugger_settings == old(self).debugger_settings,
            match bp_idx(old(self).breakpoints@, breakpoint_id@, 0) {
                Some(j) => final(self).breakpoints@ == old(self).breakpoints@.update(
                    j,
                    Breakpoint {
                        is_enabled: !old(self).breakpoints@[j].is_enabled,
                        ..old(self).breakpoints@[j]
                    },
                ),
                None => final(self).breakpoints == old(self).breakpoints,
            },
    {
        let n = self.breakpoints.len();
        let mut i: usize = 0;
        while i < n
            invariant
                n == self.breakpoints@.len(),
                self.breakpoints == old(self).breakpoints,
                self.active_sessions == old(self).active_sessions,
                self.debugger_settings == old(self).debugger_settings,
                i <= n,
                bp_idx(self.breakpoints@, breakpoint_id@, 0) == bp_idx(
                    self.breakpoints@,
                    breakpoint_id@,
                    i as int,
                ),
            decreases n - i,
        {
            if str_eq(self.breakpoints[i].id.as_str(), breakpoint_id) {
                let e = self.breakpoints[i].is_enabled;
                self.breakpoints[i].is_enabled = !e;
                proof {
                    assert(bp_idx(old(self).breakpoints@, breakpoint_id@, 0) == Some(i as int));
                    assert(self.breakpoints@ =~= old(self).breakpoints@.update(
                        i as int,
                        Breakpoint {
                            is_enabled: !old(self).breakpoints@[i as int].is_enabled,
                            ..old(self).breakpoints@[i as int]
                        },
                    ));
                }
                return Ok(());
            }
            i = i + 1;
        }
        Ok(())
    }

    /// The breakpoints set in the given file, in insertion order.
    pub fn get_breakpoints(&self, file_path: &str) -> (r: Vec<&Breakpoint>)
        ensures
            bps_deref(r@) == bps_for(self.breakpoints@, file_path@),
    {
        let n = self.breakpoints.len();
        let mut out: Vec<&Breakpoint> = Vec::new();
        let mut i: usize = 0;
        while i < n
            invariant
                n == self.breakpoints@.len(),
                i <= n,
                bps_deref(out@) == bps_for(self.breakpoints@.take(i as int), file_path@),
            decreases n - i,
        {
            let ghost pre = self.breakpoints@.take(i as int);
            let ghost cur = self.breakpoints@.take(i + 1);
            proof {
                assert(cur.drop_last() =~= pre);
                assert(cur.last() == self.breakpoints@[i as int]);
            }
            let ghost outpre = bps_deref(out@);
            if str_eq(self.breakpoints[i].file_path.as_str(), file_path) {
                let rf = &self.breakpoints[i];
                out.push(rf);
                proof {
                    assert(bps_deref(out@) =~~= outpre.push(self.breakpoints@[i as int]));
                }
            }
            i = i + 1;
        }
        proof {
            assert(self.breakpoints@.take(n as int) =~= self.breakpoints@);
        }
        out
    }

    /// Marks the session running; a no-op on an unknown id.
    pub fn continue_execution(&mut self, session_id: &str) -> (r: Result<(), AiError>)
        ensures
            r is Ok,
            final(self).breakpoints == old(self).breakpoints,
            final(self).debugger_settings == old(self).debugger_settings,
            match sess_idx(old(self).active_sessions@, session_id@, 0) {
                Some(j) => final(self).active_sessions@ == old(self).active_sessions@.update(
                    j,
                    with_status(old(self).active_sessions@[j], DebugStatus::Running),
                ),
                None => final(self).active_sessions == old(self).active_sessions,
            },
    {
        match self.find_session(session_id) {
            Some(j) => {
                self.active_sessions[j].status = DebugStatus::Running;
            },
            None => {},
        }
        Ok(())
    }

    /// Marks the session paused; a no-op on an unknown id.
    pub fn pause_execution(&mut self, session_id: &str) -> (r: Result<(), AiError>)
        ensures
            r is Ok,
            final(self).breakpoints == old(self).breakpoints,
            final(self).debugger_settings == old(self).debugger_settings,
            match sess_idx(old(self).active_sessions@, session_id@, 0) {
                Some(j) => final(self).active_sessions@ == old(self).active_sessions@.update(
                    j,
                    with_status(old(self).active_sessions@[j], DebugStatus::Paused),
                ),
                None => final(self).active_sessions == old(self).active_sessions,
            },
    {
        match self.find_session(session_id) {
            Some(j) => {
                self.active_sessions[j].status = DebugStatus::Paused;
            },
            None => {},
        }
        Ok(())
    }

    /// Advances the session's current frame one line, saturating at the
    /// largest line number; a no-op without a session or a frame.
    pub fn step_over(&mut self, session_id: &str) -> (r: Result<(), AiError>)
        ensures
            r is Ok,
            final(self).breakpoints == old(self).breakpoints,
            final(self).debugger_settings == old(self).debugger_settings,
            match sess_idx(old(self).active_sessions@, session_id@, 0) {
                Some(j) => {
                    let s = old(self).active_sessions@[j];
                    match s.current_frame {
                        Some(f) => final(self).active_sessions@ == old(
                            self,
                        ).active_sessions@.update(
                            j,
                            DebugSession {
                                current_frame: Some(
                                    StackFrame {
                                        line: if f.line == u32::MAX {
                                            f.line
                                        } else {
                                            (f.line + 1) as u32
                                        },
                                        ..f
                                    },
                                ),
                                ..s
                            },
                        ),
                        None => final(self).active_sessions@ == old(self).active_sessions@,
                    }
                },
                None => final(self).active_sessions == old(self).active_sessions,
            },
    {
        match self.find_session(session_id) {
            Some(j) => {
                let ghost s0 = old(self).active_sessions@[j as int];
                match &mut self.active_sessions[j].current_frame {
                    Some(f) => {
                        let nl = if f.line < u32::MAX {
                            f.line + 1
                        } else {
                            f.line
                        };
                        f.line = nl;
                    },
                    None => {},
                }
                proof {
                    if s0.current_frame is Some {
                        let f0 = s0.current_frame->0;
                        assert(self.active_sessions@ =~= old(self).active_sessions@.update(
                            j as int,
                            DebugSession {
                                current_frame: Some(
                                    StackFrame {
                                        line: if f0.line == u32::MAX {
                                            f0.line
                                        } else {
                                            (f0.line + 1) as u32
                                        },
                                        ..f0
                                    },
                                ),
                                ..s0
                            },
                        ));
                    } else {
                        assert(self.active_sessions@ =~= old(self).active_sessions@);
                    }
                }
            },
            None => {},
        }
        Ok(())
    }

    /// Steps into the current call; the in-memory store records nothing
    /// for it, so the state is unchanged.
    pub fn step_into(&mut self, session_id: &str) -> (r: Result<(), AiError>)
        ensures
            r is Ok,
            *final(self) == *old(self),
    {
        let _found = self.find_session(session_id);
        Ok(())
    }

    /// Steps out of the current call; the in-memory store records nothing
    /// for it, so the state is unchanged.
    pub fn step_out(&mut self, session_id: &str) -> (r: Result<(), AiError>)
        ensures
            r is Ok,
            *final(self) == *old(self),
    {
        let _found = self.find_session(session_id);
        Ok(())
    }

    /// The session's call stack; `NotFound` on an unknown id.
    pub fn get_call_stack(&self, session_id: &str) -> (r: Result<&Vec<StackFrame>, AiError>)
        ensures
            match sess_idx(self.active_sessions@, session_id@, 0) {
                Some(j) => r matches Ok(cs) && cs@ == self.active_sessions@[j].call_stack@,
                None => r matches Err(e) && e is NotFound,
            },
    {
        match self.find_session(session_id) {
            Some(j) => Ok(&self.active_sessions[j].call_stack),
            None => {
                let mut m = String::from_str("Debug session not found: ");
                m.append(session_id);
                Err(AiError::NotFound(m))
            },
        }
    }

    /// The variables of the given frame, of the current frame without a
    /// frame id, and none at all for an unknown frame; `NotFound` on an
    /// unknown session id.
    pub fn get_variables(&self, session_id: &str, frame_id: Option<u32>) -> (r: Result<
        Vec<&Variable>,
        AiError,
    >)
        ensures
            match sess_idx(self.active_sessions@, session_id@, 0) {
                Some(j) => r matches Ok(vs) && {
                    let s = self.active_sessions@[j];
                    match frame_id {
                        Some(fid) => match frame_idx(s.call_stack@, fid, 0) {
                            Some(fj) => vars_deref(vs@) == s.call_stack@[fj].variables@,
                            None => vs@.len() == 0,
                        },
                        None => vars_deref(vs@) == s.variables@,
                    }
                },
                None => r matches Err(e) && e is NotFound,
            },
    {
        let j = match self.find_session(session_id) {
            Some(j) => j,
            None => {
                let mut m = String::from_str("Debug session not found: ");
                m.append(session_id);
                return Err(AiError::NotFound(m));
            },
        };
        let s = &self.active_sessions[j];
        match frame_id {
            Some(fid) => {
                let cn = s.call_stack.len();
                let mut fi: usize = 0;
                while fi < cn
                    invariant
                        j < self.active_sessions@.len(),
                        sess_idx(self.active_sessions@, session_id@, 0) == Some(j as int),
                        *s == self.active_sessions@[j as int],
                        frame_id == Some(fid),
                        cn == s.call_stack@.len(),
                        fi <= cn,
                        frame_idx(s.call_stack@, fid, 0) == frame_idx(
                            s.call_stack@,
                            fid,
                            fi as int,
                        ),
                    decreases cn - fi,
                {
                    if s.call_stack[fi].id == fid {
                        return Ok(Self::ref_all(&s.call_stack[fi].variables));
                    }
                    fi = fi + 1;
                }
                Ok(Vec::new())
            },
            None => Ok(Self::ref_all(&s.variables)),
        }
    }

    /// References to every element of a variable list, in order.
    fn ref_all(vs: &Vec<Variable>) -> (r: Vec<&Variable>)
        ensures
            vars_deref(r@) == vs@,
    {
        let n = vs.len();
        let mut out: Vec<&Variable> = Vec::new();
        let mut i: usize = 0;
        while i < n
            invariant
                n == vs@.len(),
                i <= n,
                vars_deref(out@) == vs@.take(i as int),
            decreases n - i,
        {
            let rf = &vs[i];
            proof {
                assert(*rf == vs@[i as int]);
                assert(vars_deref(out@).len() == out@.len());
                assert(vs@.take(i as int).len() == i as int);
            }
            out.push(rf);
            proof {
                assert(*out@[i as int] == vs@[i as int]);
                assert(vars_deref(out@) =~~= vs@.take(i + 1));
            }
            i = i + 1;
        }
        proof {
            assert(vs@.take(n as int) =~= vs@);
        }
        out
    }

    /// A placeholder evaluation: the expression echoed back as an
    /// unexpanded value of unknown type, whatever the session.
    pub fn evaluate_expression(&self, session_id: &str, expression: &str) -> (r: Result<
        Variable,
        AiError,
    >)
        ensures
            r matches Ok(v) && v.name@ == expression@ && v.value@ == "mock_value"@ && v.type_label@
                == "unknown"@ && !v.is_expanded && v.children@ == Seq::<Variable>::empty(),
    {
        Ok(
            Variable {
                name: String::from_str(expression),
                value: String::from_str("mock_value"),
                type_label: String::from_str("unknown"),
                is_expanded: false,
                children: Vec::new(),
            },
        )
    }

    /// The session's threads; `NotFound` on an unknown id.
    pub fn get_threads(&self, session_id: &str) -> (r: Result<&Vec<Thread>, AiError>)
        ensures
            match sess_idx(self.active_sessions@, session_id@, 0) {
                Some(j) => r matches Ok(ts) && ts@ == self.active_sessions@[j].threads@,
                None => r matches Err(e) && e is NotFound,
            },
    {
        match self.find_session(session_id) {
            Some(j) => Ok(&self.active_sessions[j].threads),
            None => {
                let mut m = String::from_str("Debug session not found: ");
                m.append(session_id);
                Err(AiError::NotFound(m))
            },
        }
    }

    /// Marks exactly the given thread active in the session; a no-op on
    /// an unknown session id.
    pub fn set_current_thread(&mut self, session_id: &str, thread_id: u32) -> (r: Result<
        (),
        AiError,
    >)
        ensures
            r is Ok,
            final(self).breakpoints == old(self).breakpoints,
            final(self).debugger_settings == old(self).debugger_settings,
            match sess_idx(old(self).active_sessions@, session_id@, 0) {
                Some(j) => {
                    let s = old(self).active_sessions@[j];
                    final(self).active_sessions@ == old(self).active_sessions@.update(
                        j,
                        DebugSession { threads: final(self).active_sessions@[j].threads, ..s },
                    ) && final(self).active_sessions@[j].threads@ == threads_selected(
                        s.threads@,
                        thread_id,
                    )
                },
                None => final(self).active_sessions == old(self).active_sessions,
            },
    {
        match self.find_session(session_id) {
            Some(j) => {
                let ghost orig = self.active_sessions@[j as int].threads@;
                let mut ts: Vec<Thread> = Vec::new();
                core::mem::swap(&mut ts, &mut self.active_sessions[j].threads);
                let tn = ts.len();
                let mut k: usize = 0;
                while k < tn
                    invariant
                        tn == ts@.len(),
                        tn == orig.len(),
                        k <= tn,
                        forall|m: int| k <= m < tn ==> ts@[m] == orig[m],
                        forall|m: int|
                            0 <= m < k ==> ts@[m] == (Thread {
                                is_active: orig[m].id == thread_id,
                                ..orig[m]
                            }),
                    decreases tn - k,
                {
                    let active = ts[k].id == thread_id;
                    ts[k].is_active = active;
                    k = k + 1;
                }
                core::mem::swap(&mut ts, &mut self.active_sessions[j].threads);
                proof {
                    assert(self.active_sessions@[j as int].threads@ =~~= threads_selected(
                        orig,
                        thread_id,
                    ));
                    assert(self.active_sessions@ =~~= old(self).active_sessions@.update(
                        j as int,
                        DebugSession {
                            threads: self.active_sessions@[j as int].threads,
                            ..old(self).active_sessions@[j as int]
                        },
                    ));
                }
            },
            None => {},
        }
        Ok(())
    }

    /// Every open session, in insertion order.
    pub fn get_active_sessions(&self) -> (r: Vec<&DebugSession>)
        ensures
            sessions_deref(r@) == self.active_sessions@,
    {
        let n = self.active_sessions.len();
        let mut out: Vec<&DebugSession> = Vec::new();
        let mut i: usize = 0;
        while i < n
            invariant
                n == self.active_sessions@.len(),
                i <= n,
                sessions_deref(out@) == self.active_sessions@.take(i as int),
            decreases n - i,
        {
            let rf = &self.active_sessions[i];
            proof {
                assert(*rf == self.active_sessions@[i as int]);
                assert(sessions_deref(out@).len() == out@.len());
                assert(self.active_sessions@.take(i as int).len() == i as int);
            }
            out.push(rf);
            proof {
                assert(*out@[i as int] == self.active_sessions@[i as int]);
                assert(sessions_deref(out@) =~~= self.active_sessions@.take(i + 1));
            }
            i = i + 1;
        }
        proof {
            assert(self.active_sessions@.take(n as int) =~= self.active_sessions@);
        }
        out
    }

    /// The session with the given id, if any.
    pub fn get_session(&self, session_id: &str) -> (r: Option<&DebugSession>)
        ensures
            match sess_idx(self.active_sessions@, session_id@, 0) {
                Some(j) => r matches Some(s) && *s == self.active_sessions@[j],
                None => r is None,
            },
    {
        match self.find_session(session_id) {
            Some(j) => Some(&self.active_sessions[j]),
            None => None,
        }
    }
}

/// The index of the first frame with the given id, scanning from `i`.
pub open spec fn frame_idx(cs: Seq<StackFrame>, fid: u32, i: int) -> Option<int>
    decreases cs.len() - i + 1 when i >= 0
{
    if i >= cs.len() {
        None
    } else if cs[i].id == fid {
        Some(i)
    } else {
        frame_idx(cs, fid, i + 1)
    }
}

} // verus!
