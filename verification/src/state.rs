//! An append-only, pid-keyed history of process states.
//!
//! An operating-system pid is not a stable identity: it can be reused after
//! the process exits. The directory therefore keeps, for every pid, the full
//! ordered sequence of observed generations and resolves "the current state
//! of pid P" as the last element of that sequence.

use std::collections::HashMap;

use vstd::prelude::*;

verus! {

broadcast use vstd::std_specs::hash::group_hash_axioms;

/// Lifecycle status of one process generation.
#[derive(Debug, Clone, Copy, PartialEq, Eq, Structural)]
pub enum ProcessStatus {
    Running,
    Exited(i32),
}

/// Filename, argument vector and environment captured at the most recent
/// successful exec of a process generation.
#[derive(Debug, Clone, PartialEq, Eq)]
pub struct ExecData {
    pub filename: String,
    pub argv: Vec<String>,
    pub envp: Vec<String>,
}

/// One observed generation of one process: identity, lifecycle status, the
/// command line captured at observation time, and, once the generation has
/// completed an exec, the data captured at that exec.
#[derive(Debug, Clone, PartialEq, Eq)]
pub struct ProcessState {
    pub pid: i32,
    pub status: ProcessStatus,
    pub start_time: u64,
    pub argv: Vec<String>,
    pub comm: String,
    pub preexecve: bool,
    pub exec_data: Option<ExecData>,
}

impl ProcessState {
    /// A generation is well formed when captured exec data implies that the
    /// pre-exec phase is over.
    pub open spec fn wf(self) -> bool {
        self.exec_data is Some ==> !self.preexecve
    }

    /// The generation after a successful exec: the pre-exec phase is over
    /// and the supplied exec data is attached; a later exec in the same
    /// generation overwrites the data.
    pub open spec fn exec_applied(self, data: ExecData) -> ProcessState {
        ProcessState { preexecve: false, exec_data: Some(data), ..self }
    }

    /// The generation after its process exited with `code`.
    pub open spec fn exit_applied(self, code: i32) -> ProcessState {
        ProcessState { status: ProcessStatus::Exited(code), ..self }
    }

    /// A freshly observed generation: running, still pre-exec, with the
    /// command name and argument vector the observer read for it. Reading
    /// those attributes from the live system is the caller's business; a
    /// generation is built here from the plain values that came back.
    pub fn new(pid: i32, start_time: u64, comm: String, argv: Vec<String>) -> (r: Self)
        ensures
            r.pid == pid,
            r.status == ProcessStatus::Running,
            r.start_time == start_time,
            r.argv == argv,
            r.comm == comm,
            r.preexecve,
            r.exec_data is None,
            r.wf(),
    {
        Self {
            pid,
            status: ProcessStatus::Running,
            start_time,
            argv,
            comm,
            preexecve: true,
            exec_data: None,
        }
    }
}

/// The generations recorded for `pid`, oldest first; empty when the pid has
/// never been observed.
pub open spec fn history_of(m: Map<i32, Seq<ProcessState>>, pid: i32) -> Seq<ProcessState> {
    if m.contains_key(pid) {
        m[pid]
    } else {
        Seq::empty()
    }
}

/// An append-only directory of process generations, keyed by pid.
///
/// Its abstract value is a map from pid to the ordered sequence of
/// generations observed under that pid, insertion order kept. The last
/// generation of a pid is the current one; earlier generations stay
/// retrievable for later inspection.
pub struct ProcessStateStore {
    processes: HashMap<i32, Vec<ProcessState>>,
}

impl View for ProcessStateStore {
    type V = Map<i32, Seq<ProcessState>>;

    closed spec fn view(&self) -> Map<i32, Seq<ProcessState>> {
        self.processes@.map_values(|v: Vec<ProcessState>| v@)
    }
}

impl ProcessStateStore {
    /// Every recorded history is non-empty and every generation in it
    /// carries the pid it is filed under.
    pub open spec fn wf(self) -> bool {
        forall|p: i32| #[trigger]
            self@.contains_key(p) ==> self@[p].len() > 0 && (forall|i: int|
                0 <= i < self@[p].len() ==> (#[trigger] self@[p][i]).pid == p)
    }

    pub fn new() -> (r: Self)
        ensures
            r@ == Map::<i32, Seq<ProcessState>>::empty(),
            r.wf(),
    {
        let r = Self { processes: HashMap::new() };
        proof {
            assert(r@ =~= Map::<i32, Seq<ProcessState>>::empty());
        }
        r
    }

    /// Append `state` to the history of `state.pid`, creating the history if
    /// the pid has never been observed. The new generation becomes the
    /// current one; nothing is ever overwritten or removed.
    pub fn insert(&mut self, state: ProcessState)
        ensures
            final(self)@ == old(self)@.insert(
                state.pid,
                history_of(old(self)@, state.pid).push(state),
            ),
            old(self).wf() ==> final(self).wf(),
    {
        let pid = state.pid;
        let ghost m0 = self@;
        match self.processes.remove(&pid) {
            Some(mut v) => {
                v.push(state);
                self.processes.insert(pid, v);
            },
            None => {
                let mut v: Vec<ProcessState> = Vec::new();
                v.push(state);
                self.processes.insert(pid, v);
            },
        }
        proof {
            assert(final(self)@ =~= m0.insert(pid, history_of(m0, pid).push(state)));
            if old(self).wf() {
                assert forall|p: i32| #[trigger] final(self)@.contains_key(p) implies final(self)@[p].len() > 0 && (forall|i: int|
                    0 <= i < final(self)@[p].len() ==> (#[trigger] final(self)@[p][i]).pid
                        == p) by {
                    if p != pid {
                        assert(m0.contains_key(p));
                    }
                }
            }
        }
    }

    /// The current (most recently observed) generation for `pid`: the last
    /// element of its history, or nothing when the pid has never been
    /// observed.
    pub fn get_current(&self, pid: i32) -> (r: Option<&ProcessState>)
        ensures
            match r {
                Some(st) => self@.contains_key(pid) && self@[pid].len() > 0 && *st
                    == self@[pid].last(),
                None => !self@.contains_key(pid) || self@[pid].len() == 0,
            },
    {
        match self.processes.get(&pid) {
            Some(v) => {
                if v.len() > 0 {
                    Some(&v[v.len() - 1])
                } else {
                    None
                }
            },
            None => None,
        }
    }

    /// The full recorded history for `pid`, oldest generation first, or
    /// nothing when the pid has never been observed.
    pub fn get_history(&self, pid: i32) -> (r: Option<&Vec<ProcessState>>)
        ensures
            match r {
                Some(v) => self@.contains_key(pid) && v@ == self@[pid],
                None => !self@.contains_key(pid),
            },
    {
        self.processes.get(&pid)
    }

    /// Record a successful exec of the current generation of `pid`: its
    /// pre-exec phase ends and the supplied exec data is attached, exactly
    /// as given. Returns false, leaving the directory unchanged, when the
    /// pid has no current generation — an update referencing an unknown pid
    /// is discarded, never fatal.
    pub fn apply_exec(&mut self, pid: i32, data: ExecData) -> (r: bool)
        ensures
            r == (old(self)@.contains_key(pid) && old(self)@[pid].len() > 0),
            r ==> final(self)@ == old(self)@.insert(
                pid,
                old(self)@[pid].drop_last().push(old(self)@[pid].last().exec_applied(data)),
            ),
            !r ==> final(self)@ == old(self)@,
            old(self).wf() ==> final(self).wf(),
    {
        let ghost m0 = self@;
        let r = match self.processes.remove(&pid) {
            None => false,
            Some(mut v) => {
                match v.pop() {
                    None => {
                        self.processes.insert(pid, v);
                        false
                    },
                    Some(mut st) => {
                        st.preexecve = false;
                        st.exec_data = Some(data);
                        v.push(st);
                        self.processes.insert(pid, v);
                        true
                    },
                }
            },
        };
        proof {
            if r {
                assert(final(self)@ =~= m0.insert(
                    pid,
                    m0[pid].drop_last().push(m0[pid].last().exec_applied(data)),
                ));
            } else {
                assert(final(self)@ =~= m0);
            }
            if old(self).wf() && r {
                assert forall|p: i32| #[trigger] final(self)@.contains_key(p) implies final(self)@[p].len() > 0 && (forall|i: int|
                    0 <= i < final(self)@[p].len() ==> (#[trigger] final(self)@[p][i]).pid
                        == p) by {
                    assert(m0.contains_key(p));
                }
            }
        }
        r
    }

    /// Record that the current generation of `pid` exited with `code`.
    /// Returns false, leaving the directory unchanged, when the pid has no
    /// current generation.
    pub fn apply_exit(&mut self, pid: i32, code: i32) -> (r: bool)
        ensures
            r == (old(self)@.contains_key(pid) && old(self)@[pid].len() > 0),
            r ==> final(self)@ == old(self)@.insert(
                pid,
                old(self)@[pid].drop_last().push(old(self)@[pid].last().exit_applied(code)),
            ),
            !r ==> final(self)@ == old(self)@,
            old(self).wf() ==> final(self).wf(),
    {
        let ghost m0 = self@;
        let r = match self.processes.remove(&pid) {
            None => false,
            Some(mut v) => {
                match v.pop() {
                    None => {
                        self.processes.insert(pid, v);
                        false
                    },
                    Some(mut st) => {
                        st.status = ProcessStatus::Exited(code);
                        v.push(st);
                        self.processes.insert(pid, v);
                        true
                    },
                }
            },
        };
        proof {
            if r {
                assert(final(self)@ =~= m0.insert(
                    pid,
                    m0[pid].drop_last().push(m0[pid].last().exit_applied(code)),
                ));
            } else {
                assert(final(self)@ =~= m0);
            }
            if old(self).wf() && r {
                assert forall|p: i32| #[trigger] final(self)@.contains_key(p) implies final(self)@[p].len() > 0 && (forall|i: int|
                    0 <= i < final(self)@[p].len() ==> (#[trigger] final(self)@[p][i]).pid
                        == p) by {
                    assert(m0.contains_key(p));
                }
            }
        }
        r
    }
}

} // verus!
