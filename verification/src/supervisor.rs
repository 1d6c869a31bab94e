//! The mode state machine: supervisor state, its transitions, and the laws
//! that hold of every transition sequence.
//!
//! The shell serializes calls into one supervisor behind a mutual-exclusion
//! guard and performs the actual process launches and kills; each transition
//! here computes the next state and tells the caller which process, if any,
//! must be killed.

use vstd::prelude::*;

use crate::canonical_local_url;
use crate::local_api_url;

verus! {

/// Mathematical model of the supervisor state: the pid of the owned local
/// server process, if any, and the advertised backend URL.
pub struct Model {
    pub active: Option<u64>,
    pub url: Seq<char>,
}

/// The state is well formed when a process is owned only while the
/// advertised URL is the canonical local one; remote mode owns no process.
pub open spec fn wf(m: Model) -> bool {
    m.active is Some ==> m.url == local_api_url()
}

/// A standalone transition launches a process only when none is owned yet.
pub open spec fn needs_spawn(m: Model) -> bool {
    m.active is None
}

/// One transition of the state machine.  A standalone transition carries the
/// outcome of the launch facility: the pid of the new process on success,
/// `None` on failure.
pub enum Step {
    SetRemote { url: Seq<char> },
    SetStandalone { spawned: Option<u64> },
    Shutdown,
}

/// The state after one transition.
///
/// `SetRemote` drops any owned process and installs the given URL.
/// `SetStandalone` is a no-op when a process is already owned; otherwise it
/// stores the launched pid and the canonical local URL on success, and leaves
/// the state unchanged on launch failure.  `Shutdown` drops any owned
/// process and keeps the URL.
pub open spec fn apply(m: Model, s: Step) -> Model {
    match s {
        Step::SetRemote { url } => Model { active: None, url },
        Step::SetStandalone { spawned } => if m.active is Some {
            m
        } else {
            match spawned {
                Some(pid) => Model { active: Some(pid), url: local_api_url() },
                None => m,
            }
        },
        Step::Shutdown => Model { active: None, url: m.url },
    }
}

/// Which process a transition obliges the caller to kill: `SetRemote` and
/// `Shutdown` kill the owned process, a standalone transition never does.
pub open spec fn kill_obligation(m: Model, s: Step) -> Option<u64> {
    match s {
        Step::SetRemote { .. } => m.active,
        Step::SetStandalone { .. } => None::<u64>,
        Step::Shutdown => m.active,
    }
}

/// Whether a transition makes the caller launch a process: only a standalone
/// transition from a state that owns none.
pub open spec fn launch_attempted(m: Model, s: Step) -> bool {
    s is SetStandalone && needs_spawn(m)
}

/// The state after a whole sequence of transitions, applied in order.
pub open spec fn apply_all(m: Model, steps: Seq<Step>) -> Model
    decreases steps.len(),
{
    if steps.len() == 0 {
        m
    } else {
        apply_all(apply(m, steps[0]), steps.subrange(1, steps.len() as int))
    }
}

/// Every single transition preserves well-formedness.
pub proof fn lemma_wf_preserved(m: Model, s: Step)
    requires
        wf(m),
    ensures
        wf(apply(m, s)),
{
}

/// Serialized transitions keep the invariant: after any sequence of
/// transitions from a well-formed state, a process is owned only while the
/// URL is the canonical local one.
pub proof fn lemma_wf_preserved_all(m: Model, steps: Seq<Step>)
    requires
        wf(m),
    ensures
        wf(apply_all(m, steps)),
    decreases steps.len(),
{
    if steps.len() > 0 {
        lemma_wf_preserved(m, steps[0]);
        lemma_wf_preserved_all(apply(m, steps[0]), steps.subrange(1, steps.len() as int));
    }
}

/// Entering standalone mode is idempotent: once a process is owned, a second
/// standalone transition changes nothing and launches nothing, whatever the
/// launch facility would have answered.
pub proof fn lemma_standalone_idempotent(m: Model, first: Option<u64>, second: Option<u64>)
    requires
        wf(m),
    ensures
        ({
            let once = apply(m, Step::SetStandalone { spawned: first });
            once.active is Some ==> {
                &&& apply(once, Step::SetStandalone { spawned: second }) == once
                &&& !launch_attempted(once, Step::SetStandalone { spawned: second })
            }
        }),
{
}

/// Switching to remote mode always cleans up: afterwards no process is
/// owned, the URL is exactly the given one, and the previously owned
/// process, if any, is the one the caller must kill.
pub proof fn lemma_remote_cleanup(m: Model, url: Seq<char>)
    ensures
        apply(m, Step::SetRemote { url }).active is None,
        apply(m, Step::SetRemote { url }).url == url,
        kill_obligation(m, Step::SetRemote { url }) == m.active,
{
}

/// A failed launch leaves the state exactly as it was.
pub proof fn lemma_failed_spawn_unchanged(m: Model)
    ensures
        apply(m, Step::SetStandalone { spawned: None }) == m,
{
}

/// Shutdown obliges the caller to kill exactly the owned process, and
/// afterwards none is owned, so a second shutdown obliges no further kill.
pub proof fn lemma_shutdown_kills(m: Model)
    ensures
        kill_obligation(m, Step::Shutdown) == m.active,
        apply(m, Step::Shutdown).active is None,
        kill_obligation(apply(m, Step::Shutdown), Step::Shutdown) is None,
{
}

/// The outcome of one attempt of the external launch facility, as the shell
/// reports it: the pid of the new process, or the facility's error message.
pub enum SpawnOutcome {
    Launched { pid: u64 },
    Failed { message: String },
}

/// The pid a launch attempt produced, if it succeeded.
pub open spec fn spawned_pid(outcome: SpawnOutcome) -> Option<u64> {
    match outcome {
        SpawnOutcome::Launched { pid } => Some(pid),
        SpawnOutcome::Failed { .. } => None::<u64>,
    }
}

/// The supervisor state: the single record the shell guards with its
/// mutual-exclusion lock.  It owns at most one local server process,
/// identified by its pid, and advertises one backend URL.
pub struct SupervisorState {
    active_pid: Option<u64>,
    backend_url: String,
}

impl View for SupervisorState {
    type V = Model;

    closed spec fn view(&self) -> Model {
        Model { active: self.active_pid, url: self.backend_url@ }
    }
}

impl SupervisorState {
    /// The freshly started application owns no process and advertises the
    /// canonical local URL.
    pub fn new() -> (s: Self)
        ensures
            s@.active is None,
            s@.url == local_api_url(),
            wf(s@),
    {
        SupervisorState { active_pid: None, backend_url: canonical_local_url() }
    }

    /// The URL the UI layer should use to reach the backend.
    pub fn get_api_url(&self) -> (r: String)
        ensures
            r@ == self@.url,
    {
        self.backend_url.clone()
    }

    /// The currently owned process, if any.
    pub fn active_pid(&self) -> (r: Option<u64>)
        ensures
            r == self@.active,
    {
        self.active_pid
    }

    /// Whether a standalone transition must launch a process now.
    pub fn standalone_needs_spawn(&self) -> (r: bool)
        ensures
            r == needs_spawn(self@),
    {
        self.active_pid.is_none()
    }

    /// Switch to remote mode: drop any owned process and advertise `url`.
    /// Returns the pid the caller must now kill, if any; kill failures are
    /// the caller's to log, never to propagate.
    pub fn set_remote_mode(&mut self, url: String) -> (to_kill: Option<u64>)
        ensures
            final(self)@ == apply(old(self)@, (Step::SetRemote { url: url@ })),
            to_kill == kill_obligation(old(self)@, (Step::SetRemote { url: url@ })),
            wf(final(self)@),
    {
        let to_kill = self.active_pid;
        self.active_pid = None;
        self.backend_url = url;
        to_kill
    }

    /// Switch to standalone mode, given the outcome of the launch attempt
    /// the caller made when [`Self::standalone_needs_spawn`] answered true.
    ///
    /// When a process is already owned the call is a successful no-op and
    /// the outcome is ignored.  Otherwise a successful launch stores the pid
    /// and advertises the canonical local URL, and a failed launch leaves
    /// the state unchanged and surfaces the facility's message.
    pub fn set_standalone_mode(&mut self, outcome: SpawnOutcome) -> (r: Result<(), String>)
        ensures
            final(self)@ == apply(
                old(self)@,
                (Step::SetStandalone { spawned: spawned_pid(outcome) }),
            ),
            r is Ok <==> (old(self)@.active is Some || spawned_pid(outcome) is Some),
            r matches Err(message) ==> (outcome matches SpawnOutcome::Failed {
                message: m,
            } && message == m),
            wf(old(self)@) ==> wf(final(self)@),
    {
        if self.active_pid.is_some() {
            return Ok(());
        }
        match outcome {
            SpawnOutcome::Launched { pid } => {
                self.active_pid = Some(pid);
                self.backend_url = canonical_local_url();
                Ok(())
            },
            SpawnOutcome::Failed { message } => Err(message),
        }
    }

    /// The shutdown transition, taken when the main window is destroyed:
    /// give up the owned process, if any, so the caller can kill it.
    pub fn shutdown(&mut self) -> (to_kill: Option<u64>)
        ensures
            final(self)@ == apply(old(self)@, Step::Shutdown),
            to_kill == kill_obligation(old(self)@, Step::Shutdown),
            wf(old(self)@) ==> wf(final(self)@),
    {
        let to_kill = self.active_pid;
        self.active_pid = None;
        to_kill
    }
}

/// Whether the externally provided startup flag requests standalone mode:
/// exactly the value `"1"` does, anything else or an absent flag does not.
pub fn standalone_requested(flag: &Option<String>) -> (r: bool)
    ensures
        r == match flag {
            Some(v) => v@ == "1"@,
            None => false,
        },
{
    match flag {
        Some(v) => {
            let one = String::from_str("1");
            v.eq(&one)
        },
        None => false,
    }
}

} // verus!
