//! The dictation session: the single source of truth for "is a worker
//! currently running", and the state machine that serializes toggle
//! requests.
//!
//! The session is generic in the handle type `H` so that the state machine
//! is verified for any notion of an owned child-process handle. The
//! surrounding program instantiates `H` with its real process handle, keeps
//! the one session behind its mutual-exclusion guard, and performs the
//! outside work (playing cues, spawning, signalling) that each returned
//! [`ToggleAction`] asks for.

use vstd::prelude::*;
use vstd::string::StringExecFns;

use crate::launch::{
    dir_view, plan_launch, EnvSnapshot, EnvSnapshotModel, LaunchPlan, LaunchSpec, StartError,
};

verus! {

/// The two externally observable states of a session.
#[derive(Clone, Copy, Debug, PartialEq, Eq, Structural)]
pub enum SessionState {
    Idle,
    Recording,
}

/// The human-readable status the surrounding program displays, updated
/// synchronously as a side effect of each transition.
#[derive(Clone, Debug)]
pub enum Status {
    Ready,
    Recording,
    Stopped,
    Failed(StartError),
}

impl Status {
    /// The status line the program displays: `Ready`, `Recording...`,
    /// `Stopped`, or a description of the failure.
    pub fn text(&self) -> (t: String)
        ensures
            self is Ready ==> t@ == "Ready"@,
            self is Recording ==> t@ == "Recording..."@,
            self is Stopped ==> t@ == "Stopped"@,
            self matches Status::Failed(StartError::ConfigMissing) ==> t@
                == "Cannot start: the API key is not configured"@,
            self matches Status::Failed(StartError::PathResolution) ==> t@
                == "Failed to start: the application binary's directory is unknown"@,
            self matches Status::Failed(StartError::Spawn { detail }) ==> t@
                == "Failed to start: "@ + detail@,
    {
        match self {
            Status::Ready => "Ready".to_owned(),
            Status::Recording => "Recording...".to_owned(),
            Status::Stopped => "Stopped".to_owned(),
            Status::Failed(StartError::ConfigMissing) => {
                "Cannot start: the API key is not configured".to_owned()
            },
            Status::Failed(StartError::PathResolution) => {
                "Failed to start: the application binary's directory is unknown".to_owned()
            },
            Status::Failed(StartError::Spawn { detail }) => {
                let mut t = "Failed to start: ".to_owned();
                t.append(detail.as_str());
                t
            },
        }
    }
}

/// What a toggle request asks the surrounding program to do next.
pub enum ToggleAction<H> {
    /// The session was idle and a start is possible: spawn a worker from
    /// `plan` (after playing the start cue) and report the result through
    /// [`Session::note_start`]. The session itself is unchanged until then.
    StartRequested { plan: LaunchSpec },
    /// The session was idle but the start was refused; the status already
    /// reflects `error` and the session stays idle.
    StartRefused { error: StartError },
    /// The session was recording: run the termination protocol on `handle`
    /// (after playing the stop cue). The session is already idle again.
    StopRequested { handle: H },
}

/// The session record: its state, the exclusively owned handle of the live
/// worker while recording, and the current status text.
pub struct Session<H> {
    pub state: SessionState,
    pub handle: Option<H>,
    pub status: Status,
}

/// The state a single successful toggle leaves behind.
pub open spec fn flip(s: SessionState) -> SessionState {
    match s {
        SessionState::Idle => SessionState::Recording,
        SessionState::Recording => SessionState::Idle,
    }
}

/// The session after a start attempt concluded with `outcome`: on success
/// the session records and owns the handle; on failure it stays idle and
/// only the status changes.
pub open spec fn after_start<H>(pre: Session<H>, outcome: Result<H, StartError>) -> Session<H> {
    match outcome {
        Ok(h) => Session {
            state: SessionState::Recording,
            handle: Some(h),
            status: Status::Recording,
        },
        Err(e) => Session { status: Status::Failed(e), ..pre },
    }
}

/// The session after a stop: idle, the handle given up, status `Stopped`
/// regardless of whether the worker will leave gracefully or by force.
pub open spec fn after_stop<H>(pre: Session<H>) -> Session<H> {
    Session { state: SessionState::Idle, handle: None, status: Status::Stopped }
}

/// The session after teardown: idle with no handle; the status is left
/// alone, since nothing displays it any more.
pub open spec fn after_teardown<H>(pre: Session<H>) -> Session<H> {
    Session { state: SessionState::Idle, handle: None, ..pre }
}

impl<H> Session<H> {
    /// The resource-ownership invariant: the session holds a live child
    /// handle exactly when it is recording.
    pub open spec fn wf(self) -> bool {
        self.handle is Some <==> self.state is Recording
    }

    /// A fresh session: idle, no worker, ready.
    pub fn new() -> (s: Session<H>)
        ensures
            s.wf(),
            s.state is Idle,
            s.handle is None,
            s.status is Ready,
    {
        Session { state: SessionState::Idle, handle: None, status: Status::Ready }
    }

    /// Record the outcome of the start that a [`ToggleAction::StartRequested`]
    /// asked for.
    pub fn note_start(&mut self, outcome: Result<H, StartError>)
        requires
            old(self).wf(),
            old(self).state is Idle,
        ensures
            final(self).wf(),
            *final(self) == after_start(*old(self), outcome),
    {
        match outcome {
            Ok(h) => {
                self.state = SessionState::Recording;
                self.handle = Some(h);
                self.status = Status::Recording;
            },
            Err(e) => {
                self.status = Status::Failed(e);
            },
        }
    }

    /// Leave the recording state: the handle is surrendered to the caller,
    /// which must run the termination protocol on it.
    pub fn begin_stop(&mut self) -> (h: H)
        requires
            old(self).wf(),
            old(self).state is Recording,
        ensures
            final(self).wf(),
            *final(self) == after_stop(*old(self)),
            old(self).handle == Some(h),
    {
        let taken = self.handle.take();
        self.state = SessionState::Idle;
        self.status = Status::Stopped;
        match taken {
            Some(h) => h,
            None => unreached(),
        }
    }

    /// Force the session idle on application shutdown. If a worker was
    /// live its handle is handed back, and the caller must run the
    /// termination protocol on it before the application exits.
    pub fn teardown(&mut self) -> (h: Option<H>)
        requires
            old(self).wf(),
        ensures
            final(self).wf(),
            *final(self) == after_teardown(*old(self)),
            h == old(self).handle,
            (h is Some) <==> (old(self).state is Recording),
    {
        let taken = self.handle.take();
        self.state = SessionState::Idle;
        taken
    }

    /// The single serialized entry point both trigger sources call. It
    /// flips the session: a recording session is stopped on the spot, and
    /// an idle one either hands back the launch plan for the worker or
    /// refuses with the reason recorded in the status.
    pub fn toggle(
        &mut self,
        api_key: &String,
        snapshot: &EnvSnapshot,
        exe_dir: Option<&String>,
    ) -> (a: ToggleAction<H>)
        requires
            old(self).wf(),
        ensures
            final(self).wf(),
            old(self).state is Recording ==> {
                &&& a matches ToggleAction::StopRequested { handle }
                    && old(self).handle == Some(handle)
                &&& *final(self) == after_stop(*old(self))
            },
            old(self).state is Idle ==> match plan_launch(
                api_key@,
                snapshot@,
                dir_view(exe_dir),
            ) {
                Ok(p) => {
                    &&& a matches ToggleAction::StartRequested { plan } && plan@ == p
                    &&& *final(self) == *old(self)
                },
                Err(e) => {
                    &&& a matches ToggleAction::StartRefused { error } && error == e
                    &&& *final(self) == after_start(*old(self), Err(e))
                },
            },
    {
        match self.state {
            SessionState::Recording => {
                let handle = self.begin_stop();
                ToggleAction::StopRequested { handle }
            },
            SessionState::Idle => {
                match crate::launch::build_launch_spec(api_key, snapshot, exe_dir) {
                    Ok(plan) => ToggleAction::StartRequested { plan },
                    Err(error) => match error {
                        StartError::ConfigMissing => {
                            self.status = Status::Failed(StartError::ConfigMissing);
                            ToggleAction::StartRefused { error: StartError::ConfigMissing }
                        },
                        StartError::PathResolution => {
                            self.status = Status::Failed(StartError::PathResolution);
                            ToggleAction::StartRefused { error: StartError::PathResolution }
                        },
                        // a spawn failure is reported by the surrounding
                        // program through `note_start`, never by planning
                        StartError::Spawn { .. } => unreached(),
                    },
                }
            },
        }
    }
}

/// Law: a completed toggle whose start (when one is attempted) succeeds
/// always flips the state, and flipping twice returns to the start; hence
/// along any sequence of such toggles the state alternates strictly
/// between `Idle` and `Recording`.
pub proof fn lemma_toggle_alternates<H>(s: Session<H>, h: H)
    requires
        s.wf(),
    ensures
        flip(s.state) != s.state,
        flip(flip(s.state)) == s.state,
        s.state is Idle ==> after_start(s, Ok(h)).state == flip(s.state),
        s.state is Recording ==> after_stop(s).state == flip(s.state),
{
}

/// The state after `k` completed successful toggles, starting from `Idle`:
/// each one flips the state, as the transition contracts ensure.
pub open spec fn state_after_toggles(k: nat) -> SessionState
    decreases k,
{
    if k == 0 {
        SessionState::Idle
    } else {
        flip(state_after_toggles((k - 1) as nat))
    }
}

/// Law: along any sequence of completed successful toggles the state
/// alternates strictly, `Idle` after every even number of them and
/// `Recording` after every odd number.
pub proof fn lemma_alternation_from_idle(k: nat)
    ensures
        state_after_toggles(k) is Idle <==> k % 2 == 0,
        state_after_toggles(k) is Recording <==> k % 2 == 1,
    decreases k,
{
    if k > 0 {
        lemma_alternation_from_idle((k - 1) as nat);
    }
}

/// Law: the ownership invariant survives every transition.
pub proof fn lemma_transitions_preserve_wf<H>(s: Session<H>, outcome: Result<H, StartError>)
    requires
        s.wf(),
    ensures
        s.state is Idle ==> after_start(s, outcome).wf(),
        after_stop(s).wf(),
        after_teardown(s).wf(),
{
}

/// Law: with an empty API key a start is never granted: planning the
/// launch refuses with `ConfigMissing`, and recording that refusal leaves
/// the session idle — never `Recording` — with the refusal in its status.
pub proof fn lemma_empty_key_never_records<H>(
    s: Session<H>,
    api_key: Seq<char>,
    snap: EnvSnapshotModel,
    exe_dir: Option<Seq<char>>,
)
    requires
        s.wf(),
        s.state is Idle,
        api_key.len() == 0,
    ensures
        plan_launch(api_key, snap, exe_dir) == Err::<LaunchPlan, StartError>(
            StartError::ConfigMissing,
        ),
        after_start(s, Err(StartError::ConfigMissing)).state is Idle,
        after_start(s, Err(StartError::ConfigMissing)).status == Status::Failed(
            StartError::ConfigMissing,
        ),
{
}

/// Law: two toggles issued back to back are two sequential transitions. A
/// successful start leaves the session recording, so the immediately
/// following toggle can only be a stop: a second start (two live workers)
/// is impossible, and the second toggle is not lost.
pub proof fn lemma_no_double_start<H>(s: Session<H>, h: H)
    requires
        s.wf(),
        s.state is Idle,
    ensures
        after_start(s, Ok(h)).state is Recording,
        after_stop(after_start(s, Ok(h))).state is Idle,
        after_stop(after_start(s, Ok(h))).handle is None,
{
}

} // verus!
