//! The sandbox controller: a state machine that bootstraps the runtime in two
//! dependent steps (classloader, then runtime), serializes evaluation requests
//! against it, and captures terminal errors.
//!
//! The controller does no asynchronous work itself. Each transition returns the
//! bridge call that the surrounding event loop must start, and the result of
//! that call comes back later as a new message.

use vstd::prelude::*;

verus! {

/// An opaque token for a loaded classloading context, held by the event loop.
#[derive(Debug, Clone, Copy, PartialEq, Eq, Structural)]
pub struct ClassloaderHandle {
    pub id: u64,
}

/// An opaque token for an evaluation runtime bound to a classloader.
#[derive(Debug, Clone, Copy, PartialEq, Eq, Structural)]
pub struct RuntimeHandle {
    pub id: u64,
}

/// The state of the controller.
#[derive(Debug, PartialEq, Eq)]
pub enum SandboxState {
    /// Waiting for the classloader.
    Bootstrapping,
    /// The classloader is there; waiting for the runtime.
    ClassloaderAcquired(ClassloaderHandle),
    /// Both handles are there; `last` is the outcome of the latest evaluation
    /// that resolved.
    Ready {
        classloader: ClassloaderHandle,
        runtime: RuntimeHandle,
        last: Option<Result<String, String>>,
    },
    /// A bootstrap error was captured. No message leaves this state.
    Faulted(String),
}

/// The messages that the controller reacts to.
#[derive(Debug, PartialEq, Eq)]
pub enum SandboxMsg {
    /// The classloader was created.
    ClassloaderReady(ClassloaderHandle),
    /// The runtime was created.
    RuntimeReady(RuntimeHandle),
    /// The user submitted source text for evaluation.
    Invoke(String),
    /// An evaluation resolved, with its output or its error.
    FusionResult(Result<String, String>),
    /// A bootstrap step failed.
    RuntimeError(String),
}

/// The bridge call that a transition asks the event loop to start.
#[derive(Debug, PartialEq, Eq)]
pub enum SandboxAction {
    /// Nothing to start.
    Idle,
    /// Create the classloader; answer with `ClassloaderReady` or `RuntimeError`.
    CreateClassloader,
    /// Create the runtime on this classloader; answer with `RuntimeReady` or
    /// `RuntimeError`.
    CreateRuntime(ClassloaderHandle),
    /// Evaluate the source on these handles; answer with `FusionResult`.
    Evaluate(ClassloaderHandle, RuntimeHandle, String),
}

/// What one transition hands back: whether the visible content changed, and
/// the bridge call to start.
#[derive(Debug, PartialEq, Eq)]
pub struct SandboxStep {
    pub rerender: bool,
    pub action: SandboxAction,
}

/// What the view layer shows for a state.
#[derive(Debug, PartialEq, Eq)]
pub enum SandboxView {
    /// Bootstrap is still running.
    Loading,
    /// The editor is shown, with the latest outcome, if any.
    Ready(Option<Result<String, String>>),
    /// The captured error.
    Error(String),
}

/// The sandbox takes no properties from the page that mounts it.
#[derive(Debug, Default, Clone, Copy, PartialEq, Eq, Structural)]
pub struct EmptyProps;

/// The controller of one sandbox session.
#[derive(Debug, PartialEq, Eq)]
pub struct FusionSandbox {
    pub state: SandboxState,
}

/// The state after `m` is handled in `s`.
pub open spec fn next_state(s: SandboxState, m: SandboxMsg) -> SandboxState {
    match s {
        SandboxState::Faulted(_) => s,
        SandboxState::Bootstrapping => match m {
            SandboxMsg::ClassloaderReady(h) => SandboxState::ClassloaderAcquired(h),
            SandboxMsg::RuntimeError(e) => SandboxState::Faulted(e),
            _ => s,
        },
        SandboxState::ClassloaderAcquired(h) => match m {
            SandboxMsg::RuntimeReady(r) => SandboxState::Ready {
                classloader: h,
                runtime: r,
                last: None,
            },
            SandboxMsg::RuntimeError(e) => SandboxState::Faulted(e),
            _ => s,
        },
        SandboxState::Ready { classloader, runtime, last } => match m {
            SandboxMsg::FusionResult(o) => SandboxState::Ready {
                classloader,
                runtime,
                last: Some(o),
            },
            SandboxMsg::RuntimeError(e) => SandboxState::Faulted(e),
            _ => s,
        },
    }
}

/// The bridge call started when `m` is handled in `s`.
pub open spec fn next_action(s: SandboxState, m: SandboxMsg) -> SandboxAction {
    match (s, m) {
        (SandboxState::Bootstrapping, SandboxMsg::ClassloaderReady(h)) => SandboxAction::CreateRuntime(h),
        (SandboxState::Ready { classloader, runtime, .. }, SandboxMsg::Invoke(src)) =>
            SandboxAction::Evaluate(classloader, runtime, src),
        _ => SandboxAction::Idle,
    }
}

/// Whether handling `m` in `s` changes what is shown.
pub open spec fn changes_view(s: SandboxState, m: SandboxMsg) -> bool {
    match (s, m) {
        (SandboxState::Faulted(_), _) => false,
        (SandboxState::ClassloaderAcquired(_), SandboxMsg::RuntimeReady(_)) => true,
        (SandboxState::Ready { .. }, SandboxMsg::FusionResult(_)) => true,
        (_, SandboxMsg::RuntimeError(_)) => true,
        _ => false,
    }
}

/// What is shown in state `s`.
pub open spec fn view_of(s: SandboxState) -> SandboxView {
    match s {
        SandboxState::Faulted(e) => SandboxView::Error(e),
        SandboxState::Ready { last, .. } => SandboxView::Ready(last),
        _ => SandboxView::Loading,
    }
}

fn clone_outcome(o: &Option<Result<String, String>>) -> (r: Option<Result<String, String>>)
    ensures
        r == *o,
{
    match o {
        None => None,
        Some(Ok(s)) => Some(Ok(s.clone())),
        Some(Err(e)) => Some(Err(e.clone())),
    }
}

impl FusionSandbox {
    /// A freshly mounted sandbox, and the first bootstrap step to start.
    pub fn create() -> (r: (FusionSandbox, SandboxAction))
        ensures
            r.0.state == SandboxState::Bootstrapping,
            r.1 == SandboxAction::CreateClassloader,
    {
        (FusionSandbox { state: SandboxState::Bootstrapping }, SandboxAction::CreateClassloader)
    }

    /// Handles one message.
    pub fn update(&mut self, msg: SandboxMsg) -> (r: SandboxStep)
        ensures
            final(self).state == next_state(old(self).state, msg),
            r.action == next_action(old(self).state, msg),
            r.rerender == changes_view(old(self).state, msg),
    {
        let idle = SandboxStep { rerender: false, action: SandboxAction::Idle };
        if let SandboxState::Faulted(_) = self.state {
            return idle;
        }
        match msg {
            SandboxMsg::ClassloaderReady(h) => {
                if let SandboxState::Bootstrapping = self.state {
                    self.state = SandboxState::ClassloaderAcquired(h);
                    SandboxStep { rerender: false, action: SandboxAction::CreateRuntime(h) }
                } else {
                    idle
                }
            },
            SandboxMsg::RuntimeReady(r) => {
                if let SandboxState::ClassloaderAcquired(h) = self.state {
                    self.state = SandboxState::Ready { classloader: h, runtime: r, last: None };
                    SandboxStep { rerender: true, action: SandboxAction::Idle }
                } else {
                    idle
                }
            },
            SandboxMsg::Invoke(src) => {
                if let SandboxState::Ready { classloader, runtime, .. } = self.state {
                    SandboxStep {
                        rerender: false,
                        action: SandboxAction::Evaluate(classloader, runtime, src),
                    }
                } else {
                    idle
                }
            },
            SandboxMsg::FusionResult(o) => {
                if let SandboxState::Ready { classloader, runtime, .. } = self.state {
                    self.state = SandboxState::Ready { classloader, runtime, last: Some(o) };
                    SandboxStep { rerender: true, action: SandboxAction::Idle }
                } else {
                    idle
                }
            },
            SandboxMsg::RuntimeError(e) => {
                self.state = SandboxState::Faulted(e);
                SandboxStep { rerender: true, action: SandboxAction::Idle }
            },
        }
    }

    /// What the view layer shows now.
    pub fn view(&self) -> (r: SandboxView)
        ensures
            r == view_of(self.state),
    {
        match &self.state {
            SandboxState::Faulted(e) => SandboxView::Error(e.clone()),
            SandboxState::Ready { last, .. } => SandboxView::Ready(clone_outcome(last)),
            _ => SandboxView::Loading,
        }
    }
}

/// Bootstrap: from a freshly mounted sandbox, a classloader followed by a
/// runtime reaches `Ready` with no outcome yet, starting the runtime's creation
/// on that very classloader on the way.
pub proof fn lemma_bootstrap_reaches_ready(h: ClassloaderHandle, r: RuntimeHandle)
    ensures
        next_state(SandboxState::Bootstrapping, SandboxMsg::ClassloaderReady(h))
            == SandboxState::ClassloaderAcquired(h),
        next_action(SandboxState::Bootstrapping, SandboxMsg::ClassloaderReady(h))
            == SandboxAction::CreateRuntime(h),
        next_state(
            next_state(SandboxState::Bootstrapping, SandboxMsg::ClassloaderReady(h)),
            SandboxMsg::RuntimeReady(r),
        ) == (SandboxState::Ready { classloader: h, runtime: r, last: None }),
{
}

/// A bootstrap failure, at either step, faults the sandbox.
pub proof fn lemma_bootstrap_failure_faults(h: ClassloaderHandle, e: String)
    ensures
        next_state(SandboxState::Bootstrapping, SandboxMsg::RuntimeError(e))
            == SandboxState::Faulted(e),
        next_state(SandboxState::ClassloaderAcquired(h), SandboxMsg::RuntimeError(e))
            == SandboxState::Faulted(e),
{
}

/// `Faulted` is absorbing: no message changes the state, starts a bridge call
/// or changes what is shown.
pub proof fn lemma_faulted_is_absorbing(e: String, m: SandboxMsg)
    ensures
        next_state(SandboxState::Faulted(e), m) == SandboxState::Faulted(e),
        next_action(SandboxState::Faulted(e), m) == SandboxAction::Idle,
        !changes_view(SandboxState::Faulted(e), m),
{
}

/// Evaluation in `Ready`: a submit starts the evaluation of exactly that source
/// on the held handles and changes nothing else; its outcome, success or error,
/// becomes `last`, and the sandbox stays `Ready`.
pub proof fn lemma_evaluation_stays_ready(
    h: ClassloaderHandle,
    r: RuntimeHandle,
    last: Option<Result<String, String>>,
    src: String,
    outcome: Result<String, String>,
)
    ensures
        ({
            let s = SandboxState::Ready { classloader: h, runtime: r, last };
            &&& next_state(s, SandboxMsg::Invoke(src)) == s
            &&& next_action(s, SandboxMsg::Invoke(src)) == SandboxAction::Evaluate(h, r, src)
            &&& next_state(s, SandboxMsg::FusionResult(outcome)) == (SandboxState::Ready {
                classloader: h,
                runtime: r,
                last: Some(outcome),
            })
        }),
{
}

/// Two submits `a` then `b` issued before either resolves: whichever outcome
/// resolves last is the one kept, here `a`'s, which resolves after `b`'s.
pub proof fn lemma_last_resolved_wins(
    h: ClassloaderHandle,
    r: RuntimeHandle,
    last: Option<Result<String, String>>,
    a: String,
    b: String,
    a_outcome: Result<String, String>,
    b_outcome: Result<String, String>,
)
    ensures
        ({
            let s0 = SandboxState::Ready { classloader: h, runtime: r, last };
            let s1 = next_state(s0, SandboxMsg::Invoke(a));
            let s2 = next_state(s1, SandboxMsg::Invoke(b));
            let s3 = next_state(s2, SandboxMsg::FusionResult(b_outcome));
            let s4 = next_state(s3, SandboxMsg::FusionResult(a_outcome));
            &&& next_action(s0, SandboxMsg::Invoke(a)) == SandboxAction::Evaluate(h, r, a)
            &&& next_action(s1, SandboxMsg::Invoke(b)) == SandboxAction::Evaluate(h, r, b)
            &&& s4 == (SandboxState::Ready {
                classloader: h,
                runtime: r,
                last: Some(a_outcome),
            })
        }),
{
}

} // verus!
