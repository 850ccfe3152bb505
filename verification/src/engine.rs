//! The reconciliation engine: one cycle of compare-then-recover as a state
//! machine.
//!
//! The engine decides and the caller acts. [`Engine::begin`] opens a cycle
//! and names the first action; the caller performs it and hands the answer
//! to [`Engine::step`], which names the next action or ends the cycle with
//! its [`Outcome`]. What the engine does is the function [`transition`], of
//! which the guarantees of the protocol are proved.

use crate::error::{
    LocalInspectionError, ReconcileError, ReconcileErrorView, RecoveryError, RecoveryErrorView,
    RemoteQueryError, Stage,
};
use crate::inspector::{head_reading, read_head};
use crate::remote::{RemoteDescriptor, RemoteDescriptorView};
use crate::resolver::{reply_document, reply_head, resolve, RemoteReply};
use crate::tool::{
    invocation_for, Exit, Invocation, InvocationView, Operation, ToolOutput, ToolOutputView,
};
use vstd::prelude::*;

verus! {

/// Where a cycle stands: which answer the engine is waiting for.
#[derive(Clone, Copy, Debug, PartialEq, Eq, Structural)]
pub enum Phase {
    /// No cycle is open.
    Idle,
    /// Waiting for the remote head.
    ResolvingRemote,
    /// Waiting for the local head.
    InspectingLocal,
    /// Waiting for the fetch.
    Fetching,
    /// Waiting to learn whether the tracked branch exists locally.
    CheckingBranch,
    /// Waiting for the creation of the tracked branch.
    CreatingBranch,
    /// Waiting for the switch to the tracked branch.
    CheckingOut,
    /// Waiting for the pull.
    Pulling,
    /// Waiting for the local head after the pull.
    Confirming,
}

/// What the caller is asked to do next.
#[derive(Debug)]
pub enum Action {
    /// Ask the remote for the commits of the tracked branch: a GET of `url`
    /// with basic authentication, an empty user name and `token` as password.
    Query { url: String, token: String },
    /// Start the tool with these arguments and capture what it prints.
    Run(Invocation),
}

/// The mathematical value of an [`Action`].
pub enum ActionView {
    Query { url: Seq<char>, token: Seq<char> },
    Run(InvocationView),
}

impl View for Action {
    type V = ActionView;

    open spec fn view(&self) -> ActionView {
        match *self {
            Action::Query { url, token } => ActionView::Query { url: url@, token: token@ },
            Action::Run(invocation) => ActionView::Run(invocation@),
        }
    }
}

impl ActionView {
    /// Whether performing the action may change the working copy.
    pub open spec fn mutates(self) -> bool {
        match self {
            ActionView::Query { .. } => false,
            ActionView::Run(invocation) => invocation.operation.mutates(),
        }
    }
}

/// The answer to the action that was asked for.
#[derive(Debug)]
pub enum Event {
    /// The remote head, or why it could not be learned.
    RemoteHead(Result<String, RemoteQueryError>),
    /// What the tool printed and how it ended.
    Tool(ToolOutput),
}

/// The mathematical value of an [`Event`].
pub enum EventView {
    RemoteHead(Result<Seq<char>, RemoteQueryError>),
    Tool(ToolOutputView),
}

impl View for Event {
    type V = EventView;

    open spec fn view(&self) -> EventView {
        match *self {
            Event::RemoteHead(Ok(id)) => EventView::RemoteHead(Ok(id@)),
            Event::RemoteHead(Err(e)) => EventView::RemoteHead(Err(e)),
            Event::Tool(out) => EventView::Tool(out@),
        }
    }
}

/// How a cycle ended.
#[derive(Debug)]
pub enum Outcome {
    /// The working copy already stood at the remote head; nothing was changed.
    UpToDate,
    /// Recovery ran and the working copy moved from `old_id` to `new_id`,
    /// the remote head.
    Synchronized { old_id: String, new_id: String },
    /// The cycle stopped with an error; the next cycle starts from scratch.
    Failed(ReconcileError),
}

/// The mathematical value of an [`Outcome`].
pub enum OutcomeView {
    UpToDate,
    Synchronized { old_id: Seq<char>, new_id: Seq<char> },
    Failed(ReconcileErrorView),
}

impl View for Outcome {
    type V = OutcomeView;

    open spec fn view(&self) -> OutcomeView {
        match *self {
            Outcome::UpToDate => OutcomeView::UpToDate,
            Outcome::Synchronized { old_id, new_id } => OutcomeView::Synchronized {
                old_id: old_id@,
                new_id: new_id@,
            },
            Outcome::Failed(e) => OutcomeView::Failed(e@),
        }
    }
}

/// What the engine answers to an event.
#[derive(Debug)]
pub enum Step {
    /// The cycle goes on with this action.
    Next(Action),
    /// The cycle is over.
    Done(Outcome),
    /// The event answers no pending action; nothing changed.
    Ignored,
}

/// The mathematical value of a [`Step`].
pub enum StepView {
    Next(ActionView),
    Done(OutcomeView),
    Ignored,
}

impl View for Step {
    type V = StepView;

    open spec fn view(&self) -> StepView {
        match *self {
            Step::Next(action) => StepView::Next(action@),
            Step::Done(outcome) => StepView::Done(outcome@),
            Step::Ignored => StepView::Ignored,
        }
    }
}

/// The state of the engine as a mathematical value.
pub struct EngineView {
    /// The path of the working copy.
    pub repo_path: Seq<char>,
    /// The remote that the working copy follows.
    pub remote: RemoteDescriptorView,
    pub phase: Phase,
    /// The remote head of the open cycle, once it is known.
    pub remote_id: Seq<char>,
    /// The local head that the open cycle started from, once it is known.
    pub local_id: Seq<char>,
}

impl EngineView {
    /// The invocation that performs `op` for this engine's working copy.
    pub open spec fn invocation(self, op: Operation) -> InvocationView {
        invocation_for(op, self.repo_path, self.remote)
    }

    /// The state with no cycle open. No identifier outlives its cycle.
    pub open spec fn idle(self) -> EngineView {
        EngineView {
            phase: Phase::Idle,
            remote_id: Seq::empty(),
            local_id: Seq::empty(),
            ..self
        }
    }

    /// The state after `begin`: a fresh cycle that waits for the remote head.
    pub open spec fn opened(self) -> EngineView {
        EngineView { phase: Phase::ResolvingRemote, ..self.idle() }
    }

    /// The action that opens a cycle.
    pub open spec fn opening_action(self) -> ActionView {
        ActionView::Query { url: self.remote.query_url(), token: self.remote.token() }
    }

    /// The cycle goes on: the engine waits in `phase` for the answer to `op`.
    pub open spec fn proceed(self, phase: Phase, op: Operation) -> (EngineView, StepView) {
        (EngineView { phase, ..self }, StepView::Next(ActionView::Run(self.invocation(op))))
    }

    /// The cycle ends with `outcome`.
    pub open spec fn finish(self, outcome: OutcomeView) -> (EngineView, StepView) {
        (self.idle(), StepView::Done(outcome))
    }

    /// The cycle ends with a recovery error.
    pub open spec fn abort(self, e: RecoveryErrorView) -> (EngineView, StepView) {
        self.finish(OutcomeView::Failed(ReconcileErrorView::Recovery(e)))
    }
}

/// The error of a recovery stage whose invocation did not succeed.
pub open spec fn stage_failure(stage: Stage, out: ToolOutputView) -> RecoveryErrorView {
    if out.exit == Exit::TimedOut {
        RecoveryErrorView::TimedOut { stage }
    } else {
        match stage {
            Stage::Fetch => RecoveryErrorView::FetchFailed {
                stdout: out.stdout,
                stderr: out.stderr,
            },
            Stage::BranchResolution => RecoveryErrorView::BranchCreateFailed {
                stdout: out.stdout,
                stderr: out.stderr,
            },
            Stage::Checkout => RecoveryErrorView::CheckoutFailed {
                stdout: out.stdout,
                stderr: out.stderr,
            },
            Stage::Pull => RecoveryErrorView::PullFailed {
                stdout: out.stdout,
                stderr: out.stderr,
            },
        }
    }
}

/// What the engine does with the answer of the tool.
pub open spec fn on_tool(s: EngineView, out: ToolOutputView) -> (EngineView, StepView) {
    match s.phase {
        Phase::Idle | Phase::ResolvingRemote => (s, StepView::Ignored),
        Phase::InspectingLocal => match head_reading(out) {
            Err(e) => s.finish(OutcomeView::Failed(ReconcileErrorView::Local(e))),
            Ok(id) => if id == s.remote_id {
                s.finish(OutcomeView::UpToDate)
            } else {
                EngineView { local_id: id, ..s }.proceed(Phase::Fetching, Operation::Fetch)
            },
        },
        Phase::Fetching => if out.exit == Exit::Success {
            s.proceed(Phase::CheckingBranch, Operation::VerifyBranch)
        } else {
            s.abort(stage_failure(Stage::Fetch, out))
        },
        Phase::CheckingBranch => if out.exit == Exit::Success {
            s.proceed(Phase::CheckingOut, Operation::Checkout)
        } else if out.exit == Exit::TimedOut {
            s.abort(stage_failure(Stage::BranchResolution, out))
        } else {
            s.proceed(Phase::CreatingBranch, Operation::CreateBranch)
        },
        Phase::CreatingBranch => if out.exit == Exit::Success {
            s.proceed(Phase::Pulling, Operation::Pull)
        } else {
            s.abort(stage_failure(Stage::BranchResolution, out))
        },
        Phase::CheckingOut => if out.exit == Exit::Success {
            s.proceed(Phase::Pulling, Operation::Pull)
        } else {
            s.abort(stage_failure(Stage::Checkout, out))
        },
        Phase::Pulling => if out.exit == Exit::Success {
            s.proceed(Phase::Confirming, Operation::ReadHead)
        } else {
            s.abort(stage_failure(Stage::Pull, out))
        },
        Phase::Confirming => match head_reading(out) {
            Err(e) => s.finish(OutcomeView::Failed(ReconcileErrorView::Local(e))),
            Ok(id) => if id == s.remote_id {
                s.finish(OutcomeView::Synchronized { old_id: s.local_id, new_id: id })
            } else {
                s.abort(RecoveryErrorView::Diverged { local: id, remote: s.remote_id })
            },
        },
    }
}

/// What the engine does with an event: the state it moves to and the step it
/// answers with.
///
/// A failed lookup of either head ends the cycle before any invocation that
/// could change the working copy. Equal heads end it as up to date. Unequal
/// heads start recovery, whose invocations follow one another in a fixed
/// order, each only after the one before it succeeded. An event that answers
/// nothing pending leaves the state as it is.
pub open spec fn transition(s: EngineView, e: EventView) -> (EngineView, StepView) {
    match e {
        EventView::RemoteHead(answer) => if s.phase == Phase::ResolvingRemote {
            match answer {
                Ok(id) => EngineView { remote_id: id, ..s }.proceed(
                    Phase::InspectingLocal,
                    Operation::ReadHead,
                ),
                Err(e) => s.finish(OutcomeView::Failed(ReconcileErrorView::Remote(e))),
            }
        } else {
            (s, StepView::Ignored)
        },
        EventView::Tool(out) => on_tool(s, out),
    }
}

/// Builds the error of a recovery stage from the output of its invocation.
pub fn stage_error(stage: Stage, out: ToolOutput) -> (e: RecoveryError)
    ensures
        e@ == stage_failure(stage, out@),
{
    let ToolOutput { exit, stdout, stderr } = out;
    match exit {
        Exit::TimedOut => RecoveryError::TimedOut { stage },
        _ => match stage {
            Stage::Fetch => RecoveryError::FetchFailed { stdout, stderr },
            Stage::BranchResolution => RecoveryError::BranchCreateFailed { stdout, stderr },
            Stage::Checkout => RecoveryError::CheckoutFailed { stdout, stderr },
            Stage::Pull => RecoveryError::PullFailed { stdout, stderr },
        },
    }
}

/// The engine of one working copy and its remote.
#[derive(Debug)]
pub struct Engine {
    repo_path: String,
    remote: RemoteDescriptor,
    phase: Phase,
    remote_id: String,
    local_id: String,
}

impl View for Engine {
    type V = EngineView;

    closed spec fn view(&self) -> EngineView {
        EngineView {
            repo_path: self.repo_path@,
            remote: self.remote@,
            phase: self.phase,
            remote_id: self.remote_id@,
            local_id: self.local_id@,
        }
    }
}

/// Whether recovery is under way in a phase.
pub open spec fn recovering(phase: Phase) -> bool {
    phase != Phase::Idle && phase != Phase::ResolvingRemote && phase != Phase::InspectingLocal
}

impl Engine {
    /// Recovery is under way only while the two heads differ.
    #[verifier::type_invariant]
    spec fn coherent(self) -> bool {
        recovering(self.phase) ==> self.local_id@ != self.remote_id@
    }

    /// An engine for the working copy at `repo_path`, with no cycle open.
    pub fn new(repo_path: String, remote: RemoteDescriptor) -> (engine: Engine)
        ensures
            engine@ == (EngineView {
                repo_path: repo_path@,
                remote: remote@,
                phase: Phase::Idle,
                remote_id: Seq::empty(),
                local_id: Seq::empty(),
            }),
    {
        Engine {
            repo_path,
            remote,
            phase: Phase::Idle,
            remote_id: String::new(),
            local_id: String::new(),
        }
    }

    /// Where the cycle stands.
    pub fn phase(&self) -> (p: Phase)
        ensures
            p == self@.phase,
    {
        self.phase
    }

    /// The remote that the working copy follows.
    pub fn remote(&self) -> (r: &RemoteDescriptor)
        ensures
            r@ == self@.remote,
    {
        &self.remote
    }

    /// The path of the working copy.
    pub fn repo_path(&self) -> (p: &String)
        ensures
            p@ == self@.repo_path,
    {
        &self.repo_path
    }

    /// Opens a cycle and names its first action, the query for the remote
    /// head. A cycle that was still open is given up: nothing of it is kept.
    pub fn begin(&mut self) -> (action: Action)
        ensures
            final(self)@ == old(self)@.opened(),
            action@ == old(self)@.opening_action(),
    {
        self.phase = Phase::ResolvingRemote;
        self.remote_id = String::new();
        self.local_id = String::new();
        Action::Query { url: self.remote.query_url(), token: self.remote.token().clone() }
    }

    fn proceed(&mut self, phase: Phase, op: Operation) -> (r: Step)
        requires
            recovering(phase) ==> old(self)@.local_id != old(self)@.remote_id,
        ensures
            (final(self)@, r@) == old(self)@.proceed(phase, op),
    {
        self.phase = phase;
        Step::Next(Action::Run(Invocation::new(op, &self.repo_path, &self.remote)))
    }

    fn finish(&mut self, outcome: Outcome) -> (r: Step)
        ensures
            (final(self)@, r@) == old(self)@.finish(outcome@),
    {
        self.phase = Phase::Idle;
        self.remote_id = String::new();
        self.local_id = String::new();
        Step::Done(outcome)
    }

    fn abort(&mut self, e: RecoveryError) -> (r: Step)
        ensures
            (final(self)@, r@) == old(self)@.abort(e@),
    {
        self.finish(Outcome::Failed(ReconcileError::Recovery(e)))
    }

    fn local_failure(&mut self, e: LocalInspectionError) -> (r: Step)
        ensures
            (final(self)@, r@) == old(self)@.finish(
                OutcomeView::Failed(ReconcileErrorView::Local(e)),
            ),
    {
        self.finish(Outcome::Failed(ReconcileError::Local(e)))
    }

    fn after_stage(&mut self, stage: Stage, out: ToolOutput, phase: Phase, op: Operation) -> (r:
        Step)
        requires
            old(self)@.local_id != old(self)@.remote_id,
        ensures
            (final(self)@, r@) == if out@.exit == Exit::Success {
                old(self)@.proceed(phase, op)
            } else {
                old(self)@.abort(stage_failure(stage, out@))
            },
    {
        match out.exit {
            Exit::Success => self.proceed(phase, op),
            _ => self.abort(stage_error(stage, out)),
        }
    }

    /// Takes what came back from the commit query, resolves the remote head
    /// from it and says how the cycle goes on.
    pub fn step_on_reply(&mut self, reply: &RemoteReply) -> (r: Step)
        ensures
            (final(self)@, r@) == transition(
                old(self)@,
                EventView::RemoteHead(reply_head(reply@, reply_document(reply@))),
            ),
            !(r@ matches StepView::Done(OutcomeView::Synchronized { .. })),
    {
        self.step(Event::RemoteHead(resolve(reply)))
    }

    /// Takes the answer to the pending action and says how the cycle goes on.
    ///
    /// A cycle that ends synchronized has moved the working copy: the
    /// identifier it ends at is not the one it started from.
    pub fn step(&mut self, event: Event) -> (r: Step)
        ensures
            (final(self)@, r@) == transition(old(self)@, event@),
            r@ matches StepView::Done(OutcomeView::Synchronized { old_id, new_id }) ==> old_id
                != new_id,
    {
        proof {
            use_type_invariant(&*self);
        }
        match event {
            Event::RemoteHead(answer) => match self.phase {
                Phase::ResolvingRemote => match answer {
                    Ok(id) => {
                        self.remote_id = id;
                        self.proceed(Phase::InspectingLocal, Operation::ReadHead)
                    },
                    Err(e) => self.finish(Outcome::Failed(ReconcileError::Remote(e))),
                },
                _ => Step::Ignored,
            },
            Event::Tool(out) => match self.phase {
                Phase::Idle => Step::Ignored,
                Phase::ResolvingRemote => Step::Ignored,
                Phase::InspectingLocal => match read_head(&out) {
                    Err(e) => self.local_failure(e),
                    Ok(id) => if id == self.remote_id {
                        self.finish(Outcome::UpToDate)
                    } else {
                        self.local_id = id;
                        self.proceed(Phase::Fetching, Operation::Fetch)
                    },
                },
                Phase::Fetching => self.after_stage(
                    Stage::Fetch,
                    out,
                    Phase::CheckingBranch,
                    Operation::VerifyBranch,
                ),
                Phase::CheckingBranch => match out.exit {
                    Exit::Success => self.proceed(Phase::CheckingOut, Operation::Checkout),
                    Exit::TimedOut => self.abort(stage_error(Stage::BranchResolution, out)),
                    _ => self.proceed(Phase::CreatingBranch, Operation::CreateBranch),
                },
                Phase::CreatingBranch => self.after_stage(
                    Stage::BranchResolution,
                    out,
                    Phase::Pulling,
                    Operation::Pull,
                ),
                Phase::CheckingOut => self.after_stage(
                    Stage::Checkout,
                    out,
                    Phase::Pulling,
                    Operation::Pull,
                ),
                Phase::Pulling => self.after_stage(
                    Stage::Pull,
                    out,
                    Phase::Confirming,
                    Operation::ReadHead,
                ),
                Phase::Confirming => match read_head(&out) {
                    Err(e) => self.local_failure(e),
                    Ok(id) => if id == self.remote_id {
                        let old_id = self.local_id.clone();
                        self.finish(Outcome::Synchronized { old_id, new_id: id })
                    } else {
                        let remote = self.remote_id.clone();
                        self.abort(RecoveryError::Diverged { local: id, remote })
                    },
                },
            },
        }
    }
}

} // verus!
