//! A reference model of a working copy and of the remote branch it follows.
//!
//! The model answers the actions of the engine the way the tool and the
//! remote service are expected to, with nothing but a few identifiers as
//! its state. [`reconcile`] runs a whole cycle against it. What a cycle
//! leaves behind is the function [`settled`], and the guarantees of the
//! protocol over whole cycles are proved of that function.

use crate::engine::{
    transition, Action, ActionView, Engine, EngineView, Event, EventView, Outcome, OutcomeView,
    Step, StepView,
};
use crate::error::{
    ReconcileErrorView, RemoteQueryError, Stage,
};
use crate::inspector::{
    is_white_space, lemma_leading_white_space, lemma_trailing_white_space, trimmed, white_space,
};
use crate::tool::{Exit, Operation, ToolOutput, ToolOutputView};
use vstd::prelude::*;

verus! {

/// A text that can stand for a commit: it is not empty and neither begins
/// nor ends with white space.
pub open spec fn is_identifier(s: Seq<char>) -> bool {
    s.len() > 0 && !is_white_space(s[0]) && !is_white_space(s.last())
}

/// Decides whether a text can stand for a commit.
pub fn identifier(s: &str) -> (b: bool)
    ensures
        b == is_identifier(s@),
{
    let n: usize = s.unicode_len();
    n > 0 && !white_space(s.get_char(0)) && !white_space(s.get_char(n - 1))
}

/// An identifier printed on a line of its own is read back as itself.
pub proof fn lemma_identifier_line(id: Seq<char>)
    requires
        is_identifier(id),
    ensures
        trimmed(id + "\n"@) == id,
{
    reveal_strlit("\n");
    let line = id + "\n"@;
    assert(line.len() == id.len() + 1);
    assert(line[0] == id[0]);
    assert(line[id.len() - 1] == id.last());
    assert(line[id.len() as int] == '\n');
    lemma_leading_white_space(line, 0);
    lemma_trailing_white_space(line, id.len() as int);
    assert(line.subrange(0, id.len() as int) =~= id);
}

/// How the remote service answers.
#[derive(Clone, Copy, Debug, PartialEq, Eq, Structural)]
pub enum Availability {
    /// It answers, and the branch has commits.
    Serving,
    /// It cannot be reached.
    Unreachable,
    /// It refuses the token.
    Unauthorized,
    /// It answers, and the branch lists no commit.
    Empty,
}

/// The remote branch as the model sees it.
#[derive(Debug)]
pub struct RemoteBranch {
    availability: Availability,
    head: String,
}

/// The mathematical value of a [`RemoteBranch`].
pub struct RemoteBranchView {
    pub availability: Availability,
    pub head: Seq<char>,
}

impl View for RemoteBranch {
    type V = RemoteBranchView;

    closed spec fn view(&self) -> RemoteBranchView {
        RemoteBranchView { availability: self.availability, head: self.head@ }
    }
}

impl RemoteBranchView {
    pub open spec fn well_formed(self) -> bool {
        is_identifier(self.head)
    }

    /// What the resolver learns from this remote.
    pub open spec fn answer(self) -> Result<Seq<char>, RemoteQueryError> {
        match self.availability {
            Availability::Serving => Ok(self.head),
            Availability::Unreachable => Err(RemoteQueryError::Network),
            Availability::Unauthorized => Err(RemoteQueryError::Auth),
            Availability::Empty => Err(RemoteQueryError::EmptyHistory),
        }
    }
}

impl RemoteBranch {
    /// A remote branch whose head is `head`; `None` where `head` cannot
    /// stand for a commit.
    pub fn new(head: String, availability: Availability) -> (remote: Option<RemoteBranch>)
        ensures
            remote is Some <==> is_identifier(head@),
            remote matches Some(r) ==> r@ == (RemoteBranchView { availability, head: head@ })
                && r@.well_formed(),
    {
        if identifier(head.as_str()) {
            Some(RemoteBranch { availability, head })
        } else {
            None
        }
    }

    /// What the resolver learns from this remote.
    pub fn answer(&self) -> (r: Result<String, RemoteQueryError>)
        ensures
            match r {
                Ok(id) => self@.answer() == Ok::<Seq<char>, RemoteQueryError>(id@),
                Err(e) => self@.answer() == Err::<Seq<char>, RemoteQueryError>(e),
            },
    {
        match self.availability {
            Availability::Serving => Ok(self.head.clone()),
            Availability::Unreachable => Err(RemoteQueryError::Network),
            Availability::Unauthorized => Err(RemoteQueryError::Auth),
            Availability::Empty => Err(RemoteQueryError::EmptyHistory),
        }
    }
}

/// A working copy as the model sees it.
#[derive(Debug)]
pub struct WorkingCopy {
    head: String,
    branch: Option<String>,
    upstream: Option<String>,
}

/// The mathematical value of a [`WorkingCopy`].
pub struct WorkingCopyView {
    /// The identifier at the checked-out head.
    pub head: Seq<char>,
    /// The tip of the tracked branch, where the branch exists locally.
    pub branch: Option<Seq<char>>,
    /// The remote-tracking ref of the tracked branch, once it was fetched.
    pub upstream: Option<Seq<char>>,
}

impl View for WorkingCopy {
    type V = WorkingCopyView;

    closed spec fn view(&self) -> WorkingCopyView {
        WorkingCopyView {
            head: self.head@,
            branch: match self.branch {
                Some(tip) => Some(tip@),
                None => None,
            },
            upstream: match self.upstream {
                Some(tip) => Some(tip@),
                None => None,
            },
        }
    }
}

impl WorkingCopyView {
    pub open spec fn well_formed(self) -> bool {
        &&& is_identifier(self.head)
        &&& self.branch matches Some(tip) ==> is_identifier(tip)
        &&& self.upstream matches Some(tip) ==> is_identifier(tip)
    }
}

/// The output of an invocation that succeeded and printed `stdout`.
pub open spec fn succeeded(stdout: Seq<char>) -> ToolOutputView {
    ToolOutputView { exit: Exit::Success, stdout, stderr: Seq::empty() }
}

/// The output of an invocation that failed.
pub open spec fn failed() -> ToolOutputView {
    ToolOutputView { exit: Exit::Failure, stdout: Seq::empty(), stderr: Seq::empty() }
}

/// What an operation does to the working copy and what the tool reports.
/// An operation of the stage `fault` fails; a failed operation changes
/// nothing.
pub open spec fn performed(
    copy: WorkingCopyView,
    remote: RemoteBranchView,
    fault: Option<Stage>,
    op: Operation,
) -> (WorkingCopyView, ToolOutputView) {
    let serving = remote.availability == Availability::Serving;
    match op {
        Operation::ReadHead => (copy, succeeded(copy.head + "\n"@)),
        Operation::VerifyBranch => (
            copy,
            if copy.branch is Some {
                succeeded(Seq::empty())
            } else {
                failed()
            },
        ),
        Operation::Fetch => if fault == Some(Stage::Fetch) || !serving {
            (copy, failed())
        } else {
            (WorkingCopyView { upstream: Some(remote.head), ..copy }, succeeded(Seq::empty()))
        },
        Operation::CreateBranch => if fault == Some(Stage::BranchResolution) || copy.branch is Some
            || copy.upstream is None {
            (copy, failed())
        } else {
            (
                WorkingCopyView { head: copy.upstream->Some_0, branch: copy.upstream, ..copy },
                succeeded(Seq::empty()),
            )
        },
        Operation::Checkout => if fault == Some(Stage::Checkout) || copy.branch is None {
            (copy, failed())
        } else {
            (WorkingCopyView { head: copy.branch->Some_0, ..copy }, succeeded(Seq::empty()))
        },
        Operation::Pull => if fault == Some(Stage::Pull) || !serving || copy.branch is None {
            (copy, failed())
        } else {
            (
                WorkingCopyView {
                    head: remote.head,
                    branch: Some(remote.head),
                    upstream: Some(remote.head),
                },
                succeeded(Seq::empty()),
            )
        },
    }
}

fn strikes(fault: Option<Stage>, stage: Stage) -> (b: bool)
    ensures
        b == (fault == Some(stage)),
{
    match fault {
        Some(s) => s == stage,
        None => false,
    }
}

fn success(stdout: String) -> (out: ToolOutput)
    ensures
        out@ == succeeded(stdout@),
{
    ToolOutput { exit: Exit::Success, stdout, stderr: String::new() }
}

fn failure() -> (out: ToolOutput)
    ensures
        out@ == failed(),
{
    ToolOutput { exit: Exit::Failure, stdout: String::new(), stderr: String::new() }
}

impl WorkingCopy {
    /// A working copy that stands at `head`, with the tracked branch at
    /// `branch` where it exists and nothing fetched yet; `None` where one
    /// of the two cannot stand for a commit.
    pub fn new(head: String, branch: Option<String>) -> (copy: Option<WorkingCopy>)
        ensures
            copy matches Some(c) ==> c@.well_formed() && c@.head == head@ && c@.upstream is None
                && match branch {
                Some(tip) => c@.branch == Some(tip@),
                None => c@.branch is None,
            },
            copy is Some <==> is_identifier(head@) && (branch matches Some(tip) ==> is_identifier(
                tip@,
            )),
    {
        if !identifier(head.as_str()) {
            return None;
        }
        match &branch {
            Some(tip) => if !identifier(tip.as_str()) {
                return None;
            },
            None => {},
        }
        Some(WorkingCopy { head, branch, upstream: None })
    }

    /// The identifier at the checked-out head.
    pub fn head(&self) -> (id: &String)
        ensures
            id@ == self@.head,
    {
        &self.head
    }

    /// Whether the tracked branch exists locally.
    pub fn has_branch(&self) -> (b: bool)
        ensures
            b == self@.branch is Some,
    {
        self.branch.is_some()
    }

    /// Performs one operation of the tool on the model.
    pub fn perform(&mut self, remote: &RemoteBranch, fault: Option<Stage>, op: Operation) -> (out:
        ToolOutput)
        requires
            old(self)@.well_formed(),
            remote@.well_formed(),
        ensures
            (final(self)@, out@) == performed(old(self)@, remote@, fault, op),
            final(self)@.well_formed(),
    {
        let serving = match remote.availability {
            Availability::Serving => true,
            _ => false,
        };
        match op {
            Operation::ReadHead => {
                let mut line = self.head.clone();
                line.append("\n");
                success(line)
            },
            Operation::VerifyBranch => {
                if self.branch.is_some() {
                    success(String::new())
                } else {
                    failure()
                }
            },
            Operation::Fetch => {
                if strikes(fault, Stage::Fetch) || !serving {
                    failure()
                } else {
                    self.upstream = Some(remote.head.clone());
                    success(String::new())
                }
            },
            Operation::CreateBranch => {
                if strikes(fault, Stage::BranchResolution) || self.branch.is_some() {
                    return failure();
                }
                let tip = match &self.upstream {
                    Some(tip) => tip.clone(),
                    None => { return failure(); },
                };
                self.head = tip.clone();
                self.branch = Some(tip);
                success(String::new())
            },
            Operation::Checkout => {
                if strikes(fault, Stage::Checkout) {
                    return failure();
                }
                let tip = match &self.branch {
                    Some(tip) => tip.clone(),
                    None => { return failure(); },
                };
                self.head = tip;
                success(String::new())
            },
            Operation::Pull => {
                if strikes(fault, Stage::Pull) || !serving || self.branch.is_none() {
                    failure()
                } else {
                    self.head = remote.head.clone();
                    self.branch = Some(remote.head.clone());
                    self.upstream = Some(remote.head.clone());
                    success(String::new())
                }
            },
        }
    }
}

/// What a cycle leaves behind: the working copy after it, how it ended,
/// and the operations of the tool that it asked for, in order.
pub struct Settled {
    pub copy: WorkingCopyView,
    pub outcome: OutcomeView,
    pub operations: Seq<Operation>,
}

/// The outcome of a cycle that stopped at `stage`.
pub open spec fn stopped_at(stage: Stage) -> OutcomeView {
    OutcomeView::Failed(
        ReconcileErrorView::Recovery(crate::engine::stage_failure(stage, failed())),
    )
}

/// What one cycle leaves behind when it runs against the model.
///
/// A remote that gives no head ends the cycle before the tool is started.
/// Equal heads end it after the reading of the local head. Unequal heads
/// start recovery: fetch, then creation of the tracked branch where it is
/// absent or a switch to it where it exists, then pull, then a second
/// reading of the head. A stage that `fault` strikes stops the cycle and
/// leaves what the stages before it did.
pub open spec fn settled(copy: WorkingCopyView, remote: RemoteBranchView, fault: Option<Stage>)
    -> Settled {
    let read = Seq::<Operation>::empty().push(Operation::ReadHead);
    match remote.answer() {
        Err(e) => Settled {
            copy,
            outcome: OutcomeView::Failed(ReconcileErrorView::Remote(e)),
            operations: Seq::empty(),
        },
        Ok(target) => if copy.head == target {
            Settled { copy, outcome: OutcomeView::UpToDate, operations: read }
        } else if fault == Some(Stage::Fetch) {
            Settled {
                copy,
                outcome: stopped_at(Stage::Fetch),
                operations: read.push(Operation::Fetch),
            }
        } else {
            let fetched = WorkingCopyView { upstream: Some(target), ..copy };
            let checked = read.push(Operation::Fetch).push(Operation::VerifyBranch);
            let aligned = WorkingCopyView {
                head: target,
                branch: Some(target),
                upstream: Some(target),
            };
            let synchronized = OutcomeView::Synchronized { old_id: copy.head, new_id: target };
            match copy.branch {
                None => {
                    let resolved = checked.push(Operation::CreateBranch);
                    if fault == Some(Stage::BranchResolution) {
                        Settled {
                            copy: fetched,
                            outcome: stopped_at(Stage::BranchResolution),
                            operations: resolved,
                        }
                    } else if fault == Some(Stage::Pull) {
                        Settled {
                            copy: aligned,
                            outcome: stopped_at(Stage::Pull),
                            operations: resolved.push(Operation::Pull),
                        }
                    } else {
                        Settled {
                            copy: aligned,
                            outcome: synchronized,
                            operations: resolved.push(Operation::Pull).push(Operation::ReadHead),
                        }
                    }
                },
                Some(tip) => {
                    let resolved = checked.push(Operation::Checkout);
                    if fault == Some(Stage::Checkout) {
                        Settled {
                            copy: fetched,
                            outcome: stopped_at(Stage::Checkout),
                            operations: resolved,
                        }
                    } else if fault == Some(Stage::Pull) {
                        Settled {
                            copy: WorkingCopyView { head: tip, ..fetched },
                            outcome: stopped_at(Stage::Pull),
                            operations: resolved.push(Operation::Pull),
                        }
                    } else {
                        Settled {
                            copy: aligned,
                            outcome: synchronized,
                            operations: resolved.push(Operation::Pull).push(Operation::ReadHead),
                        }
                    }
                },
            }
        },
    }
}

/// The rest of a cycle in which `action` is pending: the model answers the
/// action, the engine steps, and so on until the engine is done. `None`
/// where the engine is not done after `fuel` actions.
pub open spec fn course(
    s: EngineView,
    copy: WorkingCopyView,
    remote: RemoteBranchView,
    fault: Option<Stage>,
    action: ActionView,
    asked: Seq<Operation>,
    fuel: nat,
) -> Option<Settled>
    decreases fuel,
{
    if fuel == 0 {
        None
    } else {
        let (copy_after, event, asked_after) = match action {
            ActionView::Query { .. } => (copy, EventView::RemoteHead(remote.answer()), asked),
            ActionView::Run(invocation) => {
                let (c, out) = performed(copy, remote, fault, invocation.operation);
                (c, EventView::Tool(out), asked.push(invocation.operation))
            },
        };
        let (t, step) = transition(s, event);
        match step {
            StepView::Done(outcome) => Some(
                Settled { copy: copy_after, outcome, operations: asked_after },
            ),
            StepView::Next(next) => course(
                t,
                copy_after,
                remote,
                fault,
                next,
                asked_after,
                (fuel - 1) as nat,
            ),
            StepView::Ignored => None,
        }
    }
}

/// A cycle that the engine opens runs its course in at most eight actions
/// and leaves behind what [`settled`] says.
pub proof fn lemma_course_settles(
    s: EngineView,
    copy: WorkingCopyView,
    remote: RemoteBranchView,
    fault: Option<Stage>,
)
    requires
        copy.well_formed(),
        remote.well_formed(),
    ensures
        course(s.opened(), copy, remote, fault, s.opening_action(), Seq::empty(), 8) == Some(
            settled(copy, remote, fault),
        ),
{
    reveal_with_fuel(course, 9);
    lemma_identifier_line(copy.head);
    lemma_identifier_line(remote.head);
    if copy.branch is Some {
        lemma_identifier_line(copy.branch->Some_0);
    }
}

/// What [`reconcile`] reports of a cycle.
#[derive(Debug)]
pub struct Report {
    pub outcome: Outcome,
    /// The operations of the tool that the cycle asked for, in order.
    pub operations: Vec<Operation>,
}

/// Runs one cycle of `engine` against the model: opens it, answers every
/// action from the model and steps until the engine is done.
pub fn reconcile(
    engine: &mut Engine,
    copy: &mut WorkingCopy,
    remote: &RemoteBranch,
    fault: Option<Stage>,
) -> (report: Report)
    requires
        old(copy)@.well_formed(),
        remote@.well_formed(),
    ensures
        final(copy)@ == settled(old(copy)@, remote@, fault).copy,
        report.outcome@ == settled(old(copy)@, remote@, fault).outcome,
        report.operations@ == settled(old(copy)@, remote@, fault).operations,
        final(copy)@.well_formed(),
        final(engine)@ == old(engine)@.idle(),
{
    let ghost start = copy@;
    let ghost configured = engine@;
    let ghost mut fuel: nat = 8;
    let mut operations: Vec<Operation> = Vec::new();
    let mut action = engine.begin();
    proof {
        lemma_course_settles(configured, start, remote@, fault);
        assert(operations@ =~= Seq::<Operation>::empty());
    }
    loop
        invariant
            start == old(copy)@,
            configured == old(engine)@,
            copy@.well_formed(),
            remote@.well_formed(),
            engine@.repo_path == configured.repo_path,
            engine@.remote == configured.remote,
            course(engine@, copy@, remote@, fault, action@, operations@, fuel) == Some(
                settled(start, remote@, fault),
            ),
        decreases fuel,
    {
        let event = match &action {
            Action::Query { .. } => Event::RemoteHead(remote.answer()),
            Action::Run(invocation) => {
                operations.push(invocation.operation);
                Event::Tool(copy.perform(remote, fault, invocation.operation))
            },
        };
        match engine.step(event) {
            Step::Done(outcome) => {
                return Report { outcome, operations };
            },
            Step::Next(next) => {
                action = next;
                proof {
                    fuel = (fuel - 1) as nat;
                }
            },
            Step::Ignored => {
                assert(false);
            },
        }
    }
}

} // verus!
