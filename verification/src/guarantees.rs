//! What holds of every cycle: of each step, proved of [`transition`], and of
//! whole cycles against the reference model, proved of [`settled`].

use crate::engine::{
    recovering, transition, ActionView, EngineView, EventView, OutcomeView, Phase, StepView,
};
use crate::error::{LocalInspectionError, ReconcileErrorView, RemoteQueryError, Stage};
use crate::inspector::head_reading;
use crate::json::{field, JsonView};
use crate::resolver::{listing_head, reply_head, status_error, RemoteReplyView};
use crate::simulation::{
    lemma_identifier_line, performed, settled, RemoteBranchView, WorkingCopyView,
};
use crate::tool::{Exit, Operation, ToolOutputView};
use vstd::prelude::*;

verus! {

/// How far a cycle has come: the phases in the order in which a cycle
/// passes through them. Creating the branch and switching to it stand at
/// the same place, since a cycle does one or the other.
pub open spec fn progress(phase: Phase) -> nat {
    match phase {
        Phase::Idle => 0,
        Phase::ResolvingRemote => 1,
        Phase::InspectingLocal => 2,
        Phase::Fetching => 3,
        Phase::CheckingBranch => 4,
        Phase::CreatingBranch => 5,
        Phase::CheckingOut => 5,
        Phase::Pulling => 6,
        Phase::Confirming => 7,
    }
}

/// What holds of the state whenever a cycle is open: recovery is under way
/// only while the two heads differ.
pub open spec fn coherent(s: EngineView) -> bool {
    recovering(s.phase) ==> s.local_id != s.remote_id
}

/// Every step leaves the configuration alone and either waits, ends the
/// cycle, or moves it strictly forward. A cycle therefore ends after at
/// most seven answered events, and no stage runs twice or out of order.
pub proof fn lemma_steps_move_forward(s: EngineView, e: EventView)
    ensures
        ({
            let (t, step) = transition(s, e);
            &&& t.repo_path == s.repo_path
            &&& t.remote == s.remote
            &&& step is Ignored ==> t == s
            &&& step is Done ==> t.phase == Phase::Idle
            &&& step is Next ==> 1 <= progress(s.phase) < progress(t.phase)
            &&& coherent(s) ==> coherent(t)
            &&& recovering(s.phase) <==> progress(s.phase) >= 3
        }),
{
}

/// A cycle opens coherent.
pub proof fn lemma_opened_is_coherent(s: EngineView)
    ensures
        coherent(s.opened()),
        progress(s.opened().phase) == 1,
{
}

/// A failed lookup of the remote head ends the cycle with that error and
/// asks for nothing more: no invocation follows, so the working copy is not
/// touched.
pub proof fn lemma_remote_failure_ends_cycle(s: EngineView, e: RemoteQueryError)
    requires
        s.phase == Phase::ResolvingRemote,
    ensures
        transition(s, EventView::RemoteHead(Err(e))) == s.finish(
            OutcomeView::Failed(ReconcileErrorView::Remote(e)),
        ),
{
}

/// A failed lookup of the local head ends the cycle with that error and
/// asks for nothing more.
pub proof fn lemma_local_failure_ends_cycle(s: EngineView, out: ToolOutputView)
    requires
        s.phase == Phase::InspectingLocal || s.phase == Phase::Confirming,
        head_reading(out) is Err,
    ensures
        transition(s, EventView::Tool(out)) == s.finish(
            OutcomeView::Failed(ReconcileErrorView::Local(head_reading(out)->Err_0)),
        ),
{
}

/// Equal heads end the cycle as up to date, whatever the identifier: from
/// the opening of the cycle to its end the engine asked only for the query
/// and for the reading of the local head, neither of which can change the
/// working copy.
pub proof fn lemma_equal_heads_are_up_to_date(s: EngineView, id: Seq<char>, out: ToolOutputView)
    requires
        head_reading(out) == Ok::<Seq<char>, LocalInspectionError>(id),
    ensures
        ({
            let opened = s.opened();
            let (resolved, first) = transition(opened, EventView::RemoteHead(Ok(id)));
            let (ended, second) = transition(resolved, EventView::Tool(out));
            &&& !s.opening_action().mutates()
            &&& first == StepView::Next(ActionView::Run(s.invocation(Operation::ReadHead)))
            &&& !first->Next_0.mutates()
            &&& second == StepView::Done(OutcomeView::UpToDate)
            &&& ended.phase == Phase::Idle
        }),
{
}

/// An action that may change the working copy is asked for only in answer
/// to the tool, only once both heads are known, and for the first time only
/// when they differ.
pub proof fn lemma_mutation_needs_divergence(s: EngineView, e: EventView)
    requires
        transition(s, e).1 matches StepView::Next(action) && action.mutates(),
    ensures
        e is Tool,
        progress(s.phase) >= 2,
        s.phase == Phase::InspectingLocal ==> {
            &&& head_reading(e->Tool_0) is Ok
            &&& head_reading(e->Tool_0)->Ok_0 != s.remote_id
            &&& transition(s, e).1->Next_0 == ActionView::Run(s.invocation(Operation::Fetch))
        },
{
}

/// Each invocation is asked for in one situation only, the success of the
/// one before it: the stages run in their order and none is skipped.
pub proof fn lemma_stage_order(s: EngineView, out: ToolOutputView)
    requires
        transition(s, EventView::Tool(out)).1 is Next,
    ensures
        ({
            let step = transition(s, EventView::Tool(out)).1;
            &&& step->Next_0 matches ActionView::Run(invocation)
            &&& invocation == s.invocation(invocation.operation)
            &&& match invocation.operation {
                Operation::Fetch => s.phase == Phase::InspectingLocal,
                Operation::VerifyBranch => s.phase == Phase::Fetching && out.exit == Exit::Success,
                Operation::Checkout => s.phase == Phase::CheckingBranch && out.exit
                    == Exit::Success,
                Operation::CreateBranch => s.phase == Phase::CheckingBranch && (out.exit
                    == Exit::Failure || out.exit == Exit::Unavailable),
                Operation::Pull => (s.phase == Phase::CreatingBranch || s.phase
                    == Phase::CheckingOut) && out.exit == Exit::Success,
                Operation::ReadHead => s.phase == Phase::Pulling && out.exit == Exit::Success,
            }
        }),
{
}

/// Whether the tracked branch is created or switched to is decided by the
/// answer to the check of this cycle and by nothing else: a branch that is
/// there is switched to and never created again, one that is not there is
/// created.
pub proof fn lemma_branch_path_follows_check(s: EngineView, out: ToolOutputView)
    requires
        s.phase == Phase::CheckingBranch,
    ensures
        out.exit == Exit::Success ==> transition(s, EventView::Tool(out)) == s.proceed(
            Phase::CheckingOut,
            Operation::Checkout,
        ),
        out.exit == Exit::Failure || out.exit == Exit::Unavailable ==> transition(
            s,
            EventView::Tool(out),
        ) == s.proceed(Phase::CreatingBranch, Operation::CreateBranch),
        out.exit == Exit::TimedOut ==> transition(s, EventView::Tool(out)).1 is Done,
{
}

/// A cycle ends synchronized only when the reading of the local head after
/// the pull gave the identifier that the remote had answered with; the
/// identifier it started from is another one.
pub proof fn lemma_synchronized_means_converged(s: EngineView, e: EventView)
    requires
        transition(s, e).1 matches StepView::Done(outcome) && outcome is Synchronized,
    ensures
        s.phase == Phase::Confirming,
        e matches EventView::Tool(out) && head_reading(out) == Ok::<
            Seq<char>,
            LocalInspectionError,
        >(s.remote_id),
        transition(s, e).1 == StepView::Done(
            OutcomeView::Synchronized { old_id: s.local_id, new_id: s.remote_id },
        ),
        coherent(s) ==> s.local_id != s.remote_id,
{
}

/// A commit listing without commits reads as an empty history: it is an
/// error of the lookup, whatever else the answer holds, and never the same
/// as an unchanged head.
pub proof fn lemma_empty_listing_is_empty_history(reply: RemoteReplyView, doc: JsonView)
    requires
        reply matches RemoteReplyView::Response { status, .. } && status_error(status) is None,
        field(doc, "value"@) == Some(JsonView::List(Seq::empty())),
    ensures
        listing_head(doc) == Err::<Seq<char>, RemoteQueryError>(RemoteQueryError::EmptyHistory),
        reply_head(reply, Some(doc)) == Err::<Seq<char>, RemoteQueryError>(
            RemoteQueryError::EmptyHistory,
        ),
{
}

/// A cycle whose lookup of the remote head fails, be it for an empty
/// history, a refused token or an unreachable service, ends with that
/// error, starts the tool not even once and leaves the working copy as it
/// was.
pub proof fn lemma_failed_lookup_runs_no_stage(
    copy: WorkingCopyView,
    remote: RemoteBranchView,
    fault: Option<Stage>,
)
    requires
        remote.answer() is Err,
    ensures
        settled(copy, remote, fault).copy == copy,
        settled(copy, remote, fault).outcome == OutcomeView::Failed(
            ReconcileErrorView::Remote(remote.answer()->Err_0),
        ),
        settled(copy, remote, fault).operations.len() == 0,
{
}

/// A cycle that finds the working copy at the remote head ends up to date
/// and leaves the working copy as it was, whatever the identifier: the one
/// operation it asks for only reads.
pub proof fn lemma_equal_heads_leave_copy_alone(
    copy: WorkingCopyView,
    remote: RemoteBranchView,
    fault: Option<Stage>,
)
    requires
        remote.answer() == Ok::<Seq<char>, RemoteQueryError>(copy.head),
    ensures
        settled(copy, remote, fault).outcome == OutcomeView::UpToDate,
        settled(copy, remote, fault).copy == copy,
        forall|i: int|
            0 <= i < settled(copy, remote, fault).operations.len() ==> !(#[trigger] settled(
                copy,
                remote,
                fault,
            ).operations[i]).mutates(),
{
}

/// After a cycle that ended synchronized the working copy stands at the
/// identifier that the remote had answered with: reading its head gives
/// that identifier, and a further cycle against the same remote ends up to
/// date.
pub proof fn lemma_synchronized_copy_stands_at_remote_head(
    copy: WorkingCopyView,
    remote: RemoteBranchView,
    fault: Option<Stage>,
)
    requires
        copy.well_formed(),
        remote.well_formed(),
        settled(copy, remote, fault).outcome is Synchronized,
    ensures
        ({
            let after = settled(copy, remote, fault);
            let id = after.copy.head;
            &&& remote.answer() == Ok::<Seq<char>, RemoteQueryError>(id)
            &&& after.outcome == OutcomeView::Synchronized { old_id: copy.head, new_id: id }
            &&& copy.head != id
            &&& head_reading(performed(after.copy, remote, None, Operation::ReadHead).1) == Ok::<
                Seq<char>,
                LocalInspectionError,
            >(id)
            &&& forall|again: Option<Stage>|
                (#[trigger] settled(after.copy, remote, again)).outcome == OutcomeView::UpToDate
        }),
{
    lemma_identifier_line(remote.head);
}

/// Whatever a cycle leaves behind, a working copy that the model can go on
/// with.
pub proof fn lemma_cycle_keeps_copy_well_formed(
    copy: WorkingCopyView,
    remote: RemoteBranchView,
    fault: Option<Stage>,
)
    requires
        copy.well_formed(),
        remote.well_formed(),
    ensures
        settled(copy, remote, fault).copy.well_formed(),
{
}

/// A cycle that stopped partway needs no cleanup. Whatever the earlier
/// cycle met, an unreachable remote or a stage that failed, the next cycle
/// against a remote that serves, with no stage failing, brings the working
/// copy to the remote head: it ends synchronized, or up to date where the
/// earlier cycle had already come that far.
pub proof fn lemma_next_cycle_heals(
    copy: WorkingCopyView,
    earlier: RemoteBranchView,
    fault: Option<Stage>,
    remote: RemoteBranchView,
)
    requires
        copy.well_formed(),
        earlier.well_formed(),
        remote.well_formed(),
        remote.answer() is Ok,
    ensures
        ({
            let left = settled(copy, earlier, fault).copy;
            let target = remote.answer()->Ok_0;
            let healed = settled(left, remote, None);
            &&& healed.copy.head == target
            &&& healed.outcome == if left.head == target {
                OutcomeView::UpToDate
            } else {
                OutcomeView::Synchronized { old_id: left.head, new_id: target }
            }
        }),
{
}

/// A working copy in which the tracked branch exists is never asked to
/// create it, and one in which it is absent is never asked to switch to it.
pub proof fn lemma_branch_paths_exclude_each_other(
    copy: WorkingCopyView,
    remote: RemoteBranchView,
    fault: Option<Stage>,
)
    ensures
        ({
            let asked = settled(copy, remote, fault).operations;
            &&& copy.branch is Some ==> forall|i: int|
                0 <= i < asked.len() ==> #[trigger] asked[i] != Operation::CreateBranch
            &&& copy.branch is None ==> forall|i: int|
                0 <= i < asked.len() ==> #[trigger] asked[i] != Operation::Checkout
        }),
{
}

/// The tracked branch is created exactly once. A cycle that finds it
/// absent creates it; the cycle after that, against a remote that has
/// moved on, finds it there and switches to it.
pub proof fn lemma_branch_is_created_once(
    copy: WorkingCopyView,
    remote: RemoteBranchView,
    later: RemoteBranchView,
)
    requires
        copy.branch is None,
        remote.answer() is Ok,
        remote.answer()->Ok_0 != copy.head,
        later.answer() is Ok,
        later.answer()->Ok_0 != remote.answer()->Ok_0,
    ensures
        ({
            let first = settled(copy, remote, None);
            let second = settled(first.copy, later, None);
            &&& first.copy.branch is Some
            &&& first.operations =~= seq![
                Operation::ReadHead,
                Operation::Fetch,
                Operation::VerifyBranch,
                Operation::CreateBranch,
                Operation::Pull,
                Operation::ReadHead,
            ]
            &&& second.operations =~= seq![
                Operation::ReadHead,
                Operation::Fetch,
                Operation::VerifyBranch,
                Operation::Checkout,
                Operation::Pull,
                Operation::ReadHead,
            ]
        }),
{
}

} // verus!
