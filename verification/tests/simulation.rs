use repo_sync::engine::{Engine, Outcome, Phase};
use repo_sync::error::{ReconcileError, RecoveryError, RemoteQueryError, Stage};
use repo_sync::remote::RemoteDescriptor;
use repo_sync::scheduler::SyncState;
use repo_sync::simulation::{identifier, reconcile, Availability, RemoteBranch, WorkingCopy};
use repo_sync::tool::Operation::{
    Checkout, CreateBranch, Fetch, Pull, ReadHead, VerifyBranch,
};
use repo_sync::tool::{Exit, Operation};

fn engine() -> Engine {
    Engine::new(
        "/srv/agent".to_string(),
        RemoteDescriptor::Hosted {
            organization: "acme".to_string(),
            project: "tools".to_string(),
            repository: "agent".to_string(),
            branch: "main".to_string(),
            token: "pat-token".to_string(),
        },
    )
}

fn copy(head: &str, branch: Option<&str>) -> WorkingCopy {
    WorkingCopy::new(head.to_string(), branch.map(|b| b.to_string())).unwrap()
}

fn remote(head: &str, availability: Availability) -> RemoteBranch {
    RemoteBranch::new(head.to_string(), availability).unwrap()
}

fn serving(head: &str) -> RemoteBranch {
    remote(head, Availability::Serving)
}

fn assert_synchronized(outcome: &Outcome, old: &str, new: &str) {
    match outcome {
        Outcome::Synchronized { old_id, new_id } => {
            assert_eq!(old_id, old);
            assert_eq!(new_id, new);
        }
        other => panic!("expected synchronized, got {:?}", other),
    }
}

#[test]
fn scenario_equal_heads() {
    let mut e = engine();
    let mut c = copy("abc123", Some("abc123"));
    let mut state = SyncState::new(1000);
    let report = reconcile(&mut e, &mut c, &serving("abc123"), None);
    assert!(matches!(report.outcome, Outcome::UpToDate));
    assert_eq!(report.operations, vec![ReadHead]);
    assert_eq!(c.head(), "abc123");
    state.record(&report.outcome, 1030);
    assert_eq!(state.last_change_time, 1000);
    assert_eq!(state.last_check_time, 1030);
}

#[test]
fn scenario_branch_absent_all_stages_succeed() {
    let mut e = engine();
    let mut c = copy("abc123", None);
    assert!(!c.has_branch());
    let mut state = SyncState::new(1000);
    let report = reconcile(&mut e, &mut c, &serving("def456"), None);
    assert_synchronized(&report.outcome, "abc123", "def456");
    assert_eq!(report.operations, vec![ReadHead, Fetch, VerifyBranch, CreateBranch, Pull, ReadHead]);
    assert_eq!(c.head(), "def456");
    assert!(c.has_branch());
    state.record(&report.outcome, 1030);
    assert_eq!(state.last_change_time, 1030);
}

#[test]
fn scenario_unauthorized_remote() {
    let mut e = engine();
    let mut c = copy("abc123", None);
    let report = reconcile(&mut e, &mut c, &remote("def456", Availability::Unauthorized), None);
    assert!(matches!(
        report.outcome,
        Outcome::Failed(ReconcileError::Remote(RemoteQueryError::Auth))
    ));
    assert!(report.operations.is_empty());
    assert_eq!(c.head(), "abc123");
    assert!(!c.has_branch());
    assert_eq!(e.phase(), Phase::Idle);
}

#[test]
fn empty_history_runs_no_stage() {
    let mut e = engine();
    let mut c = copy("abc123", Some("abc123"));
    let report = reconcile(&mut e, &mut c, &remote("def456", Availability::Empty), None);
    assert!(matches!(
        report.outcome,
        Outcome::Failed(ReconcileError::Remote(RemoteQueryError::EmptyHistory))
    ));
    assert!(report.operations.is_empty());
    assert_eq!(c.head(), "abc123");
}

#[test]
fn equal_heads_change_nothing_for_any_identifier() {
    for id in ["a", "abc123", "3f786850e387550fdab836ed7e6dc881de23001b", "x y"] {
        for fault in [None, Some(Stage::Fetch), Some(Stage::Pull)] {
            let mut e = engine();
            let mut c = copy(id, None);
            let report = reconcile(&mut e, &mut c, &serving(id), fault);
            assert!(matches!(report.outcome, Outcome::UpToDate));
            assert!(report.operations.iter().all(|op| !op.is_mutating()));
            assert_eq!(c.head(), id);
            assert!(!c.has_branch());
        }
    }
}

#[test]
fn synchronized_copy_reads_the_remote_head() {
    let r = serving("def456");
    let mut e = engine();
    let mut c = copy("abc123", Some("0a0a0a"));
    let report = reconcile(&mut e, &mut c, &r, None);
    assert_synchronized(&report.outcome, "abc123", "def456");
    let out = c.perform(&r, None, Operation::ReadHead);
    assert_eq!(out.exit, Exit::Success);
    assert_eq!(out.stdout, "def456\n");
    assert_eq!(repo_sync::inspector::read_head(&out).unwrap(), r.answer().unwrap());
    let again = reconcile(&mut e, &mut c, &r, None);
    assert!(matches!(again.outcome, Outcome::UpToDate));
}

#[test]
fn branch_is_created_once_and_switched_to_afterwards() {
    let mut e = engine();
    let mut c = copy("abc123", None);
    let first = reconcile(&mut e, &mut c, &serving("def456"), None);
    assert!(first.operations.contains(&CreateBranch));
    assert!(!first.operations.contains(&Checkout));
    let second = reconcile(&mut e, &mut c, &serving("789abc"), None);
    assert_synchronized(&second.outcome, "def456", "789abc");
    assert_eq!(second.operations, vec![ReadHead, Fetch, VerifyBranch, Checkout, Pull, ReadHead]);
    assert!(!second.operations.contains(&CreateBranch));
    assert_eq!(c.head(), "789abc");
}

#[test]
fn failed_stage_stops_the_cycle_there() {
    let cases = [
        (None, Stage::Fetch, vec![ReadHead, Fetch]),
        (None, Stage::BranchResolution, vec![ReadHead, Fetch, VerifyBranch, CreateBranch]),
        (None, Stage::Pull, vec![ReadHead, Fetch, VerifyBranch, CreateBranch, Pull]),
        (Some("abc123"), Stage::Checkout, vec![ReadHead, Fetch, VerifyBranch, Checkout]),
        (Some("abc123"), Stage::Pull, vec![ReadHead, Fetch, VerifyBranch, Checkout, Pull]),
    ];
    for (branch, stage, operations) in cases {
        let mut e = engine();
        let mut c = copy("abc123", branch);
        let report = reconcile(&mut e, &mut c, &serving("def456"), Some(stage));
        match &report.outcome {
            Outcome::Failed(ReconcileError::Recovery(error)) => {
                assert_eq!(error.stage(), stage);
                assert!(!matches!(error, RecoveryError::TimedOut { .. }));
            }
            other => panic!("expected a failure at {:?}, got {:?}", stage, other),
        }
        assert_eq!(report.operations, operations);
        assert_eq!(e.phase(), Phase::Idle);
    }
}

#[test]
fn fault_of_a_stage_that_does_not_run_changes_nothing() {
    let mut e = engine();
    let mut c = copy("abc123", None);
    let report = reconcile(&mut e, &mut c, &serving("def456"), Some(Stage::Checkout));
    assert_synchronized(&report.outcome, "abc123", "def456");
    let mut c = copy("abc123", Some("abc123"));
    let report = reconcile(&mut e, &mut c, &serving("def456"), Some(Stage::BranchResolution));
    assert_synchronized(&report.outcome, "abc123", "def456");
}

#[test]
fn next_cycle_heals_after_any_failure() {
    for branch in [None, Some("0a0a0a")] {
        for fault in [Stage::Fetch, Stage::BranchResolution, Stage::Checkout, Stage::Pull] {
            let mut e = engine();
            let mut c = copy("abc123", branch);
            let r = serving("def456");
            reconcile(&mut e, &mut c, &r, Some(fault));
            let left = c.head().clone();
            let healed = reconcile(&mut e, &mut c, &r, None);
            if left == "def456" {
                assert!(matches!(healed.outcome, Outcome::UpToDate));
            } else {
                assert_synchronized(&healed.outcome, &left, "def456");
            }
            assert_eq!(c.head(), "def456");
        }
    }
}

#[test]
fn next_cycle_heals_once_the_remote_is_reachable() {
    let mut e = engine();
    let mut c = copy("abc123", None);
    let down = reconcile(&mut e, &mut c, &remote("def456", Availability::Unreachable), None);
    assert!(matches!(
        down.outcome,
        Outcome::Failed(ReconcileError::Remote(RemoteQueryError::Network))
    ));
    assert_eq!(c.head(), "abc123");
    let up = reconcile(&mut e, &mut c, &serving("def456"), None);
    assert_synchronized(&up.outcome, "abc123", "def456");
    assert_eq!(c.head(), "def456");
}

#[test]
fn model_takes_only_identifiers() {
    assert!(identifier("abc123"));
    assert!(identifier("a b"));
    assert!(!identifier(""));
    assert!(!identifier(" abc123"));
    assert!(!identifier("abc123\n"));
    assert!(WorkingCopy::new("abc123\n".to_string(), None).is_none());
    assert!(WorkingCopy::new("abc123".to_string(), Some(String::new())).is_none());
    assert!(WorkingCopy::new("abc123".to_string(), Some("def456".to_string())).is_some());
    assert!(RemoteBranch::new(String::new(), Availability::Serving).is_none());
    assert!(RemoteBranch::new("def456".to_string(), Availability::Empty).is_some());
}

#[test]
fn model_answers_each_operation() {
    let r = serving("def456");
    let mut c = copy("abc123", None);
    assert_eq!(c.perform(&r, None, VerifyBranch).exit, Exit::Failure);
    assert_eq!(c.perform(&r, None, CreateBranch).exit, Exit::Failure);
    assert_eq!(c.perform(&r, None, Checkout).exit, Exit::Failure);
    assert_eq!(c.perform(&r, None, Pull).exit, Exit::Failure);
    assert_eq!(c.head(), "abc123");
    assert_eq!(c.perform(&r, None, Fetch).exit, Exit::Success);
    assert_eq!(c.head(), "abc123");
    assert_eq!(c.perform(&r, None, CreateBranch).exit, Exit::Success);
    assert_eq!(c.head(), "def456");
    assert_eq!(c.perform(&r, None, CreateBranch).exit, Exit::Failure);
    assert_eq!(c.perform(&r, None, VerifyBranch).exit, Exit::Success);
    let moved = serving("789abc");
    assert_eq!(c.perform(&moved, Some(Stage::Pull), Pull).exit, Exit::Failure);
    assert_eq!(c.perform(&remote("789abc", Availability::Unreachable), None, Pull).exit, Exit::Failure);
    assert_eq!(c.perform(&remote("789abc", Availability::Unreachable), None, Fetch).exit, Exit::Failure);
    assert_eq!(c.head(), "def456");
    assert_eq!(c.perform(&moved, None, Pull).exit, Exit::Success);
    assert_eq!(c.head(), "789abc");
    assert_eq!(c.perform(&moved, None, ReadHead).stdout, "789abc\n");
}
