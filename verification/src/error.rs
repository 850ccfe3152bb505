//! The closed error taxonomy of a reconciliation cycle.

use vstd::prelude::*;

verus! {

/// Why the head of the tracked branch could not be learned from the remote.
#[derive(Clone, Copy, Debug, PartialEq, Eq, Structural)]
pub enum RemoteQueryError {
    /// The service could not be reached, or answered with a failure status.
    Network,
    /// The service refused the access token.
    Auth,
    /// The answer was not a commit listing of the agreed shape.
    Malformed,
    /// The answer was well formed and listed no commit.
    EmptyHistory,
    /// The request did not complete within the time allowed.
    TimedOut,
}

/// Why the head of the working copy could not be read.
#[derive(Clone, Copy, Debug, PartialEq, Eq, Structural)]
pub enum LocalInspectionError {
    /// The tool ran and reported that the path holds no usable repository.
    InvalidRepository,
    /// The tool could not be started.
    ToolUnavailable,
    /// The tool reported success and printed no identifier.
    NoIdentifier,
    /// The tool did not complete within the time allowed.
    TimedOut,
}

/// A stage of the recovery protocol, in the order in which the stages run.
#[derive(Clone, Copy, Debug, PartialEq, Eq, Structural)]
pub enum Stage {
    /// Bringing the remote branches into the remote-tracking namespace.
    Fetch,
    /// Finding out whether the tracked branch exists locally, and creating
    /// it where it does not.
    BranchResolution,
    /// Switching to the tracked branch where it exists.
    Checkout,
    /// Bringing the checked-out branch up to the remote branch.
    Pull,
}

/// Why recovery stopped. The captured output of the failing tool travels
/// with the error so that a failure can be diagnosed without reproducing it.
#[derive(Debug)]
pub enum RecoveryError {
    FetchFailed { stdout: String, stderr: String },
    BranchCreateFailed { stdout: String, stderr: String },
    CheckoutFailed { stdout: String, stderr: String },
    PullFailed { stdout: String, stderr: String },
    /// The tool did not complete a stage within the time allowed.
    TimedOut { stage: Stage },
    /// Every stage succeeded and the working copy still does not stand at
    /// the remote head, as when upstream history was rewritten.
    Diverged { local: String, remote: String },
}

/// The mathematical value of a [`RecoveryError`].
pub enum RecoveryErrorView {
    FetchFailed { stdout: Seq<char>, stderr: Seq<char> },
    BranchCreateFailed { stdout: Seq<char>, stderr: Seq<char> },
    CheckoutFailed { stdout: Seq<char>, stderr: Seq<char> },
    PullFailed { stdout: Seq<char>, stderr: Seq<char> },
    TimedOut { stage: Stage },
    Diverged { local: Seq<char>, remote: Seq<char> },
}

impl View for RecoveryError {
    type V = RecoveryErrorView;

    open spec fn view(&self) -> RecoveryErrorView {
        match *self {
            RecoveryError::FetchFailed { stdout, stderr } => RecoveryErrorView::FetchFailed {
                stdout: stdout@,
                stderr: stderr@,
            },
            RecoveryError::BranchCreateFailed {
                stdout,
                stderr,
            } => RecoveryErrorView::BranchCreateFailed { stdout: stdout@, stderr: stderr@ },
            RecoveryError::CheckoutFailed { stdout, stderr } => RecoveryErrorView::CheckoutFailed {
                stdout: stdout@,
                stderr: stderr@,
            },
            RecoveryError::PullFailed { stdout, stderr } => RecoveryErrorView::PullFailed {
                stdout: stdout@,
                stderr: stderr@,
            },
            RecoveryError::TimedOut { stage } => RecoveryErrorView::TimedOut { stage },
            RecoveryError::Diverged { local, remote } => RecoveryErrorView::Diverged {
                local: local@,
                remote: remote@,
            },
        }
    }
}

/// Any error that ends a cycle.
#[derive(Debug)]
pub enum ReconcileError {
    Remote(RemoteQueryError),
    Local(LocalInspectionError),
    Recovery(RecoveryError),
}

/// The mathematical value of a [`ReconcileError`].
pub enum ReconcileErrorView {
    Remote(RemoteQueryError),
    Local(LocalInspectionError),
    Recovery(RecoveryErrorView),
}

impl View for ReconcileError {
    type V = ReconcileErrorView;

    open spec fn view(&self) -> ReconcileErrorView {
        match *self {
            ReconcileError::Remote(e) => ReconcileErrorView::Remote(e),
            ReconcileError::Local(e) => ReconcileErrorView::Local(e),
            ReconcileError::Recovery(e) => ReconcileErrorView::Recovery(e@),
        }
    }
}

/// The stage that a recovery error belongs to; a divergence is found after
/// the last stage and is counted with it.
pub open spec fn failed_stage(e: RecoveryErrorView) -> Stage {
    match e {
        RecoveryErrorView::FetchFailed { .. } => Stage::Fetch,
        RecoveryErrorView::BranchCreateFailed { .. } => Stage::BranchResolution,
        RecoveryErrorView::CheckoutFailed { .. } => Stage::Checkout,
        RecoveryErrorView::PullFailed { .. } => Stage::Pull,
        RecoveryErrorView::TimedOut { stage } => stage,
        RecoveryErrorView::Diverged { .. } => Stage::Pull,
    }
}

impl RecoveryError {
    /// The stage at which recovery stopped.
    pub fn stage(&self) -> (s: Stage)
        ensures
            s == failed_stage(self@),
    {
        match self {
            RecoveryError::FetchFailed { .. } => Stage::Fetch,
            RecoveryError::BranchCreateFailed { .. } => Stage::BranchResolution,
            RecoveryError::CheckoutFailed { .. } => Stage::Checkout,
            RecoveryError::PullFailed { .. } => Stage::Pull,
            RecoveryError::TimedOut { stage } => *stage,
            RecoveryError::Diverged { .. } => Stage::Pull,
        }
    }
}

impl RemoteQueryError {
    /// The error in words.
    pub open spec fn text(self) -> Seq<char> {
        match self {
            RemoteQueryError::Network => "the remote could not be reached"@,
            RemoteQueryError::Auth => "the remote refused the access token"@,
            RemoteQueryError::Malformed => "the remote answered with a malformed response"@,
            RemoteQueryError::EmptyHistory => "the remote lists no commit for the branch"@,
            RemoteQueryError::TimedOut => "the remote did not answer in time"@,
        }
    }

    /// Describes the error for a log line.
    pub fn message(&self) -> (m: String)
        ensures
            m@ == "Failed to get latest commit from remote: "@ + self.text(),
    {
        let mut m = String::from_str("Failed to get latest commit from remote: ");
        m.append(
            match self {
                RemoteQueryError::Network => "the remote could not be reached",
                RemoteQueryError::Auth => "the remote refused the access token",
                RemoteQueryError::Malformed => "the remote answered with a malformed response",
                RemoteQueryError::EmptyHistory => "the remote lists no commit for the branch",
                RemoteQueryError::TimedOut => "the remote did not answer in time",
            },
        );
        m
    }
}

impl LocalInspectionError {
    /// The error in words.
    pub open spec fn text(self) -> Seq<char> {
        match self {
            LocalInspectionError::InvalidRepository => "the path holds no valid repository"@,
            LocalInspectionError::ToolUnavailable => "the tool could not be started"@,
            LocalInspectionError::NoIdentifier => "the tool printed no identifier"@,
            LocalInspectionError::TimedOut => "the tool did not finish in time"@,
        }
    }

    /// Describes the error for a log line.
    pub fn message(&self) -> (m: String)
        ensures
            m@ == "Failed to get local commit: "@ + self.text(),
    {
        let mut m = String::from_str("Failed to get local commit: ");
        m.append(
            match self {
                LocalInspectionError::InvalidRepository => "the path holds no valid repository",
                LocalInspectionError::ToolUnavailable => "the tool could not be started",
                LocalInspectionError::NoIdentifier => "the tool printed no identifier",
                LocalInspectionError::TimedOut => "the tool did not finish in time",
            },
        );
        m
    }
}

impl Stage {
    /// The name of the stage.
    pub open spec fn name(self) -> Seq<char> {
        match self {
            Stage::Fetch => "fetch"@,
            Stage::BranchResolution => "branch resolution"@,
            Stage::Checkout => "checkout"@,
            Stage::Pull => "pull"@,
        }
    }

    /// The name of the stage, for a log line.
    pub fn label(&self) -> (l: &'static str)
        ensures
            l@ == self.name(),
    {
        match self {
            Stage::Fetch => "fetch",
            Stage::BranchResolution => "branch resolution",
            Stage::Checkout => "checkout",
            Stage::Pull => "pull",
        }
    }
}

/// A message followed by the captured output of the tool.
pub open spec fn with_output(what: Seq<char>, stdout: Seq<char>, stderr: Seq<char>) -> Seq<char> {
    what + " stdout: "@ + stdout + ", stderr: "@ + stderr
}

fn append_output(m: &mut String, stdout: &String, stderr: &String)
    ensures
        final(m)@ == with_output(old(m)@, stdout@, stderr@),
{
    m.append(" stdout: ");
    m.append(stdout.as_str());
    m.append(", stderr: ");
    m.append(stderr.as_str());
}

impl RecoveryErrorView {
    /// The error in words, for the tracked branch `branch`. It names the
    /// stage and carries what the tool printed.
    pub open spec fn text(self, branch: Seq<char>) -> Seq<char> {
        match self {
            RecoveryErrorView::FetchFailed { stdout, stderr } => with_output(
                "Failed to fetch from remote."@,
                stdout,
                stderr,
            ),
            RecoveryErrorView::BranchCreateFailed { stdout, stderr } => with_output(
                "Failed to create and checkout branch '"@ + branch + "'."@,
                stdout,
                stderr,
            ),
            RecoveryErrorView::CheckoutFailed { stdout, stderr } => with_output(
                "Failed to checkout branch '"@ + branch + "'."@,
                stdout,
                stderr,
            ),
            RecoveryErrorView::PullFailed { stdout, stderr } => with_output(
                "Failed to pull changes."@,
                stdout,
                stderr,
            ),
            RecoveryErrorView::TimedOut { stage } => "Timed out during "@ + stage.name() + "."@,
            RecoveryErrorView::Diverged { local, remote } => "Pulled, but the local head "@ + local
                + " is not the remote head "@ + remote + "."@,
        }
    }
}

impl RecoveryError {
    /// Describes the error for a log line.
    pub fn message(&self, branch: &str) -> (m: String)
        ensures
            m@ == self@.text(branch@),
    {
        match self {
            RecoveryError::FetchFailed { stdout, stderr } => {
                let mut m = String::from_str("Failed to fetch from remote.");
                append_output(&mut m, stdout, stderr);
                m
            },
            RecoveryError::BranchCreateFailed { stdout, stderr } => {
                let mut m = String::from_str("Failed to create and checkout branch '");
                m.append(branch);
                m.append("'.");
                append_output(&mut m, stdout, stderr);
                m
            },
            RecoveryError::CheckoutFailed { stdout, stderr } => {
                let mut m = String::from_str("Failed to checkout branch '");
                m.append(branch);
                m.append("'.");
                append_output(&mut m, stdout, stderr);
                m
            },
            RecoveryError::PullFailed { stdout, stderr } => {
                let mut m = String::from_str("Failed to pull changes.");
                append_output(&mut m, stdout, stderr);
                m
            },
            RecoveryError::TimedOut { stage } => {
                let mut m = String::from_str("Timed out during ");
                m.append(stage.label());
                m.append(".");
                m
            },
            RecoveryError::Diverged { local, remote } => {
                let mut m = String::from_str("Pulled, but the local head ");
                m.append(local.as_str());
                m.append(" is not the remote head ");
                m.append(remote.as_str());
                m.append(".");
                m
            },
        }
    }
}

impl ReconcileErrorView {
    /// The error in words, for the tracked branch `branch`.
    pub open spec fn text(self, branch: Seq<char>) -> Seq<char> {
        match self {
            ReconcileErrorView::Remote(e) => "Failed to get latest commit from remote: "@
                + e.text(),
            ReconcileErrorView::Local(e) => "Failed to get local commit: "@ + e.text(),
            ReconcileErrorView::Recovery(e) => e.text(branch),
        }
    }
}

impl ReconcileError {
    /// Describes the error for a log line.
    pub fn message(&self, branch: &str) -> (m: String)
        ensures
            m@ == self@.text(branch@),
    {
        match self {
            ReconcileError::Remote(e) => e.message(),
            ReconcileError::Local(e) => e.message(),
            ReconcileError::Recovery(e) => e.message(branch),
        }
    }
}

} // verus!
