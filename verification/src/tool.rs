//! Invocations of the version-control tool and what comes back from them.
//!
//! The library never starts a process. It says which invocation is due, with
//! every argument spelled out, and reads the output that the caller captured.

use crate::remote::{RemoteDescriptor, RemoteDescriptorView};
use vstd::prelude::*;

verus! {

/// The operations that a cycle may ask of the tool.
#[derive(Clone, Copy, Debug, PartialEq, Eq, Structural)]
pub enum Operation {
    /// Print the identifier at the checked-out head.
    ReadHead,
    /// Bring every remote branch into the remote-tracking namespace, pruning
    /// what was deleted upstream.
    Fetch,
    /// Ask whether the tracked branch exists locally.
    VerifyBranch,
    /// Create the tracked branch from its remote-tracking ref and switch to it.
    CreateBranch,
    /// Switch to the existing tracked branch.
    Checkout,
    /// Bring the checked-out branch up to the remote branch.
    Pull,
}

impl Operation {
    /// Whether the operation may change the working copy.
    pub open spec fn mutates(self) -> bool {
        self != Operation::ReadHead && self != Operation::VerifyBranch
    }

    /// Tells the operations that may change the working copy from those
    /// that only read it.
    pub fn is_mutating(&self) -> (b: bool)
        ensures
            b == self.mutates(),
    {
        match self {
            Operation::ReadHead => false,
            Operation::VerifyBranch => false,
            _ => true,
        }
    }
}

/// The refspec of a fetch: every remote branch, forced, into `origin/`.
pub open spec fn fetch_refspec() -> Seq<char> {
    "+refs/heads/*:refs/remotes/origin/*"@
}

/// The arguments of an operation on the working copy at `repo`, for the
/// tracked branch `branch` of the remote addressed by `url`.
pub open spec fn arguments_for(
    op: Operation,
    repo: Seq<char>,
    branch: Seq<char>,
    url: Seq<char>,
) -> Seq<Seq<char>> {
    let at = seq!["-C"@, repo];
    match op {
        Operation::ReadHead => at + seq!["rev-parse"@, "HEAD"@],
        Operation::Fetch => at + seq!["fetch"@, "--prune"@, url, fetch_refspec()],
        Operation::VerifyBranch => at + seq!["rev-parse"@, "--verify"@, branch],
        Operation::CreateBranch => at + seq![
            "checkout"@,
            "-b"@,
            branch,
            "--track"@,
            "origin/"@ + branch,
        ],
        Operation::Checkout => at + seq!["checkout"@, branch],
        Operation::Pull => at + seq!["pull"@, url, branch],
    }
}

/// The character sequences of a sequence of strings.
pub open spec fn texts(v: Seq<String>) -> Seq<Seq<char>> {
    Seq::new(v.len(), |i: int| v[i]@)
}

/// One invocation of the tool: the operation it performs and the arguments
/// to start the tool with, in order.
#[derive(Debug)]
pub struct Invocation {
    pub operation: Operation,
    pub arguments: Vec<String>,
}

/// The mathematical value of an [`Invocation`].
pub struct InvocationView {
    pub operation: Operation,
    pub arguments: Seq<Seq<char>>,
}

impl View for Invocation {
    type V = InvocationView;

    open spec fn view(&self) -> InvocationView {
        InvocationView { operation: self.operation, arguments: texts(self.arguments@) }
    }
}

/// The invocation that performs `op` for a working copy and a remote.
pub open spec fn invocation_for(
    op: Operation,
    repo: Seq<char>,
    remote: RemoteDescriptorView,
) -> InvocationView {
    InvocationView {
        operation: op,
        arguments: arguments_for(op, repo, remote.branch(), remote.tool_url()),
    }
}

/// The name under which the tool is started.
pub fn tool_name() -> (name: String)
    ensures
        name@ == "git"@,
{
    String::from_str("git")
}

impl Invocation {
    /// Spells out the invocation that performs `op`.
    ///
    /// Fetch and pull name the remote by its full address and pull names the
    /// branch, so that nothing depends on what the working copy has
    /// registered.
    pub fn new(op: Operation, repo: &String, remote: &RemoteDescriptor) -> (inv: Invocation)
        ensures
            inv@ == invocation_for(op, repo@, remote@),
    {
        let mut arguments: Vec<String> = Vec::new();
        arguments.push(String::from_str("-C"));
        arguments.push(repo.clone());
        match op {
            Operation::ReadHead => {
                arguments.push(String::from_str("rev-parse"));
                arguments.push(String::from_str("HEAD"));
            },
            Operation::Fetch => {
                arguments.push(String::from_str("fetch"));
                arguments.push(String::from_str("--prune"));
                arguments.push(remote.tool_url());
                arguments.push(String::from_str("+refs/heads/*:refs/remotes/origin/*"));
            },
            Operation::VerifyBranch => {
                arguments.push(String::from_str("rev-parse"));
                arguments.push(String::from_str("--verify"));
                arguments.push(remote.branch().clone());
            },
            Operation::CreateBranch => {
                let mut upstream = String::from_str("origin/");
                upstream.append(remote.branch().as_str());
                arguments.push(String::from_str("checkout"));
                arguments.push(String::from_str("-b"));
                arguments.push(remote.branch().clone());
                arguments.push(String::from_str("--track"));
                arguments.push(upstream);
            },
            Operation::Checkout => {
                arguments.push(String::from_str("checkout"));
                arguments.push(remote.branch().clone());
            },
            Operation::Pull => {
                arguments.push(String::from_str("pull"));
                arguments.push(remote.tool_url());
                arguments.push(remote.branch().clone());
            },
        }
        assert(texts(arguments@) =~= arguments_for(
            op,
            repo@,
            remote@.branch(),
            remote@.tool_url(),
        ));
        Invocation { operation: op, arguments }
    }
}

/// How an invocation ended.
#[derive(Clone, Copy, Debug, PartialEq, Eq, Structural)]
pub enum Exit {
    /// The tool ran and reported success.
    Success,
    /// The tool ran and reported failure.
    Failure,
    /// The tool could not be started.
    Unavailable,
    /// The tool did not complete within the time allowed.
    TimedOut,
}

/// What the caller captured from one invocation.
#[derive(Debug)]
pub struct ToolOutput {
    pub exit: Exit,
    pub stdout: String,
    pub stderr: String,
}

/// The mathematical value of a [`ToolOutput`].
pub struct ToolOutputView {
    pub exit: Exit,
    pub stdout: Seq<char>,
    pub stderr: Seq<char>,
}

impl View for ToolOutput {
    type V = ToolOutputView;

    open spec fn view(&self) -> ToolOutputView {
        ToolOutputView { exit: self.exit, stdout: self.stdout@, stderr: self.stderr@ }
    }
}

} // verus!
