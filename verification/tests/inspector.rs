use repo_sync::error::LocalInspectionError;
use repo_sync::inspector::{read_head, trim, white_space};
use repo_sync::tool::{tool_name, Exit, Invocation, Operation, ToolOutput};
use repo_sync::remote::RemoteDescriptor;

fn output(exit: Exit, stdout: &str) -> ToolOutput {
    ToolOutput { exit, stdout: stdout.to_string(), stderr: String::new() }
}

#[test]
fn trim_removes_white_space_at_both_ends() {
    assert_eq!(trim("abc123\n"), "abc123");
    assert_eq!(trim("  \tabc 123\r\n"), "abc 123");
    assert_eq!(trim("abc123"), "abc123");
    assert_eq!(trim("\n"), "");
    assert_eq!(trim(""), "");
    assert_eq!(trim(" x"), "x");
    assert_eq!(trim("x "), "x");
}

#[test]
fn trim_agrees_with_the_standard_library() {
    let samples = [
        "",
        " ",
        "a",
        "\u{a0}a\u{3000}",
        "\u{2028}\u{2029}b c\u{85}",
        "\u{200b}z\u{200b}",
        "  \u{1680}q\u{205f}\u{202f}",
        "\u{b}\u{c}tab\u{2000}\u{200a}",
        "é ü\n",
    ];
    for s in samples {
        assert_eq!(trim(s), s.trim());
    }
}

#[test]
fn white_space_is_the_unicode_property() {
    for n in 0u32..0x3100 {
        if let Some(c) = char::from_u32(n) {
            assert_eq!(white_space(c), c.is_whitespace(), "U+{:04X}", n);
        }
    }
}

#[test]
fn head_is_read_from_a_successful_inspection() {
    let id = "3f786850e387550fdab836ed7e6dc881de23001b";
    assert_eq!(read_head(&output(Exit::Success, &format!("{}\n", id))).unwrap(), id);
}

#[test]
fn inspection_errors_have_their_kinds() {
    assert_eq!(
        read_head(&output(Exit::Failure, "")),
        Err(LocalInspectionError::InvalidRepository)
    );
    assert_eq!(
        read_head(&output(Exit::Failure, "abc123\n")),
        Err(LocalInspectionError::InvalidRepository)
    );
    assert_eq!(
        read_head(&output(Exit::Unavailable, "")),
        Err(LocalInspectionError::ToolUnavailable)
    );
    assert_eq!(read_head(&output(Exit::TimedOut, "")), Err(LocalInspectionError::TimedOut));
    assert_eq!(read_head(&output(Exit::Success, " \n")), Err(LocalInspectionError::NoIdentifier));
    assert_eq!(read_head(&output(Exit::Success, "")), Err(LocalInspectionError::NoIdentifier));
}

#[test]
fn operations_that_change_the_working_copy() {
    assert!(!Operation::ReadHead.is_mutating());
    assert!(!Operation::VerifyBranch.is_mutating());
    assert!(Operation::Fetch.is_mutating());
    assert!(Operation::CreateBranch.is_mutating());
    assert!(Operation::Checkout.is_mutating());
    assert!(Operation::Pull.is_mutating());
}

#[test]
fn invocations_spell_out_every_argument() {
    let remote = RemoteDescriptor::Hosted {
        organization: "o".to_string(),
        project: "p".to_string(),
        repository: "r".to_string(),
        branch: "release/1.x".to_string(),
        token: "t".to_string(),
    };
    let repo = "C:\\work copy".to_string();
    let url = "https://o:t@dev.azure.com/o/p/_git/r";
    let args = |op| Invocation::new(op, &repo, &remote).arguments;
    assert_eq!(args(Operation::ReadHead), vec!["-C", "C:\\work copy", "rev-parse", "HEAD"]);
    assert_eq!(
        args(Operation::Fetch),
        vec!["-C", "C:\\work copy", "fetch", "--prune", url, "+refs/heads/*:refs/remotes/origin/*"]
    );
    assert_eq!(
        args(Operation::VerifyBranch),
        vec!["-C", "C:\\work copy", "rev-parse", "--verify", "release/1.x"]
    );
    assert_eq!(
        args(Operation::CreateBranch),
        vec![
            "-C",
            "C:\\work copy",
            "checkout",
            "-b",
            "release/1.x",
            "--track",
            "origin/release/1.x"
        ]
    );
    assert_eq!(args(Operation::Checkout), vec!["-C", "C:\\work copy", "checkout", "release/1.x"]);
    assert_eq!(args(Operation::Pull), vec!["-C", "C:\\work copy", "pull", url, "release/1.x"]);
    assert_eq!(Invocation::new(Operation::Pull, &repo, &remote).operation, Operation::Pull);
    assert_eq!(tool_name(), "git");
}
