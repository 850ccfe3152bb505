//! Reading the identifier at the head of the working copy from what the
//! tool printed.

use crate::error::LocalInspectionError;
use crate::tool::{Exit, ToolOutput, ToolOutputView};
use vstd::prelude::*;

verus! {

/// White space in the sense of the Unicode property `White_Space`.
pub open spec fn is_white_space(c: char) -> bool {
    let n = c as u32;
    ||| 0x09 <= n <= 0x0D
    ||| n == 0x20
    ||| n == 0x85
    ||| n == 0xA0
    ||| n == 0x1680
    ||| 0x2000 <= n <= 0x200A
    ||| n == 0x2028
    ||| n == 0x2029
    ||| n == 0x202F
    ||| n == 0x205F
    ||| n == 0x3000
}

/// How many characters of white space `s` begins with.
pub open spec fn leading_white_space(s: Seq<char>) -> nat
    decreases s.len(),
{
    if s.len() > 0 && is_white_space(s[0]) {
        1 + leading_white_space(s.drop_first())
    } else {
        0
    }
}

/// How many characters of white space `s` ends with.
pub open spec fn trailing_white_space(s: Seq<char>) -> nat
    decreases s.len(),
{
    if s.len() > 0 && is_white_space(s.last()) {
        1 + trailing_white_space(s.drop_last())
    } else {
        0
    }
}

/// `s` without the white space that it begins and ends with.
pub open spec fn trimmed(s: Seq<char>) -> Seq<char> {
    if leading_white_space(s) == s.len() {
        Seq::empty()
    } else {
        s.subrange(leading_white_space(s) as int, s.len() - trailing_white_space(s))
    }
}

/// The leading white space of `s` ends at `i` when everything before `i` is
/// white space and the character at `i`, if there is one, is not.
pub proof fn lemma_leading_white_space(s: Seq<char>, i: int)
    requires
        0 <= i <= s.len(),
        forall|k: int| 0 <= k < i ==> is_white_space(#[trigger] s[k]),
        i < s.len() ==> !is_white_space(s[i]),
    ensures
        leading_white_space(s) == i,
    decreases i,
{
    if i > 0 {
        let rest = s.drop_first();
        assert(is_white_space(s[0]));
        assert forall|k: int| 0 <= k < i - 1 implies is_white_space(#[trigger] rest[k]) by {
            assert(rest[k] == s[k + 1]);
        }
        lemma_leading_white_space(rest, i - 1);
    }
}

/// The trailing white space of `s` begins at `j` when everything from `j`
/// on is white space and the character before `j`, if there is one, is not.
pub proof fn lemma_trailing_white_space(s: Seq<char>, j: int)
    requires
        0 <= j <= s.len(),
        forall|k: int| j <= k < s.len() ==> is_white_space(#[trigger] s[k]),
        0 < j ==> !is_white_space(s[j - 1]),
    ensures
        trailing_white_space(s) == s.len() - j,
    decreases s.len() - j,
{
    if j < s.len() {
        let rest = s.drop_last();
        assert(is_white_space(s.last()));
        assert forall|k: int| j <= k < rest.len() implies is_white_space(#[trigger] rest[k]) by {
            assert(rest[k] == s[k]);
        }
        lemma_trailing_white_space(rest, j);
    }
}

/// Decides whether a character is white space.
pub fn white_space(c: char) -> (b: bool)
    ensures
        b == is_white_space(c),
{
    let n: u32 = c as u32;
    (0x09 <= n && n <= 0x0D) || n == 0x20 || n == 0x85 || n == 0xA0 || n == 0x1680 || (0x2000
        <= n && n <= 0x200A) || n == 0x2028 || n == 0x2029 || n == 0x202F || n == 0x205F || n
        == 0x3000
}

/// Removes the white space around a text.
pub fn trim(text: &str) -> (r: String)
    ensures
        r@ == trimmed(text@),
{
    let n: usize = text.unicode_len();
    let mut start: usize = 0;
    while start < n
        invariant_except_break
            start <= n,
        invariant
            n == text@.len(),
            forall|k: int| 0 <= k < start ==> is_white_space(#[trigger] text@[k]),
        ensures
            start <= n,
            start < n ==> !is_white_space(text@[start as int]),
        decreases n - start,
    {
        if !white_space(text.get_char(start)) {
            break ;
        }
        start = start + 1;
    }
    proof {
        lemma_leading_white_space(text@, start as int);
    }
    if start == n {
        return String::new();
    }
    let mut end: usize = n;
    while end > start
        invariant_except_break
            start <= end,
        invariant
            end <= n,
            start < n,
            n == text@.len(),
            !is_white_space(text@[start as int]),
            forall|k: int| end <= k < n ==> is_white_space(#[trigger] text@[k]),
        ensures
            start <= end <= n,
            0 < end ==> !is_white_space(text@[end - 1]),
        decreases end,
    {
        if !white_space(text.get_char(end - 1)) {
            break ;
        }
        end = end - 1;
    }
    proof {
        lemma_trailing_white_space(text@, end as int);
    }
    String::from_str(text.substring_char(start, end))
}

/// What an inspection of the working copy says about its head: the printed
/// identifier without the surrounding white space, or why there is none.
pub open spec fn head_reading(out: ToolOutputView) -> Result<Seq<char>, LocalInspectionError> {
    match out.exit {
        Exit::TimedOut => Err(LocalInspectionError::TimedOut),
        Exit::Unavailable => Err(LocalInspectionError::ToolUnavailable),
        Exit::Failure => Err(LocalInspectionError::InvalidRepository),
        Exit::Success => if trimmed(out.stdout).len() == 0 {
            Err(LocalInspectionError::NoIdentifier)
        } else {
            Ok(trimmed(out.stdout))
        },
    }
}

/// Reads the head identifier from the captured output of the inspection.
///
/// The reading only looks at the output: nothing here can touch the working
/// copy.
pub fn read_head(out: &ToolOutput) -> (r: Result<String, LocalInspectionError>)
    ensures
        match r {
            Ok(id) => head_reading(out@) == Ok::<Seq<char>, LocalInspectionError>(id@),
            Err(e) => head_reading(out@) == Err::<Seq<char>, LocalInspectionError>(e),
        },
{
    match out.exit {
        Exit::TimedOut => Err(LocalInspectionError::TimedOut),
        Exit::Unavailable => Err(LocalInspectionError::ToolUnavailable),
        Exit::Failure => Err(LocalInspectionError::InvalidRepository),
        Exit::Success => {
            let id = trim(out.stdout.as_str());
            if id.as_str().unicode_len() == 0 {
                Err(LocalInspectionError::NoIdentifier)
            } else {
                Ok(id)
            }
        },
    }
}

} // verus!
