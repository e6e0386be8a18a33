use vstd::prelude::*;
use vstd::string::StrSliceExecFns;
use crate::model::TodoError;

verus! {

/// Whether a character counts as white space, by the Unicode table that std follows.
pub uninterp spec fn white_space(c: char) -> bool;

/// Relies on `char::is_whitespace`, whose answer depends on the character alone.
#[verifier::external_body]
fn is_space(c: char) -> (r: bool)
    ensures
        r == white_space(c),
{
    c.is_whitespace()
}

/// A label is blank when it holds nothing but white space (or nothing at all).
pub open spec fn blank(s: Seq<char>) -> bool {
    forall|i: int| 0 <= i < s.len() ==> white_space(#[trigger] s[i])
}

/// Accepts a label that holds something besides white space, as it was written;
/// a blank one is refused.
pub fn check_text(raw: &str) -> (r: Result<String, TodoError>)
    ensures
        r is Err <==> blank(raw@),
        r matches Err(e) ==> e == TodoError::Validation,
        r matches Ok(s) ==> s@ == raw@,
{
    let n = raw.unicode_len();
    let mut i: usize = 0;
    while i < n
        invariant
            n == raw@.len(),
            i <= n,
            forall|j: int| 0 <= j < i ==> white_space(#[trigger] raw@[j]),
        decreases n - i,
    {
        let c = raw.get_char(i);
        if !is_space(c) {
            return Ok(raw.to_owned());
        }
        i = i + 1;
    }
    Err(TodoError::Validation)
}

} // verus!
