//! Laws of layouts: how much of a layout a key string reads.

use crate::keyboard::grammar::{compile, needed_chars, resolve_char, resolve_part, Scan};
use crate::keyboard::keys::escaped_char;
use vstd::prelude::*;

verus! {

/// The layouts `a` and `b` type each character of `chars` alike, or
/// neither types it.
pub open spec fn agree_on(
    a: Map<char, (u8, bool)>,
    b: Map<char, (u8, bool)>,
    chars: Seq<char>,
) -> bool {
    forall|i: int|
        0 <= i < chars.len() ==> {
            &&& a.contains_key(#[trigger] chars[i]) == b.contains_key(chars[i])
            &&& a.contains_key(chars[i]) ==> a[chars[i]] == b[chars[i]]
        }
}

/// Every character of `text` is one of `chars`.
pub open spec fn within(text: Seq<char>, chars: Seq<char>) -> bool {
    forall|i: int| 0 <= i < text.len() ==> chars.contains(#[trigger] text[i])
}

/// Layouts that agree on a character resolve it alike.
proof fn lemma_resolve_char_agrees(
    c: char,
    a: Map<char, (u8, bool)>,
    b: Map<char, (u8, bool)>,
    chars: Seq<char>,
)
    requires
        agree_on(a, b, chars),
        chars.contains(c),
    ensures
        resolve_char(c, a) == resolve_char(c, b),
{
    let i = choose|i: int| 0 <= i < chars.len() && chars[i] == c;
    assert(a.contains_key(chars[i]) == b.contains_key(chars[i]));
}

/// Layouts that agree on the characters of a part and on those that
/// escape names stand for resolve the part alike.
proof fn lemma_resolve_part_agrees(
    token: Seq<char>,
    a: Map<char, (u8, bool)>,
    b: Map<char, (u8, bool)>,
    chars: Seq<char>,
)
    requires
        agree_on(a, b, chars),
        within(token, chars),
        within(seq!['<', '>', '-', '+'], chars),
    ensures
        resolve_part(token, a) == resolve_part(token, b),
{
    let syntax = seq!['<', '>', '-', '+'];
    if let Some(c) = escaped_char(token) {
        assert(c == syntax[0] || c == syntax[1] || c == syntax[2] || c == syntax[3]);
        lemma_resolve_char_agrees(c, a, b, chars);
    }
    if token.len() == 1 {
        lemma_resolve_char_agrees(token[0], a, b, chars);
    }
}

/// Layouts that agree on the characters of the text, on those of the
/// pending part and on those that escape names stand for bring the scanner
/// to the same state, or to the same fault.
proof fn lemma_run_agrees(
    scan: Scan,
    text: Seq<char>,
    a: Map<char, (u8, bool)>,
    b: Map<char, (u8, bool)>,
    chars: Seq<char>,
)
    requires
        agree_on(a, b, chars),
        within(text, chars),
        within(scan.token, chars),
        within(seq!['<', '>', '-', '+'], chars),
    ensures
        scan.run(text, a) == scan.run(text, b),
        scan.run(text, a) matches Ok(after) ==> within(after.token, chars),
    decreases text.len(),
{
    if text.len() > 0 {
        let c = text.last();
        assert(chars.contains(text[text.len() - 1]));
        lemma_run_agrees(scan, text.drop_last(), a, b, chars);
        if let Ok(mid) = scan.run(text.drop_last(), a) {
            lemma_resolve_char_agrees(c, a, b, chars);
            lemma_resolve_part_agrees(mid.token, a, b, chars);
        }
    }
}

/// Compiling a key string reads a layout only at the characters of the
/// string and at those that escape names stand for: two layouts that agree
/// on them compile the string alike.
pub proof fn lemma_compile_reads_needed(
    text: Seq<char>,
    a: Map<char, (u8, bool)>,
    b: Map<char, (u8, bool)>,
)
    requires
        agree_on(a, b, needed_chars(text)),
    ensures
        compile(text, a) == compile(text, b),
{
    let chars = needed_chars(text);
    let syntax = seq!['<', '>', '-', '+'];
    assert forall|i: int| 0 <= i < text.len() implies chars.contains(#[trigger] text[i]) by {
        assert(chars[i] == text[i]);
    }
    assert forall|i: int| 0 <= i < syntax.len() implies chars.contains(#[trigger] syntax[i]) by {
        assert(chars[text.len() + i] == syntax[i]);
    }
    lemma_run_agrees(Scan::start(), text, a, b, chars);
}

} // verus!
