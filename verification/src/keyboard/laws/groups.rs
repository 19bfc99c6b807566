//! Laws of bracket groups: the scanner reads a group as its parts and
//! operators, whatever they are.

use crate::keyboard::error::KeyFault;
use crate::keyboard::events::{KeyInput, KeyState};
use crate::keyboard::grammar::{
    combination_events, compile, group_events, lemma_run_concat, resolve_part, Scan,
};
use crate::keyboard::laws::typing::{lemma_run_one, lemma_run_token, unbroken};
use vstd::prelude::*;

verus! {

/// The character of an operator: `+` or `-`.
pub open spec fn operator(plus: bool) -> char {
    if plus {
        '+'
    } else {
        '-'
    }
}

/// The text of the first `k` parts of a group, each with the operator that
/// follows it, if one does.
pub open spec fn body(tokens: Seq<Seq<char>>, seps: Seq<bool>, k: nat) -> Seq<char>
    decreases k,
{
    if k == 0 {
        Seq::empty()
    } else {
        let i = (k - 1) as nat;
        body(tokens, seps, i) + tokens[i as int] + if i < seps.len() {
            seq![operator(seps[i as int])]
        } else {
            Seq::empty()
        }
    }
}

/// The text of a group: `<`, the parts with their operators, and `>`.
pub open spec fn group_text(tokens: Seq<Seq<char>>, seps: Seq<bool>) -> Seq<char> {
    seq!['<'] + body(tokens, seps, tokens.len()) + seq!['>']
}

/// The parts are texts that can stand in a group and that the layout
/// resolves; an operator follows each of them, but perhaps the last.
pub open spec fn well_formed_group(
    tokens: Seq<Seq<char>>,
    seps: Seq<bool>,
    layout: Map<char, (u8, bool)>,
) -> bool {
    &&& tokens.len() > 0
    &&& seps.len() == tokens.len() || seps.len() + 1 == tokens.len()
    &&& forall|i: int|
        0 <= i < tokens.len() ==> unbroken(#[trigger] tokens[i]) && resolve_part(
            tokens[i],
            layout,
        ) is Ok
}

/// The keys that the parts resolve to.
pub open spec fn resolved(tokens: Seq<Seq<char>>, layout: Map<char, (u8, bool)>) -> Seq<
    (u8, bool),
> {
    tokens.map_values(|token: Seq<char>| resolve_part(token, layout)->Ok_0)
}

/// The scanner inside a group after the first `k` parts and the operators
/// that follow them.
pub open spec fn after_body(
    opened: Scan,
    tokens: Seq<Seq<char>>,
    seps: Seq<bool>,
    k: nat,
    layout: Map<char, (u8, bool)>,
) -> Scan {
    let complete = if k <= seps.len() {
        k
    } else {
        seps.len()
    };
    Scan {
        token: if k <= seps.len() {
            Seq::empty()
        } else {
            tokens[k - 1]
        },
        parts: resolved(tokens, layout).take(complete as int),
        seps: seps.take(complete as int),
        ..opened
    }
}

/// Inside a group that has just been opened, the scanner gathers each part
/// and resolves it at the operator that follows it.
proof fn lemma_run_body(
    opened: Scan,
    tokens: Seq<Seq<char>>,
    seps: Seq<bool>,
    k: nat,
    layout: Map<char, (u8, bool)>,
)
    requires
        opened.in_bracket,
        opened.token.len() == 0,
        opened.parts.len() == 0,
        opened.seps.len() == 0,
        well_formed_group(tokens, seps, layout),
        k <= tokens.len(),
    ensures
        opened.run(body(tokens, seps, k), layout) == Ok::<Scan, KeyFault>(
            after_body(opened, tokens, seps, k, layout),
        ),
    decreases k,
{
    let keys = resolved(tokens, layout);
    if k == 0 {
        let first = after_body(opened, tokens, seps, 0, layout);
        assert(first.token =~= opened.token);
        assert(first.parts =~= opened.parts);
        assert(first.seps =~= opened.seps);
    } else {
        let i = (k - 1) as nat;
        let token = tokens[i as int];
        let before = after_body(opened, tokens, seps, i, layout);
        lemma_run_body(opened, tokens, seps, i, layout);
        assert(unbroken(token) && resolve_part(token, layout) is Ok);
        lemma_run_token(before, token, layout);
        lemma_run_concat(opened, body(tokens, seps, i), token, layout);
        let filled = Scan { token: before.token + token, ..before };
        assert(before.token + token =~= token);
        if i < seps.len() {
            let op = operator(seps[i as int]);
            lemma_run_one(filled, op, layout);
            lemma_run_concat(opened, body(tokens, seps, i) + token, seq![op], layout);
            assert(keys.take(i as int).push(keys[i as int]) =~= keys.take(k as int));
            assert(seps.take(i as int).push(seps[i as int]) =~= seps.take(k as int));
            assert(filled.step(op, layout) == Ok::<Scan, KeyFault>(
                after_body(opened, tokens, seps, k, layout),
            ));
        } else {
            assert(body(tokens, seps, k) =~= body(tokens, seps, i) + token);
            assert(filled == after_body(opened, tokens, seps, k, layout));
        }
    }
}

/// The scanner reads a group as its parts and operators: after the text of
/// a group, it is where the closing of the group with the resolved parts
/// and the operators leaves it.
pub proof fn lemma_run_group(
    scan: Scan,
    tokens: Seq<Seq<char>>,
    seps: Seq<bool>,
    layout: Map<char, (u8, bool)>,
)
    requires
        !scan.in_bracket,
        scan.token.len() == 0,
        well_formed_group(tokens, seps, layout),
    ensures
        scan.run(group_text(tokens, seps), layout) == (Scan {
            in_bracket: true,
            parts: Seq::empty(),
            seps,
            ..scan
        }).close(resolved(tokens, layout)),
{
    let n = tokens.len();
    let keys = resolved(tokens, layout);
    let opened = Scan { in_bracket: true, parts: Seq::empty(), seps: Seq::empty(), ..scan };
    let inner = body(tokens, seps, n);
    let last = after_body(opened, tokens, seps, n, layout);
    lemma_run_one(scan, '<', layout);
    lemma_run_body(opened, tokens, seps, n, layout);
    lemma_run_concat(scan, seq!['<'], inner, layout);
    lemma_run_one(last, '>', layout);
    lemma_run_concat(scan, seq!['<'] + inner, seq!['>'], layout);
    assert(last.seps =~= seps);
    if seps.len() == n {
        assert(last.parts =~= keys);
    } else {
        assert(resolve_part(tokens[n - 1], layout) is Ok);
        assert(last.parts.push(keys[n - 1]) =~= keys);
    }
}

/// An operator needs a key before it: where no part is pending, at the
/// start of a group or right after another operator, as in `<+a>` or
/// `<ctrl+->`, the operator is refused.
pub proof fn lemma_operator_needs_key(scan: Scan, plus: bool, layout: Map<char, (u8, bool)>)
    requires
        scan.in_bracket,
        scan.wf(),
        scan.token.len() == 0,
    ensures
        scan.step(operator(plus), layout) == Err::<Scan, KeyFault>(
            KeyFault::SeparatorWithoutPrecedingKey,
        ),
{
}

/// A key string that is one group compiles to the events of the group
/// with its parts resolved, typed with no modifier held.
pub proof fn lemma_compile_group(
    tokens: Seq<Seq<char>>,
    seps: Seq<bool>,
    layout: Map<char, (u8, bool)>,
)
    requires
        well_formed_group(tokens, seps, layout),
    ensures
        compile(group_text(tokens, seps), layout) == group_events(
            KeyState::idle(),
            resolved(tokens, layout),
            seps,
        ),
{
    lemma_run_group(Scan::start(), tokens, seps, layout);
    if let Ok(events) = group_events(KeyState::idle(), resolved(tokens, layout), seps) {
        assert(Seq::<KeyInput>::empty() + events =~= events);
    }
}

/// A key string that is one combination, such as `<ctrl+alt+del>`,
/// compiles to the presses of its parts in their order and their releases
/// in the reverse order.
pub proof fn lemma_compile_combination(tokens: Seq<Seq<char>>, layout: Map<char, (u8, bool)>)
    requires
        tokens.len() >= 2,
        well_formed_group(tokens, Seq::new((tokens.len() - 1) as nat, |i: int| true), layout),
    ensures
        compile(
            group_text(tokens, Seq::new((tokens.len() - 1) as nat, |i: int| true)),
            layout,
        ) == Ok::<Seq<KeyInput>, KeyFault>(combination_events(resolved(tokens, layout))),
{
    lemma_compile_group(tokens, Seq::new((tokens.len() - 1) as nat, |i: int| true), layout);
}

} // verus!
