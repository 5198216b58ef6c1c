//! General laws of the machine, stated over the same spec functions that
//! the executable methods' contracts use.

use vstd::prelude::*;

use crate::engine::stack_after;
use crate::state::emptiness_applied;

verus! {

/// The stack after pushing the values of `vs` one by one, in order.
pub open spec fn after_pushes(s: Seq<i32>, vs: Seq<i32>) -> Seq<i32>
    decreases vs.len(),
{
    if vs.len() == 0 {
        s
    } else {
        after_pushes(s, vs.drop_last()).push(vs.last())
    }
}

/// The stack after popping `n` values one by one.
pub open spec fn after_pops(s: Seq<i32>, n: nat) -> Seq<i32>
    decreases n,
{
    if n == 0 {
        s
    } else {
        after_pops(s, (n - 1) as nat).drop_last()
    }
}

/// Pushing the values of `vs` one by one appends `vs` to the stack.
pub proof fn lemma_after_pushes_appends(s: Seq<i32>, vs: Seq<i32>)
    ensures
        after_pushes(s, vs) == s + vs,
    decreases vs.len(),
{
    if vs.len() == 0 {
        assert(after_pushes(s, vs) =~= s + vs);
    } else {
        lemma_after_pushes_appends(s, vs.drop_last());
        assert((s + vs.drop_last()).push(vs.last()) =~= s + vs);
    }
}

/// Popping `n` values removes exactly the last `n` elements.
pub proof fn lemma_after_pops_takes(s: Seq<i32>, n: nat)
    requires
        n <= s.len(),
    ensures
        after_pops(s, n) == s.take(s.len() - n),
    decreases n,
{
    if n == 0 {
        assert(s.take(s.len() - n) =~= s);
    } else {
        lemma_after_pops_takes(s, (n - 1) as nat);
        assert(s.take(s.len() - (n - 1)).drop_last() =~= s.take(s.len() - n));
    }
}

/// The stack is last-in-first-out: after pushing the values of `vs` in
/// order, the `k`-th pop (counting from zero) returns the values in
/// reverse order of their pushes, and popping as many values as were
/// pushed restores the stack exactly as it was.
pub proof fn lemma_push_pop_lifo(s: Seq<i32>, vs: Seq<i32>, k: int)
    requires
        0 <= k < vs.len(),
    ensures
        after_pops(after_pushes(s, vs), k as nat).last() == vs[vs.len() - 1 - k],
        after_pops(after_pushes(s, vs), vs.len()) == s,
{
    lemma_after_pushes_appends(s, vs);
    let t = s + vs;
    lemma_after_pops_takes(t, k as nat);
    assert(t.take(t.len() - k).last() == t[s.len() + vs.len() - 1 - k]);
    lemma_after_pops_takes(t, vs.len());
    assert(t.take(s.len() as int) =~= s);
}

/// Order of subtraction: pushing `a`, then `b`, then running the
/// subtraction instruction leaves `a - b` on top of the stack — never
/// `b - a` — for every pair whose difference fits in 32 bits, and the
/// rest of the stack is untouched.
pub proof fn lemma_sub_order(s: Seq<i32>, a: i32, b: i32)
    requires
        i32::MIN <= a - b <= i32::MAX,
    ensures
        stack_after('-', s.push(a).push(b)) == s.push((a - b) as i32),
{
    assert(s.push(a).push(b).drop_last().drop_last() =~= s);
}

/// Duplication: pushing `a` and running the duplicate instruction leaves
/// two equal values on top, both equal to `a`, above the untouched rest
/// of the stack; two pops then return `a` twice.
pub proof fn lemma_dup_yields_equal_pair(s: Seq<i32>, a: i32)
    ensures
        ({
            let t = stack_after('@', s.push(a));
            t.last() == a && t.drop_last().last() == a && t.drop_last().drop_last() == s
        }),
{
    let t = stack_after('@', s.push(a));
    assert(t.drop_last() =~= s.push(a));
    assert(s.push(a).drop_last() =~= s);
}

/// The emptiness test: on the freshly constructed, empty stack it pushes
/// 1; after any push it pushes 0, and the previously pushed value is
/// still right beneath the flag, unaltered.
pub proof fn lemma_is_empty_flag(s: Seq<i32>, a: i32)
    ensures
        emptiness_applied(Seq::<i32>::empty()) == seq![1i32],
        ({
            let t = emptiness_applied(s.push(a));
            t.last() == 0 && t[t.len() - 2] == a && t.drop_last() == s.push(a)
        }),
{
    assert(emptiness_applied(Seq::<i32>::empty()) =~= seq![1i32]);
    assert(emptiness_applied(s.push(a)).drop_last() =~= s.push(a));
}

/// Logical negation: running it on a stack topped by `a` replaces `a`
/// with 1 when `a` is zero and with 0 otherwise.  It is an equality test
/// with zero, not an involution: running it twice on a non-zero value
/// yields 1 — the flag for "the intermediate value was zero" — so the
/// original value does not come back unless it was 1 itself.
pub proof fn lemma_logical_neg_flags(s: Seq<i32>, a: i32)
    ensures
        stack_after('!', s.push(a)).last() == (if a == 0 { 1i32 } else { 0i32 }),
        stack_after('!', s.push(a)).drop_last() == s,
        a != 0 ==> stack_after('!', stack_after('!', s.push(a))).last() == 1i32,
        a != 0 && a != 1 ==> stack_after('!', stack_after('!', s.push(a))).last() != a,
{
    assert(s.push(a).drop_last() =~= s);
    let t = stack_after('!', s.push(a));
    assert(t =~= s.push(if a == 0 { 1i32 } else { 0i32 }));
    if a != 0 {
        assert(stack_after('!', t) =~= s.push(1i32));
    }
}

} // verus!
