//! The attempt-by-attempt cadence of a throttled computation.
//!
//! One scheduling attempt looks at the counter alone: with `waited` at or
//! past `prio` the attempt is forwarded and the counter starts over,
//! otherwise the attempt is declined and the counter grows by one. The spec
//! functions here iterate that step, and the lemmas state the cadence that
//! follows from it: a fresh combinator declines exactly `prio` attempts
//! before each forwarded one, so the wrapped computation sees one poll in
//! every window of `prio + 1` consecutive attempts.

use vstd::prelude::*;

verus! {

/// Whether a scheduling attempt made with counter `waited` is forwarded to
/// the wrapped computation.
pub open spec fn forwards(prio: nat, waited: nat) -> bool {
    waited >= prio
}

/// The counter after one scheduling attempt made with counter `waited`:
/// a forwarded attempt starts it over, a declined one grows it by one.
pub open spec fn next_waited(prio: nat, waited: nat) -> nat {
    if waited >= prio {
        0
    } else {
        waited + 1
    }
}

/// The counter after `n` scheduling attempts on a freshly built combinator
/// whose wrapped computation completes on none of them.
pub open spec fn waited_after(prio: nat, n: nat) -> nat
    decreases n,
{
    if n == 0 {
        0
    } else {
        next_waited(prio, waited_after(prio, (n - 1) as nat))
    }
}

/// How many of the first `n` scheduling attempts on a freshly built
/// combinator are forwarded, when the wrapped computation completes on none
/// of them.
pub open spec fn forwards_among(prio: nat, n: nat) -> nat
    decreases n,
{
    if n == 0 {
        0
    } else {
        forwards_among(prio, (n - 1) as nat) + if forwards(
            prio,
            waited_after(prio, (n - 1) as nat),
        ) {
            1nat
        } else {
            0nat
        }
    }
}

/// With a skip count of zero nothing is ever declined: the counter stays at
/// zero and every scheduling attempt is forwarded, so the combinator's
/// result, and the number of attempts it takes to complete, are those of
/// polling the wrapped computation directly.
pub proof fn lemma_no_throttle(n: nat)
    ensures
        waited_after(0, n) == 0,
        forwards(0, waited_after(0, n)),
{
}

/// Until the counter reaches the skip count, every attempt is declined and
/// the counter just counts the attempts made so far.
pub proof fn lemma_ramp(prio: nat, n: nat)
    requires
        n <= prio,
    ensures
        waited_after(prio, n) == n,
        forwards_among(prio, n) == 0,
    decreases n,
{
    if n > 0 {
        lemma_ramp(prio, (n - 1) as nat);
    }
}

/// A fresh combinator declines its first `prio` scheduling attempts and
/// forwards the next one: with a wrapped computation that completes on its
/// very first poll, completion lands on attempt `prio + 1` exactly — never
/// earlier, never later.
pub proof fn lemma_first_forward(prio: nat)
    ensures
        forall|i: nat| i < prio ==> !forwards(prio, waited_after(prio, i)),
        forwards(prio, waited_after(prio, prio)),
{
    assert forall|i: nat| i < prio implies !forwards(prio, waited_after(prio, i)) by {
        lemma_ramp(prio, i);
    }
    lemma_ramp(prio, prio);
}

/// The counter comes back to the same value every `prio + 1` attempts.
pub proof fn lemma_period(prio: nat, n: nat)
    ensures
        waited_after(prio, n + prio + 1) == waited_after(prio, n),
    decreases n,
{
    if n == 0 {
        lemma_ramp(prio, prio);
    } else {
        lemma_period(prio, (n - 1) as nat);
    }
}

/// In any window of `prio + 1` consecutive scheduling attempts on a fresh
/// combinator whose wrapped computation never completes, exactly one attempt
/// is forwarded: the attempts after any point `n` add exactly one forwarded
/// attempt per `prio + 1` of them.
pub proof fn lemma_window(prio: nat, n: nat)
    ensures
        forwards_among(prio, n + prio + 1) == forwards_among(prio, n) + 1,
    decreases n,
{
    if n == 0 {
        lemma_ramp(prio, prio);
    } else {
        lemma_window(prio, (n - 1) as nat);
        lemma_period(prio, (n - 1) as nat);
    }
}

/// The forwarded attempts sit exactly at the multiples of `prio + 1`: for
/// every `j`, attempt number `(j + 1) * (prio + 1)` is forwarded, and it is
/// the `j + 1`-th forwarded attempt. A wrapped computation that completes on
/// its own `j + 1`-th poll therefore completes the combinator on scheduling
/// attempt `(j + 1) * (prio + 1)`.
pub proof fn lemma_nth_forward(prio: nat, j: nat)
    ensures
        forwards_among(prio, (j + 1) * (prio + 1)) == j + 1,
        forwards(prio, waited_after(prio, j * (prio + 1) + prio)),
    decreases j,
{
    if j == 0 {
        assert((j + 1) * (prio + 1) == prio + 1) by (nonlinear_arith)
            requires
                j == 0,
        ;
        assert(j * (prio + 1) + prio == prio) by (nonlinear_arith)
            requires
                j == 0,
        ;
        lemma_window(prio, 0);
        lemma_ramp(prio, prio);
    } else {
        lemma_nth_forward(prio, (j - 1) as nat);
        assert((j + 1) * (prio + 1) == j * (prio + 1) + prio + 1) by (nonlinear_arith);
        assert(j * (prio + 1) + prio == (((j - 1) as nat) * (prio + 1) + prio) + (prio + 1))
            by (nonlinear_arith)
            requires
                j >= 1,
        ;
        lemma_window(prio, j * (prio + 1));
        lemma_period(prio, ((j - 1) as nat) * (prio + 1) + prio);
    }
}

} // verus!
