use vstd::prelude::*;

verus! {

/// The duty of step `k` of the fade: up from 0 to `max_duty - 1`, then back
/// down from `max_duty - 1` to 0, over and over.
pub open spec fn fade_duty(k: nat, max_duty: nat) -> nat {
    let p = k % (2 * max_duty);
    if p < max_duty {
        p
    } else {
        (2 * max_duty - 1 - p) as nat
    }
}

/// The duty to set at step `k` of the fade.
pub fn fade_duty_at(k: u64, max_duty: u32) -> (d: u32)
    requires
        max_duty > 0,
    ensures
        d as nat == fade_duty(k as nat, max_duty as nat),
{
    let period: u64 = 2 * (max_duty as u64);
    let p: u64 = k % period;
    if p < max_duty as u64 {
        p as u32
    } else {
        (period - 1 - p) as u32
    }
}

/// The step after `k`, kept within one period of the fade.
pub fn next_fade_step(k: u64, max_duty: u32) -> (n: u64)
    requires
        max_duty > 0,
    ensures
        n == (k + 1) % (2 * max_duty as int),
{
    let period: u64 = 2 * (max_duty as u64);
    let r: u64 = k % period;
    proof {
        vstd::arithmetic::div_mod::lemma_add_mod_noop(k as int, 1, period as int);
        vstd::arithmetic::div_mod::lemma_small_mod(1, period as nat);
    }
    (r + 1) % period
}

/// Within each period the fade first sweeps up through every duty below the
/// maximum, one per step, then back down through the same duties.
pub proof fn lemma_fade_sweeps_up_then_down(k: nat, max_duty: nat)
    requires
        k < max_duty,
    ensures
        fade_duty(k, max_duty) == k,
        fade_duty((2 * max_duty - 1 - k) as nat, max_duty) == k,
{
    assert(k % (2 * max_duty) == k) by (nonlinear_arith)
        requires
            k < max_duty,
    {
        vstd::arithmetic::div_mod::lemma_small_mod(k, 2 * max_duty);
    }
    let j = (2 * max_duty - 1 - k) as nat;
    assert(j % (2 * max_duty) == j) by (nonlinear_arith)
        requires
            j < 2 * max_duty,
    {
        vstd::arithmetic::div_mod::lemma_small_mod(j, 2 * max_duty);
    }
}

/// The fade stays below the maximum duty, moves by at most one step of duty at
/// a time, and repeats every `2 * max_duty` steps.
pub proof fn lemma_fade_is_smooth(k: nat, max_duty: nat)
    requires
        max_duty > 0,
    ensures
        fade_duty(k, max_duty) < max_duty,
        fade_duty(k + 1, max_duty) - fade_duty(k, max_duty) <= 1,
        fade_duty(k, max_duty) - fade_duty(k + 1, max_duty) <= 1,
        fade_duty(k + 2 * max_duty, max_duty) == fade_duty(k, max_duty),
{
    let m2 = 2 * max_duty;
    let p = k % m2;
    assert(k == (k / m2) * m2 + p) by (nonlinear_arith)
        requires
            m2 > 0,
            p == k % m2,
    ;
    assert(0 <= p < m2) by (nonlinear_arith)
        requires
            m2 > 0,
            p == k % m2,
    ;
    if p + 1 < m2 {
        assert((k + 1) % m2 == p + 1) by (nonlinear_arith)
            requires
                m2 > 0,
                k == (k / m2) * m2 + p,
                0 <= p,
                p + 1 < m2,
        {
            vstd::arithmetic::div_mod::lemma_fundamental_div_mod_converse(
                (k + 1) as int,
                m2 as int,
                (k / m2) as int,
                (p + 1) as int,
            );
        }
    } else {
        assert((k + 1) % m2 == 0) by (nonlinear_arith)
            requires
                m2 > 0,
                k == (k / m2) * m2 + p,
                p + 1 == m2,
        {
            vstd::arithmetic::div_mod::lemma_fundamental_div_mod_converse(
                (k + 1) as int,
                m2 as int,
                (k / m2 + 1) as int,
                0,
            );
        }
    }
    assert((k + m2) % m2 == p) by (nonlinear_arith)
        requires
            m2 > 0,
            k == (k / m2) * m2 + p,
            0 <= p < m2,
    {
        vstd::arithmetic::div_mod::lemma_fundamental_div_mod_converse(
            (k + m2) as int,
            m2 as int,
            (k / m2 + 1) as int,
            p as int,
        );
    }
}

} // verus!
