//! Payout arithmetic: the pro-rata split of a day's claimed quote fees over a
//! page's still-locked balances, with exact-remainder accounting. Everything
//! here is exact integer (fixed-point) mathematics; the central fact is that
//! the floor pro-rata amounts of one page never sum to more than the page's
//! investor fee quote, so the rounding remainder is never negative.

use vstd::prelude::*;

use vstd::arithmetic::div_mod::{
    lemma_div_is_ordered, lemma_div_multiples_vanish, lemma_div_pos_is_pos,
    lemma_fundamental_div_mod, lemma_mod_division_less_than_divisor,
};
use vstd::arithmetic::mul::{
    lemma_mul_is_commutative, lemma_mul_is_distributive_add, lemma_mul_nonnegative,
};

use crate::investor::InvestorLine;

verus! {

/// Sum of a sequence of integers.
pub open spec fn sum_seq(s: Seq<int>) -> int
    decreases s.len(),
{
    if s.len() == 0 {
        0
    } else {
        sum_seq(s.drop_last()) + s.last()
    }
}

/// The locked balances of a page's roster.
pub open spec fn locked_seq(lines: Seq<InvestorLine>) -> Seq<int> {
    Seq::new(lines.len(), |i: int| lines[i].locked_amount as int)
}

/// Floor pro-rata share of `quote` for one locked balance: zero when nothing
/// is locked, `floor(quote * locked / total_locked)` otherwise.
pub open spec fn pro_rata_amount(quote: u64, locked: u64, total_locked: u64) -> int {
    if total_locked == 0 {
        0
    } else {
        (quote * locked) / (total_locked as int)
    }
}

/// The pro-rata amounts of every line of a page.
pub open spec fn amount_seq(lines: Seq<InvestorLine>, quote: u64, total_locked: u64) -> Seq<int> {
    Seq::new(lines.len(), |i: int| pro_rata_amount(quote, lines[i].locked_amount, total_locked))
}

/// Extending a prefix sum by one element.
pub proof fn lemma_sum_take_step(s: Seq<int>, i: int)
    requires
        0 <= i < s.len(),
    ensures
        sum_seq(s.take(i + 1)) == sum_seq(s.take(i)) + s[i],
{
    assert(s.take(i + 1).drop_last() =~= s.take(i));
    assert(s.take(i + 1).last() == s[i]);
}

/// A sum of non-negative integers is non-negative.
pub proof fn lemma_sum_nonneg(s: Seq<int>)
    requires
        forall|i: int| 0 <= i < s.len() ==> s[i] >= 0,
    ensures
        sum_seq(s) >= 0,
    decreases s.len(),
{
    if s.len() > 0 {
        lemma_sum_nonneg(s.drop_last());
    }
}

/// A prefix sum of non-negative integers never exceeds the full sum.
pub proof fn lemma_sum_prefix_le(s: Seq<int>, n: int)
    requires
        0 <= n <= s.len(),
        forall|i: int| 0 <= i < s.len() ==> s[i] >= 0,
    ensures
        sum_seq(s.take(n)) <= sum_seq(s),
    decreases s.len(),
{
    if n == s.len() {
        assert(s.take(n) =~= s);
    } else {
        assert(s.drop_last().take(n) =~= s.take(n));
        lemma_sum_prefix_le(s.drop_last(), n);
    }
}

/// Floor division distributes sub-additively over addition:
/// `a/d + b/d <= (a+b)/d` for non-negative numerators.
pub proof fn lemma_div_sum_le(a: int, b: int, d: int)
    requires
        a >= 0,
        b >= 0,
        d > 0,
    ensures
        a / d + b / d <= (a + b) / d,
{
    lemma_fundamental_div_mod(a, d);
    lemma_fundamental_div_mod(b, d);
    lemma_fundamental_div_mod(a + b, d);
    lemma_mod_division_less_than_divisor(a, d);
    lemma_mod_division_less_than_divisor(b, d);
    lemma_mod_division_less_than_divisor(a + b, d);
    let x = (a + b) / d - a / d - b / d;
    let r = a % d + b % d - (a + b) % d;
    assert(d * x == r) by {
        lemma_mul_is_distributive_add(d, (a + b) / d - a / d, -(b / d));
        lemma_mul_is_distributive_add(d, (a + b) / d, -(a / d));
        assert(d * ((a + b) / d - a / d - b / d) == d * ((a + b) / d) - d * (a / d) - d * (b
            / d)) by (nonlinear_arith);
    }
    assert(x >= 0) by (nonlinear_arith)
        requires
            d * x == r,
            r > -d,
            d > 0,
    ;
}

/// A prefix of the pro-rata amounts sums to at most the quote scaled by that
/// prefix's share of the locked total.
proof fn lemma_amounts_prefix_le(lines: Seq<InvestorLine>, quote: u64, total_locked: u64, n: int)
    requires
        total_locked > 0,
        0 <= n <= lines.len(),
    ensures
        sum_seq(amount_seq(lines, quote, total_locked).take(n)) <= (quote * sum_seq(
            locked_seq(lines).take(n),
        )) / (total_locked as int),
    decreases n,
{
    let amounts = amount_seq(lines, quote, total_locked);
    let locked = locked_seq(lines);
    let d = total_locked as int;
    if n == 0 {
        assert(quote * sum_seq(locked.take(0)) == 0) by (nonlinear_arith)
            requires
                sum_seq(locked.take(0)) == 0,
        ;
        lemma_div_pos_is_pos(0, d);
    } else {
        lemma_amounts_prefix_le(lines, quote, total_locked, n - 1);
        lemma_sum_take_step(amounts, n - 1);
        lemma_sum_take_step(locked, n - 1);
        let s_prev = sum_seq(locked.take(n - 1));
        let l = lines[n - 1].locked_amount as int;
        assert(forall|i: int| 0 <= i < locked.len() ==> locked[i] >= 0);
        lemma_sum_nonneg(locked.take(n - 1));
        lemma_mul_nonnegative(quote as int, s_prev);
        lemma_mul_nonnegative(quote as int, l);
        lemma_div_sum_le(quote * s_prev, quote * l, d);
        lemma_mul_is_distributive_add(quote as int, s_prev, l);
        assert(amounts[n - 1] == (quote * l) / d);
        assert(sum_seq(amounts.take(n)) <= (quote * s_prev) / d + (quote * l) / d);
        assert((quote * s_prev) / d + (quote * l) / d <= (quote * s_prev + quote * l) / d);
        assert(quote * s_prev + quote * l == quote * (s_prev + l));
    }
}

/// The pro-rata amounts of a page sum to at most the investor fee quote, and
/// never below zero. This is what makes the rounding remainder
/// `quote - sum(amounts)` a well-defined non-negative carry amount.
pub proof fn lemma_amounts_sum_le_quote(lines: Seq<InvestorLine>, quote: u64, total_locked: u64)
    requires
        sum_seq(locked_seq(lines)) == total_locked,
    ensures
        0 <= sum_seq(amount_seq(lines, quote, total_locked)) <= quote,
{
    let amounts = amount_seq(lines, quote, total_locked);
    let locked = locked_seq(lines);
    let d = total_locked as int;
    assert(forall|i: int| 0 <= i < amounts.len() ==> amounts[i] >= 0) by {
        assert forall|i: int| 0 <= i < amounts.len() implies amounts[i] >= 0 by {
            if total_locked > 0 {
                lemma_mul_nonnegative(quote as int, lines[i].locked_amount as int);
                lemma_div_pos_is_pos(quote * lines[i].locked_amount, d);
            }
        }
    }
    lemma_sum_nonneg(amounts);
    if total_locked == 0 {
        lemma_all_zero_sum(amounts);
    } else {
        lemma_amounts_prefix_le(lines, quote, total_locked, lines.len() as int);
        assert(amounts.take(lines.len() as int) =~= amounts);
        assert(locked.take(lines.len() as int) =~= locked);
        lemma_mul_is_commutative(quote as int, d);
        lemma_div_multiples_vanish(quote as int, d);
        assert((quote * d) / d == quote);
    }
}

/// Any prefix of the pro-rata amounts sums to at most the quote itself.
pub proof fn lemma_amounts_take_le_quote(lines: Seq<InvestorLine>, quote: u64, total_locked: u64, n: int)
    requires
        sum_seq(locked_seq(lines)) == total_locked,
        total_locked > 0,
        0 <= n <= lines.len(),
    ensures
        sum_seq(amount_seq(lines, quote, total_locked).take(n)) <= quote,
{
    let locked = locked_seq(lines);
    let d = total_locked as int;
    lemma_amounts_prefix_le(lines, quote, total_locked, n);
    assert(forall|i: int| 0 <= i < locked.len() ==> locked[i] >= 0);
    lemma_sum_prefix_le(locked, n);
    lemma_sum_nonneg(locked.take(n));
    let s = sum_seq(locked.take(n));
    assert(quote * s <= quote * d) by (nonlinear_arith)
        requires
            0 <= quote,
            0 <= s <= d,
    ;
    lemma_div_is_ordered(quote * s, quote * d, d);
    lemma_mul_is_commutative(quote as int, d);
    lemma_div_multiples_vanish(quote as int, d);
}

/// A sum over a sequence of zeroes is zero.
proof fn lemma_all_zero_sum(s: Seq<int>)
    requires
        forall|i: int| 0 <= i < s.len() ==> s[i] == 0,
    ensures
        sum_seq(s) == 0,
    decreases s.len(),
{
    if s.len() > 0 {
        lemma_all_zero_sum(s.drop_last());
    }
}

} // verus!
