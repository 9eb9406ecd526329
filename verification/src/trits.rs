//! Pure numeric primitives: the single-trit rotation and the digit-wise
//! "crazy" operation.
//!
//! A memory cell holds an integer in `[0, 59049)` and is read as ten
//! base-3 digits (trits).  The rotation moves every trit one position
//! toward the low end and carries the trit that fell off back to the top.
//! The digit-wise operation reads both operands as five base-9 digits
//! (paired trits) and combines them digit by digit through a fixed 9-by-9
//! result table.

use vstd::arithmetic::div_mod::lemma_breakdown;
use vstd::arithmetic::div_mod::lemma_div_denominator;
use vstd::arithmetic::div_mod::lemma_div_pos_is_pos;
use vstd::arithmetic::div_mod::lemma_fundamental_div_mod;
use vstd::arithmetic::div_mod::lemma_fundamental_div_mod_converse;
use vstd::arithmetic::div_mod::lemma_mod_bound;
use vstd::arithmetic::power::lemma_pow_adds;
use vstd::arithmetic::power::lemma_pow_positive;
use vstd::arithmetic::power::pow;
use vstd::prelude::*;

verus! {

/// Number of memory cells, and one more than the largest cell value:
/// 3 to the power 10.
pub const MEMORY_SIZE: usize = 59049;

/// Whether `c` is the value of a printable ASCII character (33 to 126).
pub open spec fn spec_printable(c: int) -> bool {
    32 < c < 127
}

/// Runtime test for [`spec_printable`].
pub fn is_printable(c: usize) -> (r: bool)
    ensures
        r == spec_printable(c as int),
{
    32 < c && c < 127
}

/// Rotation of a ten-trit value: every trit moves one position toward
/// the low end, and the lowest trit wraps around to weight 3^9 = 19683.
pub open spec fn spec_rotate(x: int) -> int {
    x / 3 + (x % 3) * 19683
}

/// Rotate a ten-trit value right by one trit position.
pub fn tri_rotate(x: usize) -> (r: usize)
    requires
        x < MEMORY_SIZE,
    ensures
        r == spec_rotate(x as int),
        r < MEMORY_SIZE,
{
    let q: usize = x / 3;
    let rem: usize = x % 3;
    q + rem * 19683
}

/// Entry of the fixed 9-by-9 result table of the digit-wise operation:
/// `row` is a base-9 digit of the second operand, `col` one of the first.
#[verifier::opaque]
pub open spec fn o_entry(row: int, col: int) -> int
    recommends
        0 <= row < 9,
        0 <= col < 9,
{
    if row == 0 {
        if col == 0 { 4 }
        else if col == 1 { 3 }
        else if col == 2 { 3 }
        else if col == 3 { 1 }
        else if col == 4 { 0 }
        else if col == 5 { 0 }
        else if col == 6 { 1 }
        else if col == 7 { 0 }
        else if col == 8 { 0 }
        else { 0 }
    } else if row == 1 {
        if col == 0 { 4 }
        else if col == 1 { 3 }
        else if col == 2 { 5 }
        else if col == 3 { 1 }
        else if col == 4 { 0 }
        else if col == 5 { 2 }
        else if col == 6 { 1 }
        else if col == 7 { 0 }
        else if col == 8 { 2 }
        else { 0 }
    } else if row == 2 {
        if col == 0 { 5 }
        else if col == 1 { 5 }
        else if col == 2 { 4 }
        else if col == 3 { 2 }
        else if col == 4 { 2 }
        else if col == 5 { 1 }
        else if col == 6 { 2 }
        else if col == 7 { 2 }
        else if col == 8 { 1 }
        else { 0 }
    } else if row == 3 {
        if col == 0 { 4 }
        else if col == 1 { 3 }
        else if col == 2 { 3 }
        else if col == 3 { 1 }
        else if col == 4 { 0 }
        else if col == 5 { 0 }
        else if col == 6 { 7 }
        else if col == 7 { 6 }
        else if col == 8 { 6 }
        else { 0 }
    } else if row == 4 {
        if col == 0 { 4 }
        else if col == 1 { 3 }
        else if col == 2 { 5 }
        else if col == 3 { 1 }
        else if col == 4 { 0 }
        else if col == 5 { 2 }
        else if col == 6 { 7 }
        else if col == 7 { 6 }
        else if col == 8 { 8 }
        else { 0 }
    } else if row == 5 {
        if col == 0 { 5 }
        else if col == 1 { 5 }
        else if col == 2 { 4 }
        else if col == 3 { 2 }
        else if col == 4 { 2 }
        else if col == 5 { 1 }
        else if col == 6 { 8 }
        else if col == 7 { 8 }
        else if col == 8 { 7 }
        else { 0 }
    } else if row == 6 {
        if col == 0 { 7 }
        else if col == 1 { 6 }
        else if col == 2 { 6 }
        else if col == 3 { 7 }
        else if col == 4 { 6 }
        else if col == 5 { 6 }
        else if col == 6 { 4 }
        else if col == 7 { 3 }
        else if col == 8 { 3 }
        else { 0 }
    } else if row == 7 {
        if col == 0 { 7 }
        else if col == 1 { 6 }
        else if col == 2 { 8 }
        else if col == 3 { 7 }
        else if col == 4 { 6 }
        else if col == 5 { 8 }
        else if col == 6 { 4 }
        else if col == 7 { 3 }
        else if col == 8 { 5 }
        else { 0 }
    } else if row == 8 {
        if col == 0 { 8 }
        else if col == 1 { 8 }
        else if col == 2 { 7 }
        else if col == 3 { 8 }
        else if col == 4 { 8 }
        else if col == 5 { 7 }
        else if col == 6 { 5 }
        else if col == 7 { 5 }
        else if col == 8 { 4 }
        else { 0 }
    } else {
        0
    }
}

/// Runtime lookup in the 9-by-9 result table.
fn o_lookup(row: usize, col: usize) -> (r: usize)
    requires
        row < 9,
        col < 9,
    ensures
        r == o_entry(row as int, col as int),
        r <= 8,
{
    proof {
        reveal(o_entry);
    }
    match (row, col) {
        (0, 0) => 4,
        (0, 1) => 3,
        (0, 2) => 3,
        (0, 3) => 1,
        (0, 4) => 0,
        (0, 5) => 0,
        (0, 6) => 1,
        (0, 7) => 0,
        (0, 8) => 0,
        (1, 0) => 4,
        (1, 1) => 3,
        (1, 2) => 5,
        (1, 3) => 1,
        (1, 4) => 0,
        (1, 5) => 2,
        (1, 6) => 1,
        (1, 7) => 0,
        (1, 8) => 2,
        (2, 0) => 5,
        (2, 1) => 5,
        (2, 2) => 4,
        (2, 3) => 2,
        (2, 4) => 2,
        (2, 5) => 1,
        (2, 6) => 2,
        (2, 7) => 2,
        (2, 8) => 1,
        (3, 0) => 4,
        (3, 1) => 3,
        (3, 2) => 3,
        (3, 3) => 1,
        (3, 4) => 0,
        (3, 5) => 0,
        (3, 6) => 7,
        (3, 7) => 6,
        (3, 8) => 6,
        (4, 0) => 4,
        (4, 1) => 3,
        (4, 2) => 5,
        (4, 3) => 1,
        (4, 4) => 0,
        (4, 5) => 2,
        (4, 6) => 7,
        (4, 7) => 6,
        (4, 8) => 8,
        (5, 0) => 5,
        (5, 1) => 5,
        (5, 2) => 4,
        (5, 3) => 2,
        (5, 4) => 2,
        (5, 5) => 1,
        (5, 6) => 8,
        (5, 7) => 8,
        (5, 8) => 7,
        (6, 0) => 7,
        (6, 1) => 6,
        (6, 2) => 6,
        (6, 3) => 7,
        (6, 4) => 6,
        (6, 5) => 6,
        (6, 6) => 4,
        (6, 7) => 3,
        (6, 8) => 3,
        (7, 0) => 7,
        (7, 1) => 6,
        (7, 2) => 8,
        (7, 3) => 7,
        (7, 4) => 6,
        (7, 5) => 8,
        (7, 6) => 4,
        (7, 7) => 3,
        (7, 8) => 5,
        (8, 0) => 8,
        (8, 1) => 8,
        (8, 2) => 7,
        (8, 3) => 8,
        (8, 4) => 8,
        (8, 5) => 7,
        (8, 6) => 5,
        (8, 7) => 5,
        (8, 8) => 4,
        _ => 0,
    }
}

/// The digit-wise "crazy" operation: both operands are read as five
/// base-9 digits, each pair of digits is looked up in the fixed table,
/// and the results are summed back with their digit weights.
pub open spec fn spec_crazy(x: int, y: int) -> int {
    o_entry(y % 9, x % 9) + o_entry(y / 9 % 9, x / 9 % 9) * 9 + o_entry(y / 81 % 9, x / 81 % 9)
        * 81 + o_entry(y / 729 % 9, x / 729 % 9) * 729 + o_entry(y / 6561 % 9, x / 6561 % 9)
        * 6561
}

/// Apply the digit-wise operation to two cell values.
pub fn crazy_op(x: usize, y: usize) -> (r: usize)
    requires
        x < MEMORY_SIZE,
        y < MEMORY_SIZE,
    ensures
        r == spec_crazy(x as int, y as int),
        r < MEMORY_SIZE,
{
    let t0: usize = o_lookup(y % 9, x % 9);
    let t1: usize = o_lookup(y / 9 % 9, x / 9 % 9);
    let t2: usize = o_lookup(y / 81 % 9, x / 81 % 9);
    let t3: usize = o_lookup(y / 729 % 9, x / 729 % 9);
    let t4: usize = o_lookup(y / 6561 % 9, x / 6561 % 9);
    t0 + t1 * 9 + t2 * 81 + t3 * 729 + t4 * 6561
}

/// Every entry of the result table lies between 0 and 8.
pub proof fn lemma_o_entry_bounds(row: int, col: int)
    ensures
        0 <= o_entry(row, col) <= 8,
{
    reveal(o_entry);
}

/// The digit-wise operation is total on cell values: for operands in
/// range its result is again a cell value.
pub proof fn lemma_crazy_in_range(x: int, y: int)
    requires
        0 <= x < MEMORY_SIZE,
        0 <= y < MEMORY_SIZE,
    ensures
        0 <= spec_crazy(x, y) < MEMORY_SIZE,
{
    lemma_o_entry_bounds(y % 9, x % 9);
    lemma_o_entry_bounds(y / 9 % 9, x / 9 % 9);
    lemma_o_entry_bounds(y / 81 % 9, x / 81 % 9);
    lemma_o_entry_bounds(y / 729 % 9, x / 729 % 9);
    lemma_o_entry_bounds(y / 6561 % 9, x / 6561 % 9);
}

/// The rotation is total on cell values: for an operand in range its
/// result is again a cell value.
pub proof fn lemma_rotate_in_range(x: int)
    requires
        0 <= x < MEMORY_SIZE,
    ensures
        0 <= spec_rotate(x) < MEMORY_SIZE,
{
    assert(0 <= x / 3 <= 19682 && 0 <= x % 3 <= 2) by (nonlinear_arith)
        requires
            0 <= x < 59049,
    ;
}

/// The digit-wise operation is deterministic: two results obtained from
/// the same operands are the same value.
pub proof fn lemma_crazy_deterministic(x: int, y: int, r1: int, r2: int)
    requires
        r1 == spec_crazy(x, y),
        r2 == spec_crazy(x, y),
    ensures
        r1 == r2,
{
}

/// The value `x` rotated `k` times in a row.
pub open spec fn rotate_iter(x: int, k: nat) -> int
    decreases k,
{
    if k == 0 {
        x
    } else {
        spec_rotate(rotate_iter(x, (k - 1) as nat))
    }
}

/// After `k` of ten rotation steps, the ten trits of `x` are split at
/// position `k`: the upper ones stand shifted down, and the lower ones
/// are carried to the top.
proof fn lemma_rotate_iter_form(x: int, k: nat)
    requires
        0 <= x < MEMORY_SIZE,
        k <= 10,
    ensures
        rotate_iter(x, k) == x / pow(3, k) + (x % pow(3, k)) * pow(3, (10 - k) as nat),
    decreases k,
{
    if k == 0 {
        assert(pow(3, 0) == 1) by {
            reveal_with_fuel(pow, 1);
        }
        assert(x / 1 == x) by (nonlinear_arith);
        assert(x % 1 == 0) by (nonlinear_arith);
    } else {
        lemma_rotate_iter_form(x, (k - 1) as nat);
        let p = pow(3, (k - 1) as nat);
        let q = pow(3, (10 - k) as nat);
        lemma_pow_positive(3, (k - 1) as nat);
        lemma_pow_positive(3, (10 - k) as nat);
        assert(pow(3, (11 - k) as nat) == 3 * q) by {
            reveal_with_fuel(pow, 2);
        }
        assert(pow(3, k) == 3 * p) by {
            reveal_with_fuel(pow, 2);
        }
        let a = x / p;
        let b = x % p;
        lemma_div_pos_is_pos(x, p);
        lemma_mod_bound(x, p);
        assert(rotate_iter(x, (k - 1) as nat) == a + b * (3 * q));
        let v = a + b * (3 * q);
        lemma_fundamental_div_mod(a, 3);
        lemma_mod_bound(a, 3);
        assert(v == 3 * (b * q + a / 3) + a % 3) by (nonlinear_arith)
            requires
                v == a + b * (3 * q),
                a == 3 * (a / 3) + a % 3,
        ;
        lemma_fundamental_div_mod_converse(v, 3, b * q + a / 3, a % 3);
        assert(v / 3 == b * q + a / 3);
        assert(v % 3 == a % 3);
        assert(rotate_iter(x, k) == v / 3 + (v % 3) * 19683);
        lemma_div_denominator(x, p, 3);
        assert(x / pow(3, k) == a / 3) by {
            assert(p * 3 == 3 * p) by (nonlinear_arith);
        }
        lemma_breakdown(x, p, 3);
        assert(x % (3 * p) == p * (a % 3) + b) by {
            assert(p * 3 == 3 * p) by (nonlinear_arith);
        }
        lemma_pow_adds(3, (k - 1) as nat, (10 - k) as nat);
        assert(pow(3, 9) == 19683) by {
            reveal_with_fuel(pow, 10);
        }
        assert(p * q == 19683);
        assert((p * (a % 3) + b) * q == b * q + (a % 3) * 19683) by (nonlinear_arith)
            requires
                p * q == 19683,
        ;
        assert(rotate_iter(x, k) == x / pow(3, k) + (x % pow(3, k)) * pow(3, (10 - k) as nat));
    }
}

/// Rotation is a 10-cycle: applying it ten times to any cell value
/// yields the value unchanged.
pub proof fn lemma_rotate_ten_cycle(x: int)
    requires
        0 <= x < MEMORY_SIZE,
    ensures
        rotate_iter(x, 10) == x,
{
    lemma_rotate_iter_form(x, 10);
    assert(pow(3, 10) == 59049) by {
        reveal_with_fuel(pow, 11);
    }
    assert(pow(3, 0) == 1) by {
        reveal_with_fuel(pow, 1);
    }
    assert(x / 59049 == 0) by (nonlinear_arith)
        requires
            0 <= x < 59049,
    ;
    assert(x % 59049 == x) by (nonlinear_arith)
        requires
            0 <= x < 59049,
    ;
}

/// Rotating `k + 1` times is rotating once and then `k` more times.
proof fn lemma_rotate_iter_shift(x: int, k: nat)
    ensures
        rotate_iter(x, k + 1) == rotate_iter(spec_rotate(x), k),
    decreases k,
{
    if k == 0 {
        assert(rotate_iter(x, 1) == spec_rotate(rotate_iter(x, 0)));
        assert(rotate_iter(spec_rotate(x), 0) == spec_rotate(x));
    } else {
        lemma_rotate_iter_shift(x, (k - 1) as nat);
        assert(rotate_iter(x, k + 1) == spec_rotate(rotate_iter(x, k)));
        assert(rotate_iter(spec_rotate(x), k) == spec_rotate(
            rotate_iter(spec_rotate(x), (k - 1) as nat),
        ));
    }
}

/// Rotation is injective on cell values: no two distinct inputs rotate
/// to the same output.
pub proof fn lemma_rotate_injective(x: int, y: int)
    requires
        0 <= x < MEMORY_SIZE,
        0 <= y < MEMORY_SIZE,
        spec_rotate(x) == spec_rotate(y),
    ensures
        x == y,
{
    lemma_rotate_ten_cycle(x);
    lemma_rotate_ten_cycle(y);
    lemma_rotate_iter_shift(x, 9);
    lemma_rotate_iter_shift(y, 9);
}

} // verus!
