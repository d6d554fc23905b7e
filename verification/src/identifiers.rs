//! The text of a 128-bit identifier, and why two identifiers never share
//! one.

use vstd::arithmetic::div_mod::{lemma_basic_div, lemma_div_denominator, lemma_fundamental_div_mod};
use vstd::prelude::*;

verus! {

/// The sixteen lower-case hexadecimal digits, in order.
pub open spec fn hex_digits() -> Seq<char> {
    seq!['0', '1', '2', '3', '4', '5', '6', '7', '8', '9', 'a', 'b', 'c', 'd', 'e', 'f']
}

/// Sixteen to the power `e`.
pub open spec fn pow16(e: nat) -> int
    decreases e,
{
    if e == 0 {
        1
    } else {
        16 * pow16((e - 1) as nat)
    }
}

/// The `k`-th of the 32 hexadecimal digits of `id`, the most significant
/// being digit 0.
pub open spec fn nibble(id: u128, k: int) -> int
    recommends
        0 <= k < 32,
{
    (id as int / pow16((31 - k) as nat)) % 16
}

/// The canonical text of an identifier: its 32 lower-case hexadecimal digits
/// in groups of 8, 4, 4, 4 and 12, with a hyphen between two groups.
pub open spec fn hyphenated(id: u128) -> Seq<char> {
    Seq::new(
        36,
        |i: int|
            if i == 8 || i == 13 || i == 18 || i == 23 {
                '-'
            } else {
                let k = if i < 8 {
                    i
                } else if i < 13 {
                    i - 1
                } else if i < 18 {
                    i - 2
                } else if i < 23 {
                    i - 3
                } else {
                    i - 4
                };
                hex_digits()[nibble(id, k)]
            },
    )
}

/// The number that the first `n` hexadecimal digits of `id` spell.
pub open spec fn leading(id: u128, n: nat) -> int
    recommends
        n <= 32,
{
    id as int / pow16((32 - n) as nat)
}

/// Powers of sixteen are positive.
pub proof fn pow16_is_positive(e: nat)
    ensures
        pow16(e) > 0,
    decreases e,
{
    if e > 0 {
        pow16_is_positive((e - 1) as nat);
    }
}

/// Sixteen to the power 32 is beyond every 128-bit value.
pub proof fn pow16_exceeds_u128()
    ensures
        pow16(32) == 0x1_0000_0000_0000_0000_0000_0000_0000_0000,
{
    reveal_with_fuel(pow16, 5);
    assert(pow16(4) == 0x1_0000);
    assert(pow16(8) == 0x1_0000_0000);
    assert(pow16(12) == 0x1_0000_0000_0000);
    assert(pow16(16) == 0x1_0000_0000_0000_0000);
    assert(pow16(20) == 0x1_0000_0000_0000_0000_0000);
    assert(pow16(24) == 0x1_0000_0000_0000_0000_0000_0000);
    assert(pow16(28) == 0x1_0000_0000_0000_0000_0000_0000_0000);
}

/// A digit is a number below sixteen.
pub proof fn nibble_is_a_digit(id: u128, k: int)
    requires
        0 <= k < 32,
    ensures
        0 <= nibble(id, k) < 16,
{
}

/// One more digit: sixteen times what the digits before it spell, plus
/// the digit.
pub proof fn leading_grows_by_a_digit(id: u128, n: nat)
    requires
        n < 32,
    ensures
        leading(id, n + 1) == 16 * leading(id, n) + nibble(id, n as int),
{
    let unit = pow16((31 - n) as nat);
    pow16_is_positive((31 - n) as nat);
    assert(pow16((32 - n) as nat) == 16 * unit);
    let spelled = id as int / unit;
    lemma_div_denominator(id as int, unit, 16);
    assert(unit * 16 == 16 * unit);
    lemma_fundamental_div_mod(spelled, 16);
}

/// Two identifiers with the same first `n` digits spell the same number
/// with them.
pub proof fn same_digits_spell_the_same(a: u128, b: u128, n: nat)
    requires
        n <= 32,
        forall|k: int| 0 <= k < n ==> nibble(a, k) == nibble(b, k),
    ensures
        leading(a, n) == leading(b, n),
    decreases n,
{
    if n == 0 {
        pow16_exceeds_u128();
        lemma_basic_div(a as int, pow16(32));
        lemma_basic_div(b as int, pow16(32));
    } else {
        let m = (n - 1) as nat;
        same_digits_spell_the_same(a, b, m);
        leading_grows_by_a_digit(a, m);
        leading_grows_by_a_digit(b, m);
    }
}

/// No two of the sixteen digits are the same character.
pub proof fn hex_digits_differ(x: int, y: int)
    requires
        0 <= x < 16,
        0 <= y < 16,
        hex_digits()[x] == hex_digits()[y],
    ensures
        x == y,
{
    let d = hex_digits();
    assert(d[0] == '0' && d[1] == '1' && d[2] == '2' && d[3] == '3');
    assert(d[4] == '4' && d[5] == '5' && d[6] == '6' && d[7] == '7');
    assert(d[8] == '8' && d[9] == '9' && d[10] == 'a' && d[11] == 'b');
    assert(d[12] == 'c' && d[13] == 'd' && d[14] == 'e' && d[15] == 'f');
}

/// Where the `k`-th digit stands in the text.
pub open spec fn place(k: int) -> int {
    if k < 8 {
        k
    } else if k < 12 {
        k + 1
    } else if k < 16 {
        k + 2
    } else if k < 20 {
        k + 3
    } else {
        k + 4
    }
}

/// Two identifiers with the same text are the same identifier.
pub proof fn text_names_one_identifier(a: u128, b: u128)
    requires
        hyphenated(a) == hyphenated(b),
    ensures
        a == b,
{
    assert forall|k: int| 0 <= k < 32 implies nibble(a, k) == nibble(b, k) by {
        assert(hyphenated(a)[place(k)] == hex_digits()[nibble(a, k)]);
        assert(hyphenated(b)[place(k)] == hex_digits()[nibble(b, k)]);
        nibble_is_a_digit(a, k);
        nibble_is_a_digit(b, k);
        hex_digits_differ(nibble(a, k), nibble(b, k));
    }
    same_digits_spell_the_same(a, b, 32);
    assert(pow16(0) == 1);
}

} // verus!
