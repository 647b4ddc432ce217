//! The textual form of tenant identifiers.
//!
//! A tenant is identified by a UUID, which the library holds as the number made of its 128 bits.
use vstd::arithmetic::div_mod::{lemma_div_denominator, lemma_fundamental_div_mod};
use vstd::arithmetic::power::{lemma_pow1, lemma_pow_adds, lemma_pow_positive, pow};
use vstd::prelude::*;

verus! {

/// The lower case hexadecimal digit for `n`, where `0 <= n < 16`.
pub open spec fn hex_digit(n: int) -> char {
    if n < 10 {
        (48 + n) as char
    } else {
        (87 + n) as char
    }
}

/// The `i`-th of the 32 hexadecimal digits of `id`, the most significant one first.
pub open spec fn nibble(id: u128, i: int) -> int {
    (id as int / pow(16, (31 - i) as nat)) % 16
}

/// The 32 hexadecimal digits of `id`.
pub open spec fn hex_digits(id: u128) -> Seq<char> {
    Seq::new(32, |i: int| hex_digit(nibble(id, i)))
}

/// The hyphenated form of `id`: its digits in groups of 8, 4, 4, 4 and 12.
pub open spec fn hyphenated(id: u128) -> Seq<char> {
    let digits = hex_digits(id);
    digits.subrange(0, 8) + seq!['-'] + digits.subrange(8, 12) + seq!['-'] + digits.subrange(12, 16)
        + seq!['-'] + digits.subrange(16, 20) + seq!['-'] + digits.subrange(20, 32)
}

/// Calls `to_string` on `uuid::Uuid::from_u128(id)`.
///
/// Claimed of the `uuid` crate: a UUID made of the number `id` is displayed as the 32 lower case
/// hexadecimal digits of `id`, in groups of 8, 4, 4, 4 and 12 that a hyphen separates.
#[verifier::external_body]
pub(crate) fn tenant_id_text(id: u128) -> (text: String)
    ensures
        text@ == hyphenated(id),
{
    uuid::Uuid::from_u128(id).to_string()
}

/// A hexadecimal digit stands for one number only.
pub(crate) proof fn lemma_hex_digit_is_unique(m: int, n: int)
    requires
        0 <= m < 16,
        0 <= n < 16,
        hex_digit(m) == hex_digit(n),
    ensures
        m == n,
{
    assert(hex_digit(m) as int == hex_digit(n) as int);
}

/// 32 hexadecimal digits hold 128 bits.
proof fn lemma_digits_suffice()
    ensures
        pow(16, 32) == 0x1_0000_0000_0000_0000_0000_0000_0000_0000int,
{
    lemma_pow_adds(16, 16, 16);
    lemma_pow_adds(16, 8, 8);
    lemma_pow_adds(16, 4, 4);
    lemma_pow_adds(16, 2, 2);
    lemma_pow_adds(16, 1, 1);
    lemma_pow1(16);
    let (p2, p4, p8, p16) = (pow(16, 2), pow(16, 4), pow(16, 8), pow(16, 16));
    assert(p4 == 0x1_0000) by (nonlinear_arith)
        requires
            p2 == 16 * 16,
            p4 == p2 * p2,
    ;
    assert(p8 == 0x1_0000_0000) by (nonlinear_arith)
        requires
            p4 == 0x1_0000,
            p8 == p4 * p4,
    ;
    assert(p16 == 0x1_0000_0000_0000_0000) by (nonlinear_arith)
        requires
            p8 == 0x1_0000_0000,
            p16 == p8 * p8,
    ;
    let top = pow(16, 32);
    assert(top == 0x1_0000_0000_0000_0000_0000_0000_0000_0000int) by (nonlinear_arith)
        requires
            p16 == 0x1_0000_0000_0000_0000,
            top == p16 * p16,
    ;
}

/// Two numbers below a power of 16 with the same digits agree on every prefix of their digits.
proof fn lemma_equal_prefixes(a: u128, b: u128, k: nat)
    requires
        forall|i: int| 0 <= i < 32 ==> nibble(a, i) == nibble(b, i),
        k <= 32,
    ensures
        a as int / pow(16, (32 - k) as nat) == b as int / pow(16, (32 - k) as nat),
    decreases k,
{
    if k == 0 {
        let top = pow(16, 32);
        lemma_digits_suffice();
        vstd::arithmetic::div_mod::lemma_basic_div(a as int, top);
        vstd::arithmetic::div_mod::lemma_basic_div(b as int, top);
    } else {
        lemma_equal_prefixes(a, b, (k - 1) as nat);
        let m = (32 - k) as nat;
        let p = pow(16, m);
        lemma_pow_positive(16, m);
        lemma_pow_adds(16, m, 1);
        lemma_pow1(16);
        lemma_div_denominator(a as int, p, 16);
        lemma_div_denominator(b as int, p, 16);
        lemma_fundamental_div_mod(a as int / p, 16);
        lemma_fundamental_div_mod(b as int / p, 16);
        assert(nibble(a, k - 1) == nibble(b, k - 1));
        assert((31 - (k - 1)) as nat == m);
        assert((32 - (k - 1)) as nat == m + 1);
    }
}

/// The displayed identifier tells tenants apart: different identifiers have different texts.
pub proof fn tenant_id_text_is_unique(a: u128, b: u128)
    requires
        hyphenated(a) == hyphenated(b),
    ensures
        a == b,
{
    let x = hyphenated(a);
    let y = hyphenated(b);
    assert forall|i: int| 0 <= i < 32 implies nibble(a, i) == nibble(b, i) by {
        let shift: int = if i < 8 {
            0
        } else if i < 12 {
            1
        } else if i < 16 {
            2
        } else if i < 20 {
            3
        } else {
            4
        };
        assert(x[i + shift] == hex_digits(a)[i]);
        assert(y[i + shift] == hex_digits(b)[i]);
        let m = nibble(a, i);
        let n = nibble(b, i);
        assert(hex_digit(m) == hex_digit(n));
        lemma_hex_digit_is_unique(m, n);
    }
    lemma_equal_prefixes(a, b, 32);
    assert(pow(16, 0) == 1) by {
        vstd::arithmetic::power::lemma_pow0(16);
    }
}

/// The displayed identifier has 36 characters, whatever the identifier.
pub proof fn tenant_id_text_has_fixed_length(id: u128)
    ensures
        hyphenated(id).len() == 36,
{
}

/// The number that a lower case hexadecimal digit stands for.
pub open spec fn hex_value(digit: char) -> int {
    if (digit as int) < 58 {
        digit as int - 48
    } else {
        digit as int - 87
    }
}

/// The number that some hexadecimal digits stand for.
pub open spec fn hex_number(digits: Seq<char>) -> int
    decreases digits.len(),
{
    if digits.len() == 0 {
        0
    } else {
        16 * hex_number(digits.drop_last()) + hex_value(digits.last())
    }
}

/// The first digits of an identifier stand for its upper part.
proof fn lemma_first_digits(id: u128, k: nat)
    requires
        k <= 32,
    ensures
        hex_number(hex_digits(id).take(k as int)) == id as int / pow(16, (32 - k) as nat),
    decreases k,
{
    let digits = hex_digits(id);
    if k == 0 {
        let top = pow(16, 32);
        lemma_digits_suffice();
        vstd::arithmetic::div_mod::lemma_basic_div(id as int, top);
    } else {
        lemma_first_digits(id, (k - 1) as nat);
        let m = (32 - k) as nat;
        let p = pow(16, m);
        lemma_pow_positive(16, m);
        lemma_pow_adds(16, m, 1);
        lemma_pow1(16);
        lemma_div_denominator(id as int, p, 16);
        lemma_fundamental_div_mod(id as int / p, 16);
        assert((31 - (k - 1)) as nat == m);
        assert((32 - (k - 1)) as nat == m + 1);
        let first = digits.take(k as int);
        assert(first.drop_last() =~= digits.take(k - 1));
        let n = nibble(id, k - 1);
        assert(first.last() == hex_digit(n));
        assert(hex_value(hex_digit(n)) == n);
    }
}

/// The displayed identifier reads back as the identifier: without its four hyphens it is the number
/// in hexadecimal digits, the most significant one first.
pub proof fn tenant_id_text_reads_back(id: u128)
    ensures
        ({
            let text = hyphenated(id);
            &&& text[8] == '-' && text[13] == '-' && text[18] == '-' && text[23] == '-'
            &&& hex_number(
                text.subrange(0, 8) + text.subrange(9, 13) + text.subrange(14, 18)
                    + text.subrange(19, 23) + text.subrange(24, 36),
            ) == id
        }),
{
    let text = hyphenated(id);
    let digits = hex_digits(id);
    assert(text.subrange(0, 8) + text.subrange(9, 13) + text.subrange(14, 18) + text.subrange(
        19,
        23,
    ) + text.subrange(24, 36) =~= digits);
    assert(digits.take(32) =~= digits);
    lemma_first_digits(id, 32);
    assert(pow(16, 0) == 1) by {
        vstd::arithmetic::power::lemma_pow0(16);
    }
}

} // verus!
