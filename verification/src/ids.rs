//! Universally unique identifiers, as numbers of 128 bits.

use vstd::prelude::*;
use vstd::string::*;

use crate::text;

verus! {

/// The value of a hexadecimal digit in either case.
pub open spec fn hex_value(c: char) -> Option<int> {
    let u = c as u32;
    if 0x30 <= u <= 0x39 {
        Some(u - 0x30)
    } else if 0x61 <= u <= 0x66 {
        Some(u - 0x57)
    } else if 0x41 <= u <= 0x46 {
        Some(u - 0x37)
    } else {
        None
    }
}

/// Every character of `s` is a hexadecimal digit.
pub open spec fn all_hex(s: Seq<char>) -> bool {
    forall|i: int| 0 <= i < s.len() ==> hex_value(#[trigger] s[i]) is Some
}

/// The number that hexadecimal digits denote.
pub open spec fn number_of(s: Seq<char>) -> int
    decreases s.len(),
{
    if s.len() == 0 {
        0
    } else {
        number_of(s.drop_last()) * 16 + hex_value(s.last())->0
    }
}

/// The digits of an id that is written in groups of 8, 4, 4, 4 and 12 digits.
pub open spec fn ungrouped(s: Seq<char>) -> Option<Seq<char>> {
    if s.len() == 36 && s[8] == '-' && s[13] == '-' && s[18] == '-' && s[23] == '-' {
        Some(
            s.subrange(0, 8) + s.subrange(9, 13) + s.subrange(14, 18) + s.subrange(19, 23)
                + s.subrange(24, 36),
        )
    } else {
        None
    }
}

/// The digits of an id in one of the forms that it can be written in: bare, grouped, grouped
/// and in braces, or grouped behind `urn:uuid:`.
pub open spec fn id_digits(s: Seq<char>) -> Option<Seq<char>> {
    if s.len() == 32 {
        Some(s)
    } else if s.len() == 36 {
        ungrouped(s)
    } else if s.len() == 38 && s[0] == '{' && s[37] == '}' {
        ungrouped(s.subrange(1, 37))
    } else if s.len() == 45 && text::lowered(s.take(9)) == "urn:uuid:"@ {
        ungrouped(s.skip(9))
    } else {
        None
    }
}

/// The id that a text denotes.
pub open spec fn id_of(s: Seq<char>) -> Option<int> {
    match id_digits(s) {
        Some(digits) => if all_hex(digits) {
            Some(number_of(digits))
        } else {
            None
        },
        None => None,
    }
}

/// An optional id, as a mathematical value.
pub open spec fn opt_id(id: Option<u128>) -> Option<int> {
    match id {
        Some(n) => Some(n as int),
        None => None,
    }
}

/// `Uuid::parse_str` and `Uuid::as_u128`: the id that the text denotes, the first digit being
/// the highest.
#[verifier::external_body]
pub(crate) fn parse(s: &str) -> (r: Option<u128>)
    ensures
        opt_id(r) == id_of(s@),
{
    uuid::Uuid::parse_str(s).ok().map(|id| id.as_u128())
}

/// The last `count` hexadecimal digits of a number.
pub open spec fn digits_of(n: int, count: nat) -> Seq<char>
    decreases count,
{
    if count == 0 {
        Seq::empty()
    } else {
        digits_of(n / 16, (count - 1) as nat).push(text::hex_digit(n % 16))
    }
}

/// The text of an id: lower-case digits, in groups.
pub open spec fn id_text(id: u128) -> Seq<char> {
    let d = digits_of(id as int, 32);
    d.subrange(0, 8) + seq!['-'] + d.subrange(8, 12) + seq!['-'] + d.subrange(12, 16) + seq!['-']
        + d.subrange(16, 20) + seq!['-'] + d.subrange(20, 32)
}

/// `Uuid::from_u128` and `Uuid::to_string`: the text of an id, in lower-case digits and groups.
#[verifier::external_body]
pub(crate) fn to_text(id: u128) -> (r: String)
    ensures
        r@ == id_text(id),
{
    uuid::Uuid::from_u128(id).to_string()
}

/// There are as many digits as were asked for, and they denote the number that they are of.
proof fn lemma_digits(n: int, count: nat)
    requires
        0 <= n,
    ensures
        digits_of(n, count).len() == count,
        all_hex(digits_of(n, count)),
        number_of(digits_of(n, count)) == n % power16(count),
    decreases count,
{
    if count > 0 {
        let fewer = (count - 1) as nat;
        lemma_digits(n / 16, fewer);
        let front = digits_of(n / 16, fewer);
        let all = digits_of(n, count);
        assert(all.drop_last() =~= front);
        let d = n % 16;
        assert(hex_value(text::hex_digit(d)) == Some(d));
        assert forall|i: int| 0 <= i < all.len() implies hex_value(#[trigger] all[i]) is Some by {
            if i < front.len() {
                assert(all[i] == front[i]);
            }
        }
        let p = power16(fewer);
        lemma_power16_positive(fewer);
        assert(n % (16 * p) == (n / 16) % p * 16 + n % 16) by (nonlinear_arith)
            requires
                p > 0,
                n >= 0,
        {
            let q = (n / 16) / p;
            let r = (n / 16) % p;
            assert(n / 16 == p * q + r);
            assert(n == (n / 16) * 16 + n % 16);
            assert(n == 16 * p * q + (r * 16 + n % 16));
            assert(0 <= r * 16 + n % 16 < 16 * p);
            assert(n % (16 * p) == r * 16 + n % 16) by (nonlinear_arith)
                requires
                    n == 16 * p * q + (r * 16 + n % 16),
                    0 <= r * 16 + n % 16 < 16 * p,
                    p > 0,
            {
                vstd::arithmetic::div_mod::lemma_fundamental_div_mod_converse(
                    n,
                    16 * p,
                    q,
                    r * 16 + n % 16,
                );
            }
        }
    } else {
        assert(n % 1 == 0);
    }
}

/// A power of 16.
spec fn power16(e: nat) -> int
    decreases e,
{
    if e == 0 {
        1
    } else {
        16 * power16((e - 1) as nat)
    }
}

/// Powers of 16 are positive.
proof fn lemma_power16_positive(e: nat)
    ensures
        power16(e) > 0,
    decreases e,
{
    if e > 0 {
        lemma_power16_positive((e - 1) as nat);
    }
}

/// The text of an id denotes that id.
pub proof fn law_id_texts_denote_their_id(id: u128)
    ensures
        id_of(id_text(id)) == Some(id as int),
{
    let d = digits_of(id as int, 32);
    let s = id_text(id);
    lemma_digits(id as int, 32);
    assert(s.len() == 36);
    assert(s.subrange(0, 8) =~= d.subrange(0, 8));
    assert(s.subrange(9, 13) =~= d.subrange(8, 12));
    assert(s.subrange(14, 18) =~= d.subrange(12, 16));
    assert(s.subrange(19, 23) =~= d.subrange(16, 20));
    assert(s.subrange(24, 36) =~= d.subrange(20, 32));
    assert(ungrouped(s)->0 =~= d);
    assert(power16(32) == 0x1_0000_0000_0000_0000_0000_0000_0000_0000) by {
        reveal_with_fuel(power16, 33);
    }
}

} // verus!
