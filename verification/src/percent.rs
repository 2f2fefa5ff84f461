//! Percent-encoding of values that stand in a query string or a path.

use vstd::prelude::*;
use vstd::string::*;

verus! {

/// A byte that stands for itself: a letter, a digit or one of `-`, `_`, `.`, `~`.
pub open spec fn is_unreserved(b: u8) -> bool {
    ||| 0x41 <= b <= 0x5a
    ||| 0x61 <= b <= 0x7a
    ||| 0x30 <= b <= 0x39
    ||| b == 0x2d
    ||| b == 0x5f
    ||| b == 0x2e
    ||| b == 0x7e
}

/// The upper-case hexadecimal digit of a number below 16.
pub open spec fn hex_digit(n: u8) -> char {
    if n < 10 {
        (0x30 + n) as u8 as char
    } else {
        (0x37 + n) as u8 as char
    }
}

/// One byte, encoded.
pub open spec fn encoded_byte(b: u8) -> Seq<char> {
    if is_unreserved(b) {
        seq![b as char]
    } else {
        seq!['%', hex_digit(b / 16), hex_digit(b % 16)]
    }
}

/// A run of bytes, encoded.
pub open spec fn encoded(bytes: Seq<u8>) -> Seq<char>
    decreases bytes.len(),
{
    if bytes.len() == 0 {
        Seq::empty()
    } else {
        encoded_byte(bytes[0]) + encoded(bytes.drop_first())
    }
}

/// The value of an upper-case hexadecimal digit.
pub open spec fn digit_value(c: char) -> int {
    if c as u32 <= 0x39 {
        c as u32 - 0x30
    } else {
        c as u32 - 0x37
    }
}

/// The bytes that an encoded text stands for.
pub open spec fn decoded(s: Seq<char>) -> Seq<int>
    decreases s.len(),
{
    if s.len() == 0 {
        Seq::empty()
    } else if s[0] == '%' && s.len() >= 3 {
        seq![digit_value(s[1]) * 16 + digit_value(s[2])] + decoded(s.skip(3))
    } else {
        seq![s[0] as int] + decoded(s.skip(1))
    }
}

/// The upper-case hexadecimal digit of a number below 16.
fn to_hex_digit(n: u8) -> (r: char)
    requires
        n < 16,
    ensures
        r == hex_digit(n),
{
    if n < 10 {
        (0x30 + n) as char
    } else {
        (0x37 + n) as char
    }
}

/// The bytes of `value`, each one that is not unreserved as `%` and two hexadecimal digits.
pub fn encode_query_value(value: &str) -> (r: String)
    ensures
        r@ == encoded(vstd::utf8::encode_utf8(value@)),
{
    let bytes = value.as_bytes();
    let ghost all = bytes@;
    let mut r = String::new();
    let mut i: usize = 0;
    assert(all.skip(0) =~= all);
    assert(Seq::<char>::empty() + encoded(all) =~= encoded(all));
    while i < bytes.len()
        invariant
            i <= bytes.len(),
            bytes@ == all,
            r@ + encoded(all.skip(i as int)) == encoded(all),
        decreases bytes.len() - i,
    {
        let b = bytes[i];
        let ghost before = r@;
        let ghost rest = all.skip(i as int);
        if (0x41 <= b && b <= 0x5a) || (0x61 <= b && b <= 0x7a) || (0x30 <= b && b <= 0x39) || b
            == 0x2d || b == 0x5f || b == 0x2e || b == 0x7e {
            r.push(b as char);
        } else {
            r.push('%');
            r.push(to_hex_digit(b / 16));
            r.push(to_hex_digit(b % 16));
        }
        proof {
            assert(rest[0] == b);
            assert(rest.drop_first() =~= all.skip(i + 1));
            assert(r@ =~= before + encoded_byte(b));
            assert(r@ + encoded(all.skip(i + 1)) =~= before + (encoded_byte(b) + encoded(
                all.skip(i + 1),
            )));
        }
        i += 1;
    }
    assert(all.skip(i as int) =~= Seq::empty());
    assert(r@ + Seq::<char>::empty() =~= r@);
    r
}

/// Encoding loses nothing: the bytes can be read back from the encoded text.
pub proof fn law_encoding_can_be_undone(bytes: Seq<u8>)
    ensures
        decoded(encoded(bytes)) == bytes.map_values(|b: u8| b as int),
    decreases bytes.len(),
{
    let whole = encoded(bytes);
    if bytes.len() > 0 {
        let b = bytes[0];
        let tail = encoded(bytes.drop_first());
        law_encoding_can_be_undone(bytes.drop_first());
        if is_unreserved(b) {
            assert(whole[0] == b as char);
            assert(whole[0] != '%');
            assert(whole.skip(1) =~= tail);
            assert(decoded(whole) =~= seq![b as int] + decoded(tail));
        } else {
            assert(whole[0] == '%');
            assert(whole[1] == hex_digit(b / 16));
            assert(whole[2] == hex_digit(b % 16));
            assert(whole.skip(3) =~= tail);
            assert(digit_value(hex_digit(b / 16)) == b / 16);
            assert(digit_value(hex_digit(b % 16)) == b % 16);
            assert((b / 16) * 16 + b % 16 == b);
        }
    }
    assert(decoded(whole) =~= bytes.map_values(|b: u8| b as int));
}

/// An encoded text can hold nothing that would end a value in a query string: only
/// unreserved characters and `%`.
pub proof fn law_encoding_is_plain(bytes: Seq<u8>)
    ensures
        forall|i: int|
            0 <= i < encoded(bytes).len() ==> (#[trigger] encoded(bytes)[i] == '%' || (
            (encoded(bytes)[i] as u32) < 128 && is_unreserved(encoded(bytes)[i] as u8))),
    decreases bytes.len(),
{
    if bytes.len() > 0 {
        let head = encoded_byte(bytes[0]);
        let tail = encoded(bytes.drop_first());
        law_encoding_is_plain(bytes.drop_first());
        assert forall|i: int| 0 <= i < encoded(bytes).len() implies (#[trigger] encoded(bytes)[i]
            == '%' || ((encoded(bytes)[i] as u32) < 128 && is_unreserved(
            encoded(bytes)[i] as u8,
        ))) by {
            if i >= head.len() {
                assert(encoded(bytes)[i] == tail[i - head.len()]);
            }
        }
    }
}

/// Letters, digits and `-`, `_`, `.`, `~` stand for themselves; any other byte is a `%` and two
/// upper-case digits.
pub proof fn law_bytes_are_encoded_one_by_one(b: u8, s: Seq<u8>, t: Seq<u8>)
    ensures
        ({
            let plain = 'A' as u32 <= b <= 'Z' as u32 || 'a' as u32 <= b <= 'z' as u32 || '0' as u32
                <= b <= '9' as u32 || b == '-' as u32 || b == '_' as u32 || b == '.' as u32 || b
                == '~' as u32;
            let e = encoded(seq![b]);
            &&& plain ==> e == seq![b as char]
            &&& !plain ==> e.len() == 3 && e[0] == '%' && (forall|i: int|
                1 <= i < 3 ==> '0' as u32 <= #[trigger] e[i] as u32 <= '9' as u32 || 'A' as u32
                    <= e[i] as u32 <= 'F' as u32)
        }),
        encoded(s + t) == encoded(s) + encoded(t),
    decreases s.len(),
{
    let one = seq![b];
    assert(one.drop_first() =~= Seq::<u8>::empty());
    assert(encoded(Seq::<u8>::empty()) =~= Seq::empty());
    assert(encoded(one) =~= encoded_byte(b));
    if s.len() == 0 {
        assert(s + t =~= t);
        assert(encoded(s) + encoded(t) =~= encoded(t));
    } else {
        let rest = s.drop_first();
        law_bytes_are_encoded_one_by_one(b, rest, t);
        assert((s + t)[0] == s[0]);
        assert((s + t).drop_first() =~= rest + t);
        assert(encoded(s + t) =~= encoded(s) + encoded(t));
    }
}

} // verus!
