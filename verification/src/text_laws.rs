//! What the functions on texts do, told by what they give on texts put together from parts.

use vstd::prelude::*;

use crate::text;

verus! {

/// Whether a text has no white space at either end.
pub open spec fn has_solid_ends(s: Seq<char>) -> bool {
    s.len() > 0 ==> !text::is_white_space(s[0]) && !text::is_white_space(s.last())
}

/// White space put around a text with solid ends, and nothing else, is what trimming takes away.
pub proof fn law_trimming_takes_the_white_space_around(l: Seq<char>, s: Seq<char>, r: Seq<char>)
    requires
        text::all_white_space(l),
        text::all_white_space(r),
        has_solid_ends(s),
    ensures
        text::trimmed(l + s + r) == s,
{
    text::lemma_trimmed_padding(l, s, r);
}

/// Every text is a trimmed one with white space around it.
pub proof fn law_trimming_loses_only_white_space(s: Seq<char>)
    ensures
        has_solid_ends(text::trimmed(s)),
        exists|l: Seq<char>, r: Seq<char>|
            #[trigger] text::all_white_space(l) && #[trigger] text::all_white_space(r) && s == l
                + text::trimmed(s) + r,
{
    text::lemma_trimmed_ends(s);
    let n = text::lemma_trim_front_splits(s);
    let mid = s.skip(n);
    let m = text::lemma_trim_back_splits(mid);
    assert(text::all_white_space(s.take(n)) && text::all_white_space(mid.skip(m)));
    assert(s =~= s.take(n) + text::trimmed(s) + mid.skip(m));
}

/// Texts without the separator that are put together with it are its pieces again.
pub proof fn law_pieces_undo_joining(parts: Seq<Seq<char>>, c: char)
    requires
        parts.len() > 0,
        forall|i: int| 0 <= i < parts.len() ==> !(#[trigger] parts[i]).contains(c),
    ensures
        text::pieces(text::joined(parts, seq![c]), c) == parts,
    decreases parts.len(),
{
    let first = parts[0];
    assert forall|i: int| 0 <= i < first.len() implies first[i] != c by {
        assert(first.contains(first[i]));
    }
    if parts.len() == 1 {
        text::lemma_first_position_is(first, c, first.len() as int);
        assert(parts =~= seq![first]);
    } else {
        let rest = parts.drop_first();
        assert forall|i: int| 0 <= i < rest.len() implies !(#[trigger] rest[i]).contains(c) by {
            assert(rest[i] == parts[i + 1]);
        }
        law_joining_goes_part_by_part(seq![first], rest, seq![c]);
        assert(seq![first] + rest =~= parts);
        let all = text::joined(parts, seq![c]);
        let tail = text::joined(rest, seq![c]);
        assert(text::joined(seq![first], seq![c]) == first);
        assert(all =~= first + seq![c] + tail);
        assert(all[first.len() as int] == c);
        assert forall|i: int| 0 <= i < first.len() implies all[i] != c by {
            assert(all[i] == first[i]);
        }
        text::lemma_first_position_is(all, c, first.len() as int);
        assert(all.take(first.len() as int) =~= first);
        assert(all.skip(first.len() as int + 1) =~= tail);
        law_pieces_undo_joining(rest, c);
        assert(text::pieces(all, c) =~= parts);
    }
}

/// Two lists put together one behind the other are put together with the separator between.
pub proof fn law_joining_goes_part_by_part(
    front: Seq<Seq<char>>,
    back: Seq<Seq<char>>,
    sep: Seq<char>,
)
    requires
        front.len() > 0,
        back.len() > 0,
    ensures
        text::joined(front + back, sep) == text::joined(front, sep) + sep + text::joined(back, sep),
        front.len() == 1 ==> text::joined(front, sep) == front[0],
    decreases back.len(),
{
    let all = front + back;
    assert(all.last() == back.last());
    assert(all.drop_last() =~= front + back.drop_last());
    if back.len() == 1 {
        assert(all.drop_last() =~= front);
    } else {
        law_joining_goes_part_by_part(front, back.drop_last(), sep);
        assert(text::joined(all, sep) =~= text::joined(front, sep) + sep + text::joined(back, sep));
    }
}

/// The pieces of any text hold no separator, and put together they are the text again.
pub proof fn law_pieces_make_up_the_text(s: Seq<char>, c: char)
    ensures
        text::pieces(s, c).len() > 0,
        forall|i: int|
            0 <= i < text::pieces(s, c).len() ==> !(#[trigger] text::pieces(s, c)[i]).contains(c),
        text::joined(text::pieces(s, c), seq![c]) == s,
    decreases s.len(),
{
    text::lemma_first_position(s, c);
    let at = text::first_position(s, c) as int;
    let all = text::pieces(s, c);
    if at < s.len() {
        let head = s.take(at);
        let rest = s.skip(at + 1);
        law_pieces_make_up_the_text(rest, c);
        let tail = text::pieces(rest, c);
        law_joining_goes_part_by_part(seq![head], tail, seq![c]);
        assert(s =~= head + seq![c] + rest);
        assert forall|i: int| 0 <= i < all.len() implies !(#[trigger] all[i]).contains(c) by {
            if i > 0 {
                assert(all[i] == tail[i - 1]);
            }
        }
    }
}

/// A text is cut at the first separator, and one without a separator is not cut.
pub proof fn law_cuts_are_at_the_first(a: Seq<char>, c: char, b: Seq<char>)
    requires
        !a.contains(c),
    ensures
        text::cut_once(a + seq![c] + b, c) == Some((a, b)),
        text::cut_once(a, c) is None,
{
    let all = a + seq![c] + b;
    assert forall|i: int| 0 <= i < a.len() implies a[i] != c && all[i] != c by {
        assert(a.contains(a[i]));
        assert(all[i] == a[i]);
    }
    assert(all[a.len() as int] == c);
    text::lemma_first_position_is(all, c, a.len() as int);
    text::lemma_first_position_is(a, c, a.len() as int);
    assert(all.take(a.len() as int) =~= a);
    assert(all.skip(a.len() as int + 1) =~= b);
}

/// What follows a prefix is what was put behind it, and a text that has something behind a
/// prefix is made of the two.
pub proof fn law_prefixes_are_taken_off(prefix: Seq<char>, rest: Seq<char>, s: Seq<char>)
    ensures
        text::suffix_after(prefix + rest, prefix) == Some(rest),
        text::suffix_after(s, prefix) matches Some(t) ==> s == prefix + t,
{
    assert((prefix + rest).subrange(0, prefix.len() as int) =~= prefix);
    assert((prefix + rest).skip(prefix.len() as int) =~= rest);
    if prefix.is_prefix_of(s) {
        assert(s =~= s.subrange(0, prefix.len() as int) + s.skip(prefix.len() as int));
    }
}

/// Every character of a text is the given one.
pub open spec fn is_run(s: Seq<char>, c: char) -> bool {
    forall|i: int| 0 <= i < s.len() ==> #[trigger] s[i] == c
}

/// A run of one character behind a text that does not end with it is dropped, and so is one in
/// front of a text that does not start with it.
pub proof fn law_runs_are_dropped(s: Seq<char>, run: Seq<char>, c: char)
    requires
        is_run(run, c),
    ensures
        (s.len() > 0 ==> s.last() != c) ==> text::drop_trailing(s + run, c) == s,
        (s.len() > 0 ==> s[0] != c) ==> text::drop_leading(run + s, c) == s,
    decreases run.len(),
{
    if run.len() == 0 {
        assert(s + run =~= s);
        assert(run + s =~= s);
    } else {
        let front = run.drop_last();
        let back = run.drop_first();
        assert((s + run).last() == run[run.len() - 1]);
        assert((s + run).drop_last() =~= s + front);
        assert((run + s)[0] == run[0]);
        assert((run + s).drop_first() =~= back + s);
        assert forall|i: int| 0 <= i < front.len() implies #[trigger] front[i] == c by {
            assert(front[i] == run[i]);
        }
        assert forall|i: int| 0 <= i < back.len() implies #[trigger] back[i] == c by {
            assert(back[i] == run[i + 1]);
        }
        law_runs_are_dropped(s, front, c);
        law_runs_are_dropped(s, back, c);
    }
}

/// Removing white space goes character by character: white space goes, all else stays.
pub proof fn law_white_space_is_removed_everywhere(a: Seq<char>, b: Seq<char>, c: char)
    ensures
        text::without_white_space(a + b) == text::without_white_space(a)
            + text::without_white_space(b),
        text::without_white_space(seq![c]) == if text::is_white_space(c) {
            Seq::<char>::empty()
        } else {
            seq![c]
        },
{
    let keep = |c: char| !text::is_white_space(c);
    Seq::filter_distributes_over_add(a, b, keep);
    reveal(Seq::filter);
    assert(seq![c].drop_last() =~= Seq::<char>::empty());
    assert(seq![c].drop_last().filter(keep) =~= Seq::<char>::empty());
    assert(text::without_white_space(seq![c]) =~= if text::is_white_space(c) {
        Seq::<char>::empty()
    } else {
        seq![c]
    });
}

/// Lower case changes the letters from A to Z, each to its own small letter, and nothing else.
pub proof fn law_lower_case_is_for_ascii_letters(s: Seq<char>, i: int)
    requires
        0 <= i < s.len(),
    ensures
        text::lowered(s).len() == s.len(),
        'A' as u32 <= s[i] as u32 <= 'Z' as u32 ==> text::lowered(s)[i] as u32 == s[i] as u32
            + 0x20,
        (s[i] as u32) < 'A' as u32 || s[i] as u32 > 'Z' as u32 ==> text::lowered(s)[i] == s[i],
{
}

/// Digits are the ten from 0 to 9, and hexadecimal digits those and the six letters from a to f.
pub proof fn law_digits(c: char)
    ensures
        text::is_digit(c) <==> '0' <= c <= '9',
        text::is_lower_hex(c) <==> ('0' <= c <= '9' || 'a' <= c <= 'f'),
{
}

/// A text is all digits where every character is one, however long it is.
pub proof fn law_all_digits_is_about_every_character(a: Seq<char>, b: Seq<char>, c: char)
    ensures
        text::all_digits(a + b) <==> text::all_digits(a) && text::all_digits(b),
        text::all_digits(seq![c]) <==> '0' <= c <= '9',
        text::all_lower_hex(a + b) <==> text::all_lower_hex(a) && text::all_lower_hex(b),
        text::all_lower_hex(seq![c]) <==> ('0' <= c <= '9' || 'a' <= c <= 'f'),
        text::has_control(a + b) <==> text::has_control(a) || text::has_control(b),
        text::has_control(seq![c]) <==> text::is_control_char(c),
        text::has_white_space(a + b) <==> text::has_white_space(a) || text::has_white_space(b),
        text::has_white_space(seq![c]) <==> text::is_white_space(c),
{
    let all = a + b;
    assert forall|i: int| 0 <= i < a.len() implies all[i] == a[i] by {}
    assert forall|i: int| 0 <= i < b.len() implies all[a.len() + i] == b[i] by {}
    assert forall|i: int| 0 <= i < all.len() implies (#[trigger] all[i] == if i < a.len() {
        a[i]
    } else {
        b[i - a.len()]
    }) by {}
    if text::all_digits(all) {
        assert forall|i: int| 0 <= i < a.len() implies text::is_digit(#[trigger] a[i]) by {
            assert(text::is_digit(all[i]));
        }
        assert forall|i: int| 0 <= i < b.len() implies text::is_digit(#[trigger] b[i]) by {
            assert(text::is_digit(all[a.len() + i]));
        }
    }
    if text::all_lower_hex(all) {
        assert forall|i: int| 0 <= i < a.len() implies text::is_lower_hex(#[trigger] a[i]) by {
            assert(text::is_lower_hex(all[i]));
        }
        assert forall|i: int| 0 <= i < b.len() implies text::is_lower_hex(#[trigger] b[i]) by {
            assert(text::is_lower_hex(all[a.len() + i]));
        }
    }
    if text::has_control(a) {
        let i = choose|i: int| 0 <= i < a.len() && text::is_control_char(#[trigger] a[i]);
        assert(text::is_control_char(all[i]));
    }
    if text::has_control(b) {
        let i = choose|i: int| 0 <= i < b.len() && text::is_control_char(#[trigger] b[i]);
        assert(text::is_control_char(all[a.len() + i]));
    }
    if text::has_white_space(a) {
        let i = choose|i: int| 0 <= i < a.len() && text::is_white_space(#[trigger] a[i]);
        assert(text::is_white_space(all[i]));
    }
    if text::has_white_space(b) {
        let i = choose|i: int| 0 <= i < b.len() && text::is_white_space(#[trigger] b[i]);
        assert(text::is_white_space(all[a.len() + i]));
    }
    assert(seq![c][0] == c);
}

/// A control character is one before the space, or one from the delete character to the end of
/// the second block of controls.
pub proof fn law_control_characters(c: char, s: Seq<char>)
    ensures
        text::is_control_char(c) <==> (c as u32) < ' ' as u32 || 0x7f <= c as u32 <= 0x9f,
        text::has_control(s) <==> exists|i: int|
            0 <= i < s.len() && text::is_control_char(#[trigger] s[i]),
{
}

/// The characters that are white space: the controls from the tab to the carriage return, the
/// next line, and the seventeen spaces and two separators of Unicode.
pub proof fn law_white_space_characters(c: char, s: Seq<char>)
    ensures
        text::is_white_space(c) <==> {
            let u = c as u32;
            ||| u == 0x9
            ||| u == 0xa
            ||| u == 0xb
            ||| u == 0xc
            ||| u == 0xd
            ||| u == 0x20
            ||| u == 0x85
            ||| u == 0xa0
            ||| u == 0x1680
            ||| u == 0x2000
            ||| u == 0x2001
            ||| u == 0x2002
            ||| u == 0x2003
            ||| u == 0x2004
            ||| u == 0x2005
            ||| u == 0x2006
            ||| u == 0x2007
            ||| u == 0x2008
            ||| u == 0x2009
            ||| u == 0x200a
            ||| u == 0x2028
            ||| u == 0x2029
            ||| u == 0x202f
            ||| u == 0x205f
            ||| u == 0x3000
        },
        text::has_white_space(s) <==> exists|i: int|
            0 <= i < s.len() && text::is_white_space(#[trigger] s[i]),
        text::all_white_space(s) <==> forall|i: int|
            0 <= i < s.len() ==> text::is_white_space(#[trigger] s[i]),
{
}

} // verus!
