//! What the string operations do, by how their results relate.

use vstd::prelude::*;

use crate::text::{
    decimal, digit_char, digits_value, is_blank, is_digit, is_white_space, joined,
    law_split_is_undone_by_joining, law_trailing_run_is_gone, number_in, split_on, trimmed,
    without_leading_space, without_plus, without_trailing, without_trailing_space,
};

verus! {

/// The characters that count as white space, one by one.
pub open spec fn white_space_characters() -> Seq<char> {
    seq![
        '\t', '\n', '\u{b}', '\u{c}', '\r', ' ', '\u{85}', '\u{a0}', '\u{1680}', '\u{2000}',
        '\u{2001}', '\u{2002}', '\u{2003}', '\u{2004}', '\u{2005}', '\u{2006}', '\u{2007}',
        '\u{2008}', '\u{2009}', '\u{200a}', '\u{2028}', '\u{2029}', '\u{202f}', '\u{205f}',
        '\u{3000}',
    ]
}

/// A character is white space if and only if it is one of the twenty-five of Unicode.
pub proof fn law_white_space_is_that_of_unicode(c: char)
    ensures
        is_white_space(c) <==> white_space_characters().contains(c),
{
    let all = white_space_characters();
    let n = c as u32;
    if is_white_space(c) {
        let i: int = if 0x9 <= n <= 0xD {
            n - 0x9
        } else if n == 0x20 {
            5
        } else if n == 0x85 {
            6
        } else if n == 0xA0 {
            7
        } else if n == 0x1680 {
            8
        } else if 0x2000 <= n <= 0x200A {
            n - 0x2000 + 9
        } else if n == 0x2028 {
            20
        } else if n == 0x2029 {
            21
        } else if n == 0x202F {
            22
        } else if n == 0x205F {
            23
        } else {
            24
        };
        assert(all[i] == c);
    }
}

/// A text is blank if and only if it holds no character that is not white space.
pub proof fn law_blank_text_holds_white_space_only(s: Seq<char>)
    ensures
        is_blank(s) <==> !(exists|i: int| 0 <= i < s.len() && !is_white_space(#[trigger] s[i])),
{
}

/// Trimming takes white space away at the ends, all of it, and nothing else.
pub proof fn law_trimming_cuts_white_space_at_the_ends(s: Seq<char>)
    ensures
        exists|lead: Seq<char>, trail: Seq<char>|
            #![trigger lead + trimmed(s) + trail]
            s == lead + trimmed(s) + trail && (forall|i: int|
                0 <= i < lead.len() ==> is_white_space(#[trigger] lead[i])) && (forall|i: int|
                0 <= i < trail.len() ==> is_white_space(#[trigger] trail[i])),
        trimmed(s).len() > 0 ==> !is_white_space(trimmed(s)[0]) && !is_white_space(
            trimmed(s)[trimmed(s).len() - 1],
        ),
{
    crate::text::law_trimmed_text_has_no_outer_space(s);
    let led = without_leading_space(s);
    let lead = lemma_lead(s);
    let trail = lemma_trail(led);
    assert(s =~= lead + trimmed(s) + trail);
}

proof fn lemma_lead(s: Seq<char>) -> (lead: Seq<char>)
    ensures
        s == lead + without_leading_space(s),
        forall|i: int| 0 <= i < lead.len() ==> is_white_space(#[trigger] lead[i]),
    decreases s.len(),
{
    if s.len() > 0 && is_white_space(s[0]) {
        let rest = lemma_lead(s.drop_first());
        let lead = seq![s[0]] + rest;
        assert(s =~= lead + without_leading_space(s)) by {
            assert(s =~= seq![s[0]] + s.drop_first());
        }
        lead
    } else {
        assert(s =~= Seq::<char>::empty() + s);
        Seq::empty()
    }
}

proof fn lemma_trail(s: Seq<char>) -> (trail: Seq<char>)
    ensures
        s == without_trailing_space(s) + trail,
        forall|i: int| 0 <= i < trail.len() ==> is_white_space(#[trigger] trail[i]),
    decreases s.len(),
{
    if s.len() > 0 && is_white_space(s.last()) {
        let rest = lemma_trail(s.drop_last());
        let trail = rest.push(s.last());
        assert(s =~= without_trailing_space(s) + trail) by {
            assert(s =~= s.drop_last().push(s.last()));
        }
        trail
    } else {
        assert(s =~= s + Seq::<char>::empty());
        Seq::empty()
    }
}

/// Taking a trailing run of a character away leaves a front of the text, behind which only that
/// character stands and which does not end with it.
pub proof fn law_trailing_run_is_all_that_goes(s: Seq<char>, c: char)
    ensures
        without_trailing(s, c).is_prefix_of(s),
        forall|i: int| without_trailing(s, c).len() <= i < s.len() ==> #[trigger] s[i] == c,
        without_trailing(s, c).len() > 0 ==> without_trailing(s, c)[without_trailing(s, c).len()
            - 1] != c,
    decreases s.len(),
{
    law_trailing_run_is_gone(s, c);
    if s.len() > 0 && s.last() == c {
        let front = s.drop_last();
        law_trailing_run_is_all_that_goes(front, c);
        assert forall|i: int| without_trailing(s, c).len() <= i < s.len() implies #[trigger] s[i]
            == c by {
            if i < front.len() {
                assert(front[i] == s[i]);
            }
        }
    }
}

/// Joining one piece gives the piece, joining none gives nothing, and two lists of pieces are
/// joined by joining each and putting the separator between.
pub proof fn law_joining_goes_piece_by_piece(
    a: Seq<Seq<char>>,
    b: Seq<Seq<char>>,
    piece: Seq<char>,
    sep: Seq<char>,
)
    requires
        a.len() > 0,
        b.len() > 0,
    ensures
        joined(Seq::empty(), sep) == Seq::<char>::empty(),
        joined(seq![piece], sep) == piece,
        joined(a + b, sep) == joined(a, sep) + sep + joined(b, sep),
    decreases b.len(),
{
    let last = b.last();
    assert((a + b).last() == last);
    if b.len() == 1 {
        assert((a + b).drop_last() =~= a);
    } else {
        let front = b.drop_last();
        law_joining_goes_piece_by_piece(a, front, piece, sep);
        assert((a + b).drop_last() =~= a + front);
        assert(joined(a + b, sep) =~= joined(a, sep) + sep + joined(b, sep));
    }
}

/// A text without the separator is one piece, and a text with a separator in it is split into the
/// pieces of what stands before and of what stands behind.
pub proof fn law_splitting_goes_separator_by_separator(a: Seq<char>, b: Seq<char>, sep: char)
    ensures
        !a.contains(sep) ==> split_on(a, sep) == seq![a],
        split_on(a + seq![sep] + b, sep) == split_on(a, sep) + split_on(b, sep),
    decreases b.len(),
{
    if !a.contains(sep) {
        crate::laws::lemma_split_goes_on(Seq::empty(), a, sep);
        assert(Seq::<char>::empty() + a =~= a);
        assert(split_on(Seq::<char>::empty(), sep) =~= seq![Seq::<char>::empty()]);
        assert(split_on(a, sep) =~= seq![a]);
    }
    let whole = a + seq![sep] + b;
    if b.len() == 0 {
        assert(whole.drop_last() =~= a);
        assert(b =~= Seq::<char>::empty());
        assert(split_on(b, sep) =~= seq![Seq::<char>::empty()]);
        assert(split_on(whole, sep) =~= split_on(a, sep) + split_on(b, sep));
    } else {
        let front = b.drop_last();
        law_splitting_goes_separator_by_separator(a, front, sep);
        law_split_is_undone_by_joining(front, sep);
        assert(whole.drop_last() =~= a + seq![sep] + front);
        let x = split_on(a, sep);
        let y = split_on(front, sep);
        assert((x + y).drop_last() =~= x + y.drop_last());
        assert((x + y).last() == y.last());
        assert(split_on(whole, sep) =~= x + split_on(b, sep));
    }
}

/// A text of one character writes a number if and only if it is a digit, with or without a plus
/// sign before it; nothing, and a plus sign alone, write none.
pub proof fn law_number_of_one_digit(c: char)
    ensures
        number_in(Seq::empty()) == None::<u64>,
        number_in(seq!['+']) == None::<u64>,
        0x30 <= c as u32 <= 0x39 ==> number_in(seq![c]) == Some((c as u32 - 0x30) as u64)
            && number_in(seq!['+', c]) == Some((c as u32 - 0x30) as u64),
        !(0x30 <= c as u32 <= 0x39) ==> number_in(seq![c]) == None::<u64> && number_in(
            seq!['+', c],
        ) == None::<u64>,
{
    let one = seq![c];
    assert('+' as u32 == 0x2B);
    assert(one.drop_last() =~= Seq::<char>::empty());
    assert(digits_value(Seq::<char>::empty()) == 0);
    assert(digits_value(one) == digits_value(one.drop_last()) * 10 + (c as u32 - 0x30) as nat);
    assert(seq!['+'].drop_first() =~= Seq::<char>::empty());
    assert(seq!['+', c].drop_first() =~= one);
    if !is_digit(c) {
        assert(!is_digit(one[0]));
        if c == '+' {
            assert(one.drop_first() =~= Seq::<char>::empty());
        }
    } else {
        assert forall|i: int| 0 <= i < one.len() implies is_digit(#[trigger] one[i]) by {}
    }
}

/// A further character makes ten times the number and the digit's value more; where it is no
/// digit, where there was no number before, or where the sum does not fit, there is none.
pub proof fn law_number_grows_digit_by_digit(s: Seq<char>, c: char)
    requires
        s.len() > 0,
        s != seq!['+'],
    ensures
        (0x30 <= c as u32 <= 0x39 && number_in(s) is Some && number_in(s)->0 * 10 + (c as u32
            - 0x30) <= u64::MAX) ==> number_in(s.push(c)) == Some(
            (number_in(s)->0 * 10 + (c as u32 - 0x30)) as u64,
        ),
        !(0x30 <= c as u32 <= 0x39 && number_in(s) is Some && number_in(s)->0 * 10 + (c as u32
            - 0x30) <= u64::MAX) ==> number_in(s.push(c)) == None::<u64>,
{
    let before = without_plus(s);
    let after = without_plus(s.push(c));
    assert(s.push(c)[0] == s[0]);
    assert(after =~= before.push(c)) by {
        if s[0] == '+' {
            assert(s.push(c).drop_first() =~= s.drop_first().push(c));
        }
    }
    if before.len() == 0 {
        assert(s =~= seq!['+']);
    }
    assert(after.drop_last() =~= before);
    assert(after[after.len() - 1] == c);
    if forall|i: int| 0 <= i < after.len() ==> is_digit(#[trigger] after[i]) {
        assert forall|i: int| 0 <= i < before.len() implies is_digit(#[trigger] before[i]) by {
            assert(after[i] == before[i]);
        }
        assert(is_digit(after[after.len() - 1]));
    }
    if is_digit(c) && (forall|i: int| 0 <= i < before.len() ==> is_digit(#[trigger] before[i])) {
        assert forall|i: int| 0 <= i < after.len() implies is_digit(#[trigger] after[i]) by {
            if i < before.len() {
                assert(after[i] == before[i]);
            }
        }
    }
}

/// A number in decimal is the shortest text of digits that writes it: it reads back as the number
/// and starts with a zero only where that is all of it.
pub proof fn law_decimal_is_the_shortest_text(n: u64)
    ensures
        number_in(decimal(n as nat)) == Some(n),
        forall|i: int|
            0 <= i < decimal(n as nat).len() ==> 0x30 <= (#[trigger] decimal(n as nat)[i]) as u32
                <= 0x39,
        decimal(n as nat)[0] == '0' ==> decimal(n as nat) == seq!['0'],
{
    let s = decimal(n as nat);
    crate::laws::lemma_decimal_is_digits(n as nat);
    crate::laws::law_count_reads_the_same_as_text(n);
    assert forall|i: int| 0 <= i < s.len() implies 0x30 <= (#[trigger] s[i]) as u32 <= 0x39 by {
        assert(is_digit(s[i]));
    }
    lemma_decimal_starts(n as nat);
    assert('0' as u32 == 0x30);
}

proof fn lemma_decimal_starts(n: nat)
    ensures
        decimal(n).len() > 0,
        n > 0 ==> decimal(n)[0] as u32 != 0x30,
        n == 0 ==> decimal(n) == seq!['0'],
    decreases n,
{
    if n < 10 {
        assert(digit_char(n) as u32 == 0x30 + n);
        if n == 0 {
            assert('0' as u32 == 0x30);
            assert(digit_char(0) == '0');
            assert(decimal(0) =~= seq!['0']);
        }
    } else {
        lemma_decimal_starts(n / 10);
        assert(decimal(n)[0] == decimal(n / 10)[0]);
    }
}

}
