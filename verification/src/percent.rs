//! Percent-encoding of the values that go into a URL.

use vstd::prelude::*;
use vstd::utf8::{
    decode_utf8, encode_scalar, encode_utf8, encode_utf8_decode_utf8, is_scalar,
};

verus! {

/// A byte that stands for itself in a URL component: a letter, a digit, `-`, `.`, `_` or `~`.
pub open spec fn is_unreserved(b: u8) -> bool {
    ||| 0x30 <= b <= 0x39
    ||| 0x41 <= b <= 0x5A
    ||| 0x61 <= b <= 0x7A
    ||| b == 0x2D
    ||| b == 0x2E
    ||| b == 0x5F
    ||| b == 0x7E
}

/// The upper-case hexadecimal digit of `n`.
pub open spec fn hex_digit(n: int) -> char {
    if n < 10 {
        (0x30 + n) as char
    } else {
        (0x41 + n - 10) as char
    }
}

/// A byte as it stands in a URL component: itself, or `%` and its two hexadecimal digits.
pub open spec fn encoded_byte(b: u8) -> Seq<char> {
    if is_unreserved(b) {
        seq![b as char]
    } else {
        seq!['%', hex_digit(b as int / 16), hex_digit(b as int % 16)]
    }
}

/// The bytes one after the other, each as it stands in a URL component.
pub open spec fn encoded_bytes(bytes: Seq<u8>) -> Seq<char>
    decreases bytes.len(),
{
    if bytes.len() == 0 {
        Seq::empty()
    } else {
        encoded_byte(bytes[0]) + encoded_bytes(bytes.drop_first())
    }
}

/// The percent-encoding of a text: that of the bytes of its UTF-8 form.
pub open spec fn percent_encoded(s: Seq<char>) -> Seq<char> {
    encoded_bytes(encode_utf8(s))
}

/// Calls `urlencoding::encode`, which keeps letters, digits, `-`, `_`, `.` and `~`, and writes
/// every other byte of the UTF-8 form as `%` with two upper-case hexadecimal digits.
#[verifier::external_body]
pub(crate) fn encode(value: &str) -> (r: String)
    ensures
        r@ == percent_encoded(value@),
{
    urlencoding::encode(value).into_owned()
}

/// A character that can occur in an encoded text.
pub open spec fn is_inert(c: char) -> bool {
    c == '%' || (c as u32 <= 0x7F && is_unreserved(c as u8))
}

proof fn lemma_encoded_byte_is_inert(b: u8)
    ensures
        encoded_byte(b).len() > 0,
        forall|i: int| 0 <= i < encoded_byte(b).len() ==> is_inert(#[trigger] encoded_byte(b)[i]),
{
    let hi = hex_digit(b as int / 16);
    let lo = hex_digit(b as int % 16);
    assert(0 <= b as int / 16 < 16);
    assert(0 <= b as int % 16 < 16);
    assert(is_inert(hi) && is_inert(lo));
    if is_unreserved(b) {
        assert((b as char) as u8 == b);
    }
}

proof fn lemma_encoded_bytes_are_inert(bytes: Seq<u8>)
    ensures
        forall|i: int|
            0 <= i < encoded_bytes(bytes).len() ==> is_inert(#[trigger] encoded_bytes(bytes)[i]),
    decreases bytes.len(),
{
    if bytes.len() > 0 {
        let head = encoded_byte(bytes[0]);
        let tail = encoded_bytes(bytes.drop_first());
        lemma_encoded_byte_is_inert(bytes[0]);
        lemma_encoded_bytes_are_inert(bytes.drop_first());
        assert forall|i: int| 0 <= i < encoded_bytes(bytes).len() implies is_inert(
            #[trigger] encoded_bytes(bytes)[i],
        ) by {
            if i < head.len() {
                assert(encoded_bytes(bytes)[i] == head[i]);
            } else {
                assert(encoded_bytes(bytes)[i] == tail[i - head.len()]);
            }
        }
    }
}

/// An encoded text holds unreserved characters and `%` only, so none that has a meaning of its
/// own in a path or a query: no `/`, `?`, `#`, `&`, `=` or space.
pub proof fn law_encoded_text_is_inert(s: Seq<char>)
    ensures
        forall|i: int|
            0 <= i < percent_encoded(s).len() ==> is_inert(#[trigger] percent_encoded(s)[i]),
        !percent_encoded(s).contains('/'),
        !percent_encoded(s).contains('?'),
        !percent_encoded(s).contains('#'),
        !percent_encoded(s).contains('&'),
        !percent_encoded(s).contains('='),
        !percent_encoded(s).contains(' '),
{
    lemma_encoded_bytes_are_inert(encode_utf8(s));
}

proof fn lemma_hex_digit_injective(m: int, n: int)
    requires
        0 <= m < 16,
        0 <= n < 16,
        hex_digit(m) == hex_digit(n),
    ensures
        m == n,
{
    assert(hex_digit(m) as u32 == (if m < 10 { 0x30 + m } else { 0x41 + m - 10 }));
    assert(hex_digit(n) as u32 == (if n < 10 { 0x30 + n } else { 0x41 + n - 10 }));
}

/// Two codes of which one starts the other, or both start the same text, are codes of one byte.
proof fn lemma_first_byte_decides(a: u8, x: Seq<char>, b: u8, y: Seq<char>)
    requires
        encoded_byte(a) + x == encoded_byte(b) + y,
    ensures
        a == b,
        x == y,
{
    let ca = encoded_byte(a);
    let cb = encoded_byte(b);
    assert((ca + x)[0] == ca[0]);
    assert((cb + y)[0] == cb[0]);
    if is_unreserved(a) {
        assert(ca[0] as u8 == a);
        assert('%' as u8 == 0x25);
    }
    if is_unreserved(b) {
        assert(cb[0] as u8 == b);
        assert('%' as u8 == 0x25);
    }
    if !is_unreserved(a) && !is_unreserved(b) {
        assert((ca + x)[1] == ca[1] && (ca + x)[2] == ca[2]);
        assert((cb + y)[1] == cb[1] && (cb + y)[2] == cb[2]);
        lemma_hex_digit_injective(a as int / 16, b as int / 16);
        lemma_hex_digit_injective(a as int % 16, b as int % 16);
    }
    assert(a == b);
    assert(x =~= (ca + x).skip(ca.len() as int));
    assert(y =~= (cb + y).skip(cb.len() as int));
}

proof fn lemma_encoded_bytes_injective(a: Seq<u8>, b: Seq<u8>)
    requires
        encoded_bytes(a) == encoded_bytes(b),
    ensures
        a == b,
    decreases a.len(),
{
    if a.len() > 0 {
        lemma_encoded_byte_is_inert(a[0]);
        assert(encoded_bytes(a).len() > 0);
    }
    if b.len() > 0 {
        lemma_encoded_byte_is_inert(b[0]);
        assert(encoded_bytes(b).len() > 0);
    }
    if a.len() > 0 && b.len() > 0 {
        lemma_first_byte_decides(
            a[0],
            encoded_bytes(a.drop_first()),
            b[0],
            encoded_bytes(b.drop_first()),
        );
        lemma_encoded_bytes_injective(a.drop_first(), b.drop_first());
        assert(a =~= seq![a[0]] + a.drop_first());
        assert(b =~= seq![b[0]] + b.drop_first());
    } else {
        assert(a =~= b);
    }
}

/// Different texts have different encodings.
pub proof fn law_encoding_is_injective(a: Seq<char>, b: Seq<char>)
    requires
        percent_encoded(a) == percent_encoded(b),
    ensures
        a == b,
{
    lemma_encoded_bytes_injective(encode_utf8(a), encode_utf8(b));
    encode_utf8_decode_utf8(a);
    encode_utf8_decode_utf8(b);
    assert(decode_utf8(encode_utf8(a)) == decode_utf8(encode_utf8(b)));
}

proof fn lemma_encoded_bytes_of_both(a: Seq<u8>, b: Seq<u8>)
    ensures
        encoded_bytes(a + b) == encoded_bytes(a) + encoded_bytes(b),
    decreases a.len(),
{
    if a.len() == 0 {
        assert(a + b =~= b);
        assert(encoded_bytes(a) + encoded_bytes(b) =~= encoded_bytes(b));
    } else {
        lemma_encoded_bytes_of_both(a.drop_first(), b);
        assert((a + b).drop_first() =~= a.drop_first() + b);
        assert((a + b)[0] == a[0]);
        assert(encoded_bytes(a + b) =~= encoded_bytes(a) + encoded_bytes(b));
    }
}

proof fn lemma_utf8_of_both(a: Seq<char>, b: Seq<char>)
    ensures
        encode_utf8(a + b) == encode_utf8(a) + encode_utf8(b),
    decreases a.len(),
{
    if a.len() == 0 {
        assert(a + b =~= b);
        assert(encode_utf8(a) + encode_utf8(b) =~= encode_utf8(b));
    } else {
        lemma_utf8_of_both(a.drop_first(), b);
        assert((a + b).drop_first() =~= a.drop_first() + b);
        assert((a + b)[0] == a[0]);
        assert(encode_utf8(a + b) =~= encode_utf8(a) + encode_utf8(b));
    }
}

/// Encoding goes character by character: of two texts in a row, the encodings stand in a row, and
/// of nothing there is none.
pub proof fn law_encoding_goes_piece_by_piece(a: Seq<char>, b: Seq<char>)
    ensures
        percent_encoded(Seq::empty()) == Seq::<char>::empty(),
        percent_encoded(a + b) == percent_encoded(a) + percent_encoded(b),
{
    lemma_utf8_of_both(a, b);
    lemma_encoded_bytes_of_both(encode_utf8(a), encode_utf8(b));
}

/// The number that an upper-case hexadecimal digit stands for.
pub open spec fn hex_value(c: char) -> int {
    if 0x30 <= c as u32 <= 0x39 {
        c as u32 - 0x30
    } else if 0x41 <= c as u32 <= 0x46 {
        c as u32 - 0x41 + 10
    } else {
        -1
    }
}

/// A byte stands at a place of a text as `%` and its two hexadecimal digits.
pub open spec fn stands_in_hex(s: Seq<char>, at: int, b: u8) -> bool {
    &&& s[at] == '%'
    &&& 0 <= hex_value(s[at + 1])
    &&& 0 <= hex_value(s[at + 2])
    &&& hex_value(s[at + 1]) * 16 + hex_value(s[at + 2]) == b
}

/// A letter, a digit, `-`, `.`, `_` and `~` stand for themselves; of every other character, each
/// byte of its UTF-8 form stands as `%` and the two hexadecimal digits of its value.
pub proof fn law_encoding_of_a_character(c: char)
    ensures
        ({
            let n = c as u32;
            let code = percent_encoded(seq![c]);
            let bytes = encode_utf8(seq![c]);
            let plain = 0x30 <= n <= 0x39 || 0x41 <= n <= 0x5A || 0x61 <= n <= 0x7A || c == '-' || c
                == '.' || c == '_' || c == '~';
            &&& plain ==> code == seq![c]
            &&& !plain ==> code.len() == 3 * bytes.len()
            &&& !plain ==> forall|i: int|
                0 <= i < bytes.len() ==> stands_in_hex(code, 3 * i, #[trigger] bytes[i])
        }),
{
    let n = c as u32;
    let s = seq![c];
    let bytes = encode_utf8(s);
    assert('-' as u32 == 0x2D && '.' as u32 == 0x2E && '_' as u32 == 0x5F && '~' as u32 == 0x7E);
    assert(s.drop_first() =~= Seq::<char>::empty());
    assert(encode_utf8(s.drop_first()) =~= Seq::<u8>::empty());
    assert(bytes =~= encode_scalar(n));
    let plain = 0x30 <= n <= 0x39 || 0x41 <= n <= 0x5A || 0x61 <= n <= 0x7A || c == '-' || c == '.'
        || c == '_' || c == '~';
    lemma_lone_bytes(n);
    if n <= 0x7F {
        assert(bytes =~= seq![n as u8]);
        assert(bytes.drop_first() =~= Seq::<u8>::empty());
        assert(encoded_bytes(bytes.drop_first()) =~= Seq::<char>::empty());
        assert(encoded_bytes(bytes) =~= encoded_byte(n as u8));
        if plain {
            assert((n as u8) as char == c);
        }
    }
    if !plain {
        assert forall|i: int| 0 <= i < bytes.len() implies !is_unreserved(#[trigger] bytes[i]) by {}
        lemma_reserved_bytes(bytes);
    }
}

/// A character of the ASCII range is one byte of its own number; of any other, every byte lies
/// beyond that range.
proof fn lemma_lone_bytes(n: u32)
    requires
        is_scalar(n),
    ensures
        n <= 0x7F ==> encode_scalar(n) == seq![n as u8],
        n > 0x7F ==> forall|i: int|
            0 <= i < encode_scalar(n).len() ==> (#[trigger] encode_scalar(n)[i]) > 0x7F,
{
    assert(n <= 0x7F ==> (n & 0x7F) as u8 == n as u8) by (bit_vector);
    assert(forall|b: u8| #[trigger] (0xC0u8 | b) > 0x7F) by (bit_vector);
    assert(forall|b: u8| #[trigger] (0xE0u8 | b) > 0x7F) by (bit_vector);
    assert(forall|b: u8| #[trigger] (0xF0u8 | b) > 0x7F) by (bit_vector);
    assert(forall|b: u8| #[trigger] (0x80u8 | b) > 0x7F) by (bit_vector);
}

proof fn lemma_reserved_bytes(bytes: Seq<u8>)
    requires
        forall|i: int| 0 <= i < bytes.len() ==> !is_unreserved(#[trigger] bytes[i]),
    ensures
        encoded_bytes(bytes).len() == 3 * bytes.len(),
        forall|i: int|
            0 <= i < bytes.len() ==> stands_in_hex(
                encoded_bytes(bytes),
                3 * i,
                #[trigger] bytes[i],
            ),
    decreases bytes.len(),
{
    if bytes.len() > 0 {
        let rest = bytes.drop_first();
        let head = encoded_byte(bytes[0]);
        let tail = encoded_bytes(rest);
        let code = encoded_bytes(bytes);
        assert forall|i: int| 0 <= i < rest.len() implies !is_unreserved(#[trigger] rest[i]) by {
            assert(rest[i] == bytes[i + 1]);
        }
        lemma_reserved_bytes(rest);
        assert(!is_unreserved(bytes[0]));
        assert(code == head + tail);
        assert forall|i: int| 0 <= i < bytes.len() implies stands_in_hex(
            code,
            3 * i,
            #[trigger] bytes[i],
        ) by {
            if i == 0 {
                lemma_hex(bytes[0] as int / 16);
                lemma_hex(bytes[0] as int % 16);
            } else {
                assert(rest[i - 1] == bytes[i]);
                assert(stands_in_hex(tail, 3 * (i - 1), rest[i - 1]));
                assert(code[3 * i] == tail[3 * (i - 1)]);
                assert(code[3 * i + 1] == tail[3 * (i - 1) + 1]);
                assert(code[3 * i + 2] == tail[3 * (i - 1) + 2]);
            }
        }
    }
}

proof fn lemma_hex(n: int)
    requires
        0 <= n < 16,
    ensures
        hex_value(hex_digit(n)) == n,
{
    assert(hex_digit(n) as u32 == (if n < 10 { 0x30 + n } else { 0x41 + n - 10 }));
}

}
