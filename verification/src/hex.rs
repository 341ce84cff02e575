//! Lower-case hexadecimal text for keys, and the reading of a stored key.

use vstd::prelude::*;

verus! {

/// Number of bytes in a data key or a key-encryption key.
pub const KEY_LENGTH: usize = 32;

/// The lower-case hexadecimal digit of a value below sixteen.
pub open spec fn hex_digit(n: int) -> char {
    if n < 10 {
        (48 + n) as u8 as char
    } else {
        (87 + n) as u8 as char
    }
}

/// The text of `bytes`: two lower-case digits per byte, high digit first.
pub open spec fn hex_text(bytes: Seq<u8>) -> Seq<char> {
    Seq::new(
        2 * bytes.len(),
        |i: int|
            if i % 2 == 0 {
                hex_digit(bytes[i / 2] as int / 16)
            } else {
                hex_digit(bytes[i / 2] as int % 16)
            },
    )
}

/// Whether `c` is an ASCII hexadecimal digit, of either case.
pub open spec fn is_hex_digit(c: char) -> bool {
    ('0' <= c && c <= '9') || ('a' <= c && c <= 'f') || ('A' <= c && c <= 'F')
}

/// The value of a hexadecimal digit.
pub open spec fn hex_value(c: char) -> int {
    if '0' <= c && c <= '9' {
        c as int - 48
    } else if 'a' <= c && c <= 'f' {
        c as int - 87
    } else {
        c as int - 55
    }
}

/// Whether `c` has the Unicode property White_Space.
pub open spec fn is_space(c: char) -> bool {
    let u = c as int;
    (0x09 <= u && u <= 0x0d) || u == 0x20 || u == 0x85 || u == 0xa0 || u == 0x1680 || (0x2000 <= u
        && u <= 0x200a) || u == 0x2028 || u == 0x2029 || u == 0x202f || u == 0x205f || u == 0x3000
}

/// How many white-space characters `s` begins with.
pub open spec fn leading_spaces(s: Seq<char>) -> int
    decreases s.len(),
{
    if s.len() == 0 || !is_space(s[0]) {
        0
    } else {
        1 + leading_spaces(s.drop_first())
    }
}

/// How many white-space characters `s` ends with.
pub open spec fn trailing_spaces(s: Seq<char>) -> int
    decreases s.len(),
{
    if s.len() == 0 || !is_space(s.last()) {
        0
    } else {
        1 + trailing_spaces(s.drop_last())
    }
}

/// `s` without the white space at either end.
pub open spec fn trimmed(s: Seq<char>) -> Seq<char> {
    if leading_spaces(s) >= s.len() {
        Seq::empty()
    } else {
        s.subrange(leading_spaces(s), s.len() - trailing_spaces(s))
    }
}

/// Whether `s` holds nothing but white space.
pub open spec fn is_blank(s: Seq<char>) -> bool {
    forall|i: int| 0 <= i < s.len() ==> is_space(#[trigger] s[i])
}

/// The bytes that the digit pairs of `t` stand for.
pub open spec fn hex_bytes(t: Seq<char>) -> Seq<u8> {
    Seq::new(
        (t.len() / 2) as nat,
        |i: int| (16 * hex_value(t[2 * i]) + hex_value(t[2 * i + 1])) as u8,
    )
}

/// The key that a stored text holds: after trimming, exactly sixty-four
/// hexadecimal digits; `None` for any other text.
pub open spec fn decoded_key(text: Seq<char>) -> Option<Seq<u8>> {
    let t = trimmed(text);
    if t.len() == 2 * KEY_LENGTH && (forall|i: int| 0 <= i < t.len() ==> is_hex_digit(#[trigger] t[i])) {
        Some(hex_bytes(t))
    } else {
        None
    }
}

/// The count of leading white space is the index of the first character
/// that is none.
pub proof fn lemma_leading_spaces(s: Seq<char>, i: int)
    requires
        0 <= i <= s.len(),
        forall|j: int| 0 <= j < i ==> is_space(#[trigger] s[j]),
        i == s.len() || !is_space(s[i]),
    ensures
        leading_spaces(s) == i,
    decreases i,
{
    if i > 0 {
        let rest = s.drop_first();
        assert forall|j: int| 0 <= j < i - 1 implies is_space(#[trigger] rest[j]) by {
            assert(rest[j] == s[j + 1]);
        }
        lemma_leading_spaces(rest, i - 1);
    }
}

/// The count of trailing white space is the distance from the end of the
/// last character that is none.
pub proof fn lemma_trailing_spaces(s: Seq<char>, n: int)
    requires
        0 <= n <= s.len(),
        forall|j: int| s.len() - n <= j < s.len() ==> is_space(#[trigger] s[j]),
        n == s.len() || !is_space(s[s.len() - n - 1]),
    ensures
        trailing_spaces(s) == n,
    decreases n,
{
    if n > 0 {
        let rest = s.drop_last();
        assert forall|j: int| rest.len() - (n - 1) <= j < rest.len() implies is_space(
            #[trigger] rest[j],
        ) by {
            assert(rest[j] == s[j]);
        }
        lemma_trailing_spaces(rest, n - 1);
    }
}

/// The characters of a string, in order.
pub fn chars_of(s: &str) -> (v: Vec<char>)
    ensures
        v@ == s@,
{
    let mut v: Vec<char> = Vec::new();
    for c in it: s.chars()
        invariant
            v@ == it.seq().take(it.index@),
    {
        v.push(c);
    }
    v
}

fn space_char(c: char) -> (r: bool)
    ensures
        r == is_space(c),
{
    let u: u32 = c as u32;
    (0x09 <= u && u <= 0x0d) || u == 0x20 || u == 0x85 || u == 0xa0 || u == 0x1680 || (0x2000 <= u
        && u <= 0x200a) || u == 0x2028 || u == 0x2029 || u == 0x202f || u == 0x205f || u == 0x3000
}

/// Whether a text is empty or all white space.
pub fn blank(s: &str) -> (r: bool)
    ensures
        r == is_blank(s@),
{
    let chars = chars_of(s);
    let mut i: usize = 0;
    while i < chars.len()
        invariant
            i <= chars.len(),
            chars@ == s@,
            forall|j: int| 0 <= j < i ==> is_space(#[trigger] chars@[j]),
        decreases chars.len() - i,
    {
        if !space_char(chars[i]) {
            return false;
        }
        i += 1;
    }
    true
}

fn digit_value(c: char) -> (r: Option<u8>)
    ensures
        r is Some == is_hex_digit(c),
        r is Some ==> r->0 as int == hex_value(c) && r->0 < 16,
{
    let u: u32 = c as u32;
    if 48 <= u && u <= 57 {
        Some((u - 48) as u8)
    } else if 97 <= u && u <= 102 {
        Some((u - 87) as u8)
    } else if 65 <= u && u <= 70 {
        Some((u - 55) as u8)
    } else {
        None
    }
}

pub(crate) fn digit_str(n: u8) -> (s: &'static str)
    requires
        n < 16,
    ensures
        s@ == seq![hex_digit(n as int)],
{
    proof {
        reveal_strlit("0");
        reveal_strlit("1");
        reveal_strlit("2");
        reveal_strlit("3");
        reveal_strlit("4");
        reveal_strlit("5");
        reveal_strlit("6");
        reveal_strlit("7");
        reveal_strlit("8");
        reveal_strlit("9");
        reveal_strlit("a");
        reveal_strlit("b");
        reveal_strlit("c");
        reveal_strlit("d");
        reveal_strlit("e");
        reveal_strlit("f");
    }
    let s = match n {
        0 => "0",
        1 => "1",
        2 => "2",
        3 => "3",
        4 => "4",
        5 => "5",
        6 => "6",
        7 => "7",
        8 => "8",
        9 => "9",
        10 => "a",
        11 => "b",
        12 => "c",
        13 => "d",
        14 => "e",
        _ => "f",
    };
    assert(s@ =~= seq![hex_digit(n as int)]);
    s
}

/// Writes `bytes` as lower-case hexadecimal text.
pub fn encode_hex(bytes: &[u8]) -> (output: String)
    ensures
        output@ == hex_text(bytes@),
{
    let mut output = String::new();
    let mut i: usize = 0;
    while i < bytes.len()
        invariant
            i <= bytes.len(),
            output@ == hex_text(bytes@.take(i as int)),
        decreases bytes.len() - i,
    {
        let byte = bytes[i];
        let ghost before = output@;
        output.append(digit_str(byte / 16));
        output.append(digit_str(byte % 16));
        proof {
            let prev = bytes@.take(i as int);
            let next = bytes@.take(i + 1);
            assert(output@ =~= hex_text(next)) by {
                assert(output@.len() == 2 * next.len());
                assert forall|k: int| 0 <= k < output@.len() implies output@[k] == hex_text(
                    next,
                )[k] by {
                    if k < 2 * i {
                        assert(output@[k] == before[k]);
                        assert(prev[k / 2] == next[k / 2]);
                    }
                }
            }
        }
        i += 1;
    }
    assert(bytes@.take(i as int) =~= bytes@);
    output
}

/// Reads a key from stored text: the text is trimmed and must then be
/// exactly sixty-four hexadecimal digits.
pub fn decode_hex_key(hex: &str) -> (key: Option<[u8; KEY_LENGTH]>)
    ensures
        match key {
            Some(k) => decoded_key(hex@) == Some(k@),
            None => decoded_key(hex@) is None,
        },
{
    let chars = chars_of(hex);
    let n = chars.len();
    let mut start: usize = 0;
    while start < n && space_char(chars[start])
        invariant
            start <= n,
            n == chars.len(),
            forall|j: int| 0 <= j < start ==> is_space(#[trigger] chars@[j]),
        decreases n - start,
    {
        start += 1;
    }
    proof {
        lemma_leading_spaces(chars@, start as int);
    }
    if start == n {
        return None;
    }
    let mut end: usize = n;
    while end > start && space_char(chars[end - 1])
        invariant
            start <= end <= n,
            n == chars.len(),
            forall|j: int| end <= j < n ==> is_space(#[trigger] chars@[j]),
        decreases end,
    {
        end -= 1;
    }
    proof {
        lemma_trailing_spaces(chars@, n - end);
    }
    let ghost t = trimmed(hex@);
    assert(t == chars@.subrange(start as int, end as int));
    if end - start != 2 * KEY_LENGTH {
        return None;
    }
    let mut key = [0u8; KEY_LENGTH];
    let mut i: usize = 0;
    while i < KEY_LENGTH
        invariant
            i <= KEY_LENGTH,
            n == chars.len(),
            end - start == 2 * KEY_LENGTH,
            end <= n,
            t == trimmed(hex@),
            t == chars@.subrange(start as int, end as int),
            forall|j: int| 0 <= j < 2 * i ==> is_hex_digit(#[trigger] t[j]),
            forall|j: int| 0 <= j < i ==> key@[j] == hex_bytes(t)[j],
        decreases KEY_LENGTH - i,
    {
        let high = digit_value(chars[start + 2 * i]);
        let low = digit_value(chars[start + 2 * i + 1]);
        assert(t[2 * i] == chars@[start + 2 * i]);
        assert(t[2 * i + 1] == chars@[start + 2 * i + 1]);
        match (high, low) {
            (Some(h), Some(l)) => {
                key[i] = h * 16 + l;
            },
            _ => {
                assert(!is_hex_digit(t[2 * i]) || !is_hex_digit(t[2 * i + 1]));
                return None;
            },
        }
        i += 1;
    }
    assert(key@ =~= hex_bytes(t));
    Some(key)
}

/// A key written as hexadecimal text is read back unchanged.
pub proof fn lemma_hex_round_trip(key: Seq<u8>)
    requires
        key.len() == KEY_LENGTH,
    ensures
        decoded_key(hex_text(key)) == Some(key),
{
    let text = hex_text(key);
    lemma_hex_text_digits(key);
    lemma_leading_spaces(text, 0);
    lemma_trailing_spaces(text, 0);
    assert(trimmed(text) =~= text);
    lemma_hex_text_bytes(key);
}

/// Every character of a hexadecimal text is a digit, and none is white
/// space.
pub proof fn lemma_hex_text_digits(bytes: Seq<u8>)
    ensures
        hex_text(bytes).len() == 2 * bytes.len(),
        forall|i: int|
            0 <= i < hex_text(bytes).len() ==> is_hex_digit(#[trigger] hex_text(bytes)[i])
                && !is_space(hex_text(bytes)[i]),
{
    let text = hex_text(bytes);
    assert forall|i: int| 0 <= i < text.len() implies is_hex_digit(#[trigger] text[i])
        && !is_space(text[i]) by {
        let b = bytes[i / 2] as int;
        if i % 2 == 0 {
            lemma_digit(b / 16);
        } else {
            lemma_digit(b % 16);
        }
    }
}

/// The digit pairs of a hexadecimal text stand for the bytes it was
/// written from.
pub proof fn lemma_hex_text_bytes(bytes: Seq<u8>)
    ensures
        hex_bytes(hex_text(bytes)) == bytes,
{
    let text = hex_text(bytes);
    assert(text.len() / 2 == bytes.len());
    assert forall|i: int| 0 <= i < bytes.len() implies hex_bytes(text)[i] == bytes[i] by {
        let b = bytes[i] as int;
        lemma_digit(b / 16);
        lemma_digit(b % 16);
        assert((2 * i) / 2 == i && (2 * i) % 2 == 0);
        assert((2 * i + 1) / 2 == i && (2 * i + 1) % 2 == 1);
        assert(text[2 * i] == hex_digit(b / 16));
        assert(text[2 * i + 1] == hex_digit(b % 16));
        assert(16 * (b / 16) + b % 16 == b);
    }
    assert(hex_bytes(text) =~= bytes);
}

/// A hexadecimal digit is no white space, and its value is the number it
/// was written for.
pub proof fn lemma_digit(n: int)
    requires
        0 <= n < 16,
    ensures
        is_hex_digit(hex_digit(n)),
        !is_space(hex_digit(n)),
        hex_value(hex_digit(n)) == n,
{
    let c = hex_digit(n);
    if n < 10 {
        assert(c as int == 48 + n);
    } else {
        assert(c as int == 87 + n);
    }
}

} // verus!
