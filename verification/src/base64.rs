//! Standard Base64 with `=` padding, stated as a closed form over the input
//! bytes and implemented by a single pass over three-byte groups.

use vstd::prelude::*;
use crate::text::push_char;

verus! {

/// The 64 data symbols, each at the position of the value it stands for.
pub const ALPHABET: &'static str =
    "ABCDEFGHIJKLMNOPQRSTUVWXYZabcdefghijklmnopqrstuvwxyz0123456789+/";

/// The data symbol that stands for the six-bit value `v`:
/// `A`–`Z` for 0–25, `a`–`z` for 26–51, `0`–`9` for 52–61, then `+` and `/`.
pub open spec fn symbol(v: int) -> char {
    if v < 26 {
        (v + 65) as u8 as char
    } else if v < 52 {
        (v + 71) as u8 as char
    } else if v < 62 {
        (v - 4) as u8 as char
    } else if v == 62 {
        '+'
    } else {
        '/'
    }
}

/// Whether `c` is one of the 64 data symbols.
pub open spec fn is_symbol(c: char) -> bool {
    ||| 'A' <= c <= 'Z'
    ||| 'a' <= c <= 'z'
    ||| '0' <= c <= '9'
    ||| c == '+'
    ||| c == '/'
}

/// The six-bit value that a data symbol stands for; 0 for any other character.
pub open spec fn symbol_value(c: char) -> int {
    if 'A' <= c <= 'Z' {
        c as int - 65
    } else if 'a' <= c <= 'z' {
        c as int - 71
    } else if '0' <= c <= '9' {
        c as int + 4
    } else if c == '+' {
        62
    } else if c == '/' {
        63
    } else {
        0
    }
}

/// The byte at position `i`, or zero past the end of the input.
pub open spec fn octet(data: Seq<u8>, i: int) -> int {
    if 0 <= i < data.len() {
        data[i] as int
    } else {
        0
    }
}

/// Window `k` (0 to 3) of the 24 bits formed by the three bytes of group `g`,
/// most significant window first.
pub open spec fn sextet(data: Seq<u8>, g: int, k: int) -> int {
    let b1 = octet(data, 3 * g);
    let b2 = octet(data, 3 * g + 1);
    let b3 = octet(data, 3 * g + 2);
    if k == 0 {
        b1 / 4
    } else if k == 1 {
        (b1 % 4) * 16 + b2 / 16
    } else if k == 2 {
        (b2 % 16) * 4 + b3 / 64
    } else {
        b3 % 64
    }
}

/// Length of the encoding of `n` bytes: four characters per started group.
pub open spec fn encoded_len(n: nat) -> nat {
    4 * ((n + 2) / 3)
}

/// Number of `=` characters that close the encoding of `n` bytes.
pub open spec fn padding_len(n: nat) -> nat {
    ((3 - n % 3) % 3) as nat
}

/// Character `j` of the encoding of `data`.
pub open spec fn encoded_char(data: Seq<u8>, j: int) -> char {
    if j < encoded_len(data.len()) - padding_len(data.len()) {
        symbol(sextet(data, j / 4, j % 4))
    } else {
        '='
    }
}

/// The Base64 encoding of `data`.
pub open spec fn encode(data: Seq<u8>) -> Seq<char> {
    Seq::new(encoded_len(data.len()), |j: int| encoded_char(data, j))
}

/// Number of `=` characters at the end of `text`, counting at most two.
pub open spec fn trailing_padding(text: Seq<char>) -> nat {
    if text.len() >= 2 && text[text.len() - 1] == '=' && text[text.len() - 2] == '=' {
        2
    } else if text.len() >= 1 && text[text.len() - 1] == '=' {
        1
    } else {
        0
    }
}

/// Number of bytes that `text` decodes to.
pub open spec fn decoded_len(text: Seq<char>) -> nat {
    let full = 3 * (text.len() / 4);
    if full >= trailing_padding(text) {
        (full - trailing_padding(text)) as nat
    } else {
        0
    }
}

/// Byte `i` of the decoding of `text`.
pub open spec fn decoded_byte(text: Seq<char>, i: int) -> u8 {
    let g = i / 3;
    let v0 = symbol_value(text[4 * g]);
    let v1 = symbol_value(text[4 * g + 1]);
    let v2 = symbol_value(text[4 * g + 2]);
    let v3 = symbol_value(text[4 * g + 3]);
    if i % 3 == 0 {
        (v0 * 4 + v1 / 16) as u8
    } else if i % 3 == 1 {
        ((v1 % 16) * 16 + v2 / 4) as u8
    } else {
        ((v2 % 4) * 64 + v3) as u8
    }
}

/// The bytes that a padded Base64 text stands for.
pub open spec fn decode(text: Seq<char>) -> Seq<u8> {
    Seq::new(decoded_len(text), |i: int| decoded_byte(text, i))
}

/// A data symbol is never the padding character, and its value is the one it
/// was chosen for.
pub proof fn lemma_symbol_inverse(v: int)
    requires
        0 <= v < 64,
    ensures
        is_symbol(symbol(v)),
        symbol(v) != '=',
        symbol_value(symbol(v)) == v,
{
}

/// The symbol of a value is the character at that position of the alphabet.
pub proof fn lemma_symbol_in_alphabet(v: int)
    requires
        0 <= v < 64,
    ensures
        ALPHABET@.len() == 64,
        symbol(v) == ALPHABET@[v],
{
    reveal_strlit("ABCDEFGHIJKLMNOPQRSTUVWXYZabcdefghijklmnopqrstuvwxyz0123456789+/");
}

/// The encoding of `n` bytes has `4 * ceil(n / 3)` characters.
pub proof fn lemma_encode_len(data: Seq<u8>)
    ensures
        encode(data).len() == 4 * ((data.len() + 2) / 3),
        encode(data).len() % 4 == 0,
        data.len() % 3 == 0 ==> encode(data).len() == 4 * (data.len() / 3),
        data.len() % 3 != 0 ==> encode(data).len() == 4 * (data.len() / 3) + 4,
{
}

/// Every character of an encoding is a data symbol or `=`, and `=` fills
/// exactly the last `padding_len` positions, which are at most two.
pub proof fn lemma_encode_alphabet(data: Seq<u8>)
    ensures
        padding_len(data.len()) <= 2,
        padding_len(data.len()) <= encode(data).len(),
        forall|j: int|
            0 <= j < encode(data).len() - padding_len(data.len()) ==> is_symbol(
                #[trigger] encode(data)[j],
            ),
        forall|j: int|
            encode(data).len() - padding_len(data.len()) <= j < encode(data).len() ==> (
            #[trigger] encode(data)[j]) == '=',
        forall|j: int|
            0 <= j < encode(data).len() && (#[trigger] encode(data)[j]) == '=' ==> j
                >= encode(data).len() - 2,
{
    let n = data.len();
    assert forall|j: int| 0 <= j < encode(data).len() - padding_len(n) implies is_symbol(
        #[trigger] encode(data)[j],
    ) && encode(data)[j] != '=' by {
        lemma_sextet_range(data, j / 4, j % 4);
        lemma_symbol_inverse(sextet(data, j / 4, j % 4));
    }
}

/// Each window of a group is a six-bit value.
pub proof fn lemma_sextet_range(data: Seq<u8>, g: int, k: int)
    ensures
        0 <= sextet(data, g, k) < 64,
{
}

/// The four windows of a group determine its three bytes.
proof fn lemma_regroup(b1: int, b2: int, b3: int)
    requires
        0 <= b1 < 256,
        0 <= b2 < 256,
        0 <= b3 < 256,
    ensures
        (b1 / 4) * 4 + ((b1 % 4) * 16 + b2 / 16) / 16 == b1,
        (((b1 % 4) * 16 + b2 / 16) % 16) * 16 + ((b2 % 16) * 4 + b3 / 64) / 4 == b2,
        (((b2 % 16) * 4 + b3 / 64) % 4) * 64 + b3 % 64 == b3,
{
}

/// Ahead of the padding, the character at `4 * g + k` carries window `k` of
/// group `g`.
proof fn lemma_encoded_value(data: Seq<u8>, g: int, k: int)
    requires
        0 <= g,
        0 <= k < 4,
        4 * g + k < encoded_len(data.len()) - padding_len(data.len()),
    ensures
        symbol_value(encode(data)[4 * g + k]) == sextet(data, g, k),
{
    assert((4 * g + k) / 4 == g && (4 * g + k) % 4 == k);
    assert(encode(data)[4 * g + k] == encoded_char(data, 4 * g + k));
    lemma_sextet_range(data, g, k);
    lemma_symbol_inverse(sextet(data, g, k));
}

/// The encoding ends in as many `=` as its padding asks for.
proof fn lemma_encode_padding(data: Seq<u8>)
    ensures
        trailing_padding(encode(data)) == padding_len(data.len()),
{
    lemma_encode_alphabet(data);
    let text = encode(data);
    let pad = padding_len(data.len());
    if text.len() >= 1 && pad < 1 {
        assert(is_symbol(text[text.len() - 1]));
    }
    if text.len() >= 2 && pad < 2 {
        assert(is_symbol(text[text.len() - 2]));
    }
}

/// Byte `i` of the input comes back from the encoding.
proof fn lemma_decoded_byte(data: Seq<u8>, i: int)
    requires
        0 <= i < data.len(),
    ensures
        decoded_byte(encode(data), i) == data[i],
{
    let g = i / 3;
    let k = i % 3;
    let n = data.len();
    assert(4 * g + k + 1 < encoded_len(n) - padding_len(n));
    lemma_encoded_value(data, g, 0);
    lemma_encoded_value(data, g, 1);
    if k >= 1 {
        lemma_encoded_value(data, g, 2);
    }
    if k >= 2 {
        lemma_encoded_value(data, g, 3);
    }
    lemma_regroup(octet(data, 3 * g), octet(data, 3 * g + 1), octet(data, 3 * g + 2));
}

/// Decoding an encoding gives the input back.
pub proof fn lemma_round_trip(data: Seq<u8>)
    ensures
        decode(encode(data)) == data,
{
    lemma_encode_padding(data);
    assert(decoded_len(encode(data)) == data.len());
    assert forall|i: int| 0 <= i < data.len() implies decoded_byte(encode(data), i)
        == data[i] by {
        lemma_decoded_byte(data, i);
    }
    assert(decode(encode(data)) =~= data);
}

/// Looks a six-bit value up in the alphabet.
fn symbol_for(v: u8) -> (c: char)
    requires
        v < 64,
    ensures
        c == symbol(v as int),
{
    if v < 26 {
        (v + 65) as char
    } else if v < 52 {
        (v + 71) as char
    } else if v < 62 {
        (v - 4) as char
    } else if v == 62 {
        '+'
    } else {
        '/'
    }
}

/// Cuts three bytes into their four six-bit windows.
fn windows(b1: u8, b2: u8, b3: u8) -> (w: (u8, u8, u8, u8))
    ensures
        w.0 == b1 / 4,
        w.1 == (b1 % 4) * 16 + b2 / 16,
        w.2 == (b2 % 16) * 4 + b3 / 64,
        w.3 == b3 % 64,
        w.0 < 64 && w.1 < 64 && w.2 < 64 && w.3 < 64,
{
    let w0: u8 = b1 >> 2;
    let w1: u8 = ((b1 & 0b11) << 4) | (b2 >> 4);
    let w2: u8 = ((b2 & 0b1111) << 2) | (b3 >> 6);
    let w3: u8 = b3 & 0b111111;
    assert(w0 == b1 / 4) by (bit_vector)
        requires
            w0 == b1 >> 2,
    ;
    assert(w1 == (b1 % 4) * 16 + b2 / 16 && w1 < 64) by (bit_vector)
        requires
            w1 == ((b1 & 0b11) << 4) | (b2 >> 4),
    ;
    assert(w2 == (b2 % 16) * 4 + b3 / 64 && w2 < 64) by (bit_vector)
        requires
            w2 == ((b2 & 0b1111) << 2) | (b3 >> 6),
    ;
    assert(w3 == b3 % 64) by (bit_vector)
        requires
            w3 == b3 & 0b111111,
    ;
    (w0, w1, w2, w3)
}

/// Encodes `data` in standard Base64: four symbols for every three bytes, and
/// a last group of one or two bytes closed by `==` or `=`. The output has no
/// line breaks.
pub fn base64_encode(data: &[u8]) -> (out: String)
    ensures
        out@ == encode(data@),
        out@.len() == 4 * ((data@.len() + 2) / 3),
{
    let n: usize = data.len();
    let mut out = String::new();
    let mut i: usize = 0;
    while n - i >= 3
        invariant
            n == data@.len(),
            i <= n,
            i % 3 == 0,
            out@.len() == 4 * (i / 3),
            forall|j: int| 0 <= j < out@.len() ==> out@[j] == encoded_char(data@, j),
        decreases n - i,
    {
        let w = windows(data[i], data[i + 1], data[i + 2]);
        let ghost before = out@;
        let ghost g = (i / 3) as int;
        push_char(&mut out, symbol_for(w.0));
        push_char(&mut out, symbol_for(w.1));
        push_char(&mut out, symbol_for(w.2));
        push_char(&mut out, symbol_for(w.3));
        proof {
            assert(before.len() == 4 * g);
            assert((4 * g) / 4 == g && (4 * g) % 4 == 0);
            assert((4 * g + 1) / 4 == g && (4 * g + 1) % 4 == 1);
            assert((4 * g + 2) / 4 == g && (4 * g + 2) % 4 == 2);
            assert((4 * g + 3) / 4 == g && (4 * g + 3) % 4 == 3);
            assert(4 * g + 4 <= encoded_len(n as nat) - padding_len(n as nat));
        }
        i += 3;
    }
    let ghost g = (i / 3) as int;
    proof {
        assert((4 * g) / 4 == g && (4 * g) % 4 == 0);
        assert((4 * g + 1) / 4 == g && (4 * g + 1) % 4 == 1);
        assert((4 * g + 2) / 4 == g && (4 * g + 2) % 4 == 2);
    }
    if n - i == 1 {
        let w = windows(data[i], 0, 0);
        push_char(&mut out, symbol_for(w.0));
        push_char(&mut out, symbol_for(w.1));
        push_char(&mut out, '=');
        push_char(&mut out, '=');
    } else if n - i == 2 {
        let w = windows(data[i], data[i + 1], 0);
        push_char(&mut out, symbol_for(w.0));
        push_char(&mut out, symbol_for(w.1));
        push_char(&mut out, symbol_for(w.2));
        push_char(&mut out, '=');
    }
    assert(out@ =~= encode(data@));
    out
}

} // verus!
