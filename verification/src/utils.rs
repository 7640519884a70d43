//! Hexadecimal rendering and parsing of byte strings.

use vstd::prelude::*;
use vstd::string::*;
use vstd::utf8::*;

verus! {

/// The lower-case hexadecimal digit that stands for `n`, for `n` below 16.
pub open spec fn hex_digit(n: int) -> char {
    if n == 0 {
        '0'
    } else if n == 1 {
        '1'
    } else if n == 2 {
        '2'
    } else if n == 3 {
        '3'
    } else if n == 4 {
        '4'
    } else if n == 5 {
        '5'
    } else if n == 6 {
        '6'
    } else if n == 7 {
        '7'
    } else if n == 8 {
        '8'
    } else if n == 9 {
        '9'
    } else if n == 10 {
        'a'
    } else if n == 11 {
        'b'
    } else if n == 12 {
        'c'
    } else if n == 13 {
        'd'
    } else if n == 14 {
        'e'
    } else {
        'f'
    }
}

/// The hexadecimal text of a byte string: two lower-case digits per byte,
/// the high half first.
pub open spec fn hex_encoding(bytes: Seq<u8>) -> Seq<char> {
    Seq::new(
        2 * bytes.len(),
        |i: int|
            if i % 2 == 0 {
                hex_digit(bytes[i / 2] as int / 16)
            } else {
                hex_digit(bytes[i / 2] as int % 16)
            },
    )
}

/// The value of one hexadecimal digit given as an ASCII byte, in either case.
pub open spec fn hex_value(c: u8) -> Option<int> {
    if 0x30 <= c <= 0x39 {
        Some(c - 0x30)
    } else if 0x61 <= c <= 0x66 {
        Some(c - 0x61 + 10)
    } else if 0x41 <= c <= 0x46 {
        Some(c - 0x41 + 10)
    } else {
        None
    }
}

/// The byte that a pair of text bytes stands for. The pair is read as an
/// unsigned base-16 number of at most two characters: two digits, or a plus
/// sign followed by one digit.
pub open spec fn hex_pair_value(first: u8, second: u8) -> Option<int> {
    match hex_value(second) {
        None => None,
        Some(low) => if first == 0x2b {
            Some(low)
        } else {
            match hex_value(first) {
                None => None,
                Some(high) => Some(16 * high + low),
            }
        },
    }
}

/// Whether every pair of `text`, up to but not including pair `pairs`, stands for a byte.
pub open spec fn hex_pairs_valid(text: Seq<u8>, pairs: int) -> bool {
    forall|k: int| 0 <= k < pairs ==> (#[trigger] hex_pair_value(text[2 * k], text[2 * k + 1])) is Some
}

/// Whether `text`, the UTF-8 bytes of a string, is hexadecimal text that can be parsed.
pub open spec fn is_hex_text(text: Seq<u8>) -> bool {
    text.len() % 2 == 0 && hex_pairs_valid(text, text.len() as int / 2)
}

/// The bytes that hexadecimal text stands for.
pub open spec fn hex_decoding(text: Seq<u8>) -> Seq<u8> {
    Seq::new(
        text.len() / 2,
        |k: int| hex_pair_value(text[2 * k], text[2 * k + 1]).unwrap() as u8,
    )
}

/// The message with which text of odd length is rejected.
pub open spec fn odd_length_message() -> Seq<char> {
    "Hex string must have an even number of characters"@
}

/// The message with which text that holds something other than digits is rejected.
pub open spec fn invalid_character_message() -> Seq<char> {
    "Invalid hex character"@
}

/// What parsing hexadecimal text gives: the bytes, or the message that says
/// why there are none. Length is judged first, so text of odd length is
/// rejected for its length whatever it holds.
pub open spec fn hex_parse(text: Seq<u8>) -> Result<Seq<u8>, Seq<char>> {
    if text.len() % 2 != 0 {
        Err(odd_length_message())
    } else if is_hex_text(text) {
        Ok(hex_decoding(text))
    } else {
        Err(invalid_character_message())
    }
}

/// The view of a parse result, for comparison with `hex_parse`.
pub open spec fn parse_result_view(r: Result<Vec<u8>, &'static str>) -> Result<Seq<u8>, Seq<char>> {
    match r {
        Ok(bytes) => Ok(bytes@),
        Err(message) => Err(message@),
    }
}

/// The one-character string of a hexadecimal digit.
fn hex_digit_str(n: u8) -> (digit: &'static str)
    requires
        n < 16,
    ensures
        digit@ == seq![hex_digit(n as int)],
{
    proof {
        reveal_strlit("0");
        reveal_strlit("1");
        reveal_strlit("2");
        reveal_strlit("3");
        reveal_strlit("4");
        reveal_strlit("5");
        reveal_strlit("6");
        reveal_strlit("7");
        reveal_strlit("8");
        reveal_strlit("9");
        reveal_strlit("a");
        reveal_strlit("b");
        reveal_strlit("c");
        reveal_strlit("d");
        reveal_strlit("e");
        reveal_strlit("f");
    }
    let digit = if n == 0 {
        "0"
    } else if n == 1 {
        "1"
    } else if n == 2 {
        "2"
    } else if n == 3 {
        "3"
    } else if n == 4 {
        "4"
    } else if n == 5 {
        "5"
    } else if n == 6 {
        "6"
    } else if n == 7 {
        "7"
    } else if n == 8 {
        "8"
    } else if n == 9 {
        "9"
    } else if n == 10 {
        "a"
    } else if n == 11 {
        "b"
    } else if n == 12 {
        "c"
    } else if n == 13 {
        "d"
    } else if n == 14 {
        "e"
    } else {
        "f"
    };
    assert(digit@ =~= seq![hex_digit(n as int)]);
    digit
}

/// Convert bytes to a hex string.
pub fn bytes_to_hex(bytes: &[u8]) -> (hex: String)
    ensures
        hex@ == hex_encoding(bytes@),
{
    let mut hex = String::new();
    let mut i: usize = 0;
    while i < bytes.len()
        invariant
            i <= bytes.len(),
            hex@ == hex_encoding(bytes@.take(i as int)),
        decreases bytes.len() - i,
    {
        let byte: u8 = bytes[i];
        hex.append(hex_digit_str(byte / 16));
        hex.append(hex_digit_str(byte % 16));
        proof {
            let shorter = bytes@.take(i as int);
            let longer = bytes@.take(i as int + 1);
            assert(longer =~= shorter.push(byte));
            assert(hex@ =~= hex_encoding(longer)) by {
                assert forall|j: int| 0 <= j < 2 * i implies hex_encoding(longer)[j]
                    == hex_encoding(shorter)[j] by {
                    assert(longer[j / 2] == shorter[j / 2]);
                }
            }
        }
        i = i + 1;
    }
    assert(bytes@.take(bytes.len() as int) =~= bytes@);
    hex
}

/// The value of one hexadecimal digit, if the byte is one.
fn hex_value_of(c: u8) -> (value: Option<u8>)
    ensures
        match value {
            Some(v) => hex_value(c) == Some(v as int) && v < 16,
            None => hex_value(c) is None,
        },
{
    if 0x30 <= c && c <= 0x39 {
        Some(c - 0x30)
    } else if 0x61 <= c && c <= 0x66 {
        Some(c - 0x61 + 10)
    } else if 0x41 <= c && c <= 0x46 {
        Some(c - 0x41 + 10)
    } else {
        None
    }
}

/// The byte that a pair of text bytes stands for, if it stands for one.
fn hex_pair_value_of(first: u8, second: u8) -> (value: Option<u8>)
    ensures
        match value {
            Some(v) => hex_pair_value(first, second) == Some(v as int),
            None => hex_pair_value(first, second) is None,
        },
{
    match hex_value_of(second) {
        None => None,
        Some(low) => {
            if first == 0x2b {
                Some(low)
            } else {
                match hex_value_of(first) {
                    None => None,
                    Some(high) => Some(16 * high + low),
                }
            }
        },
    }
}

/// Convert a hex string to bytes.
///
/// The text is taken two bytes at a time, each pair read as an unsigned
/// base-16 number. Text whose length in bytes is odd is rejected first; text
/// of even length with a pair that is no such number, which includes every
/// pair that touches a character outside ASCII, is rejected as invalid.
pub fn hex_to_bytes(hex: &str) -> (result: Result<Vec<u8>, &'static str>)
    ensures
        parse_result_view(result) == hex_parse(encode_utf8(hex@)),
{
    let text = hex.as_bytes();
    if text.len() % 2 != 0 {
        return Err("Hex string must have an even number of characters");
    }
    let pairs: usize = text.len() / 2;
    let mut bytes: Vec<u8> = Vec::new();
    let mut k: usize = 0;
    while k < pairs
        invariant
            k <= pairs,
            pairs == text@.len() / 2,
            text@.len() % 2 == 0,
            text@.len() <= usize::MAX,
            text@ == encode_utf8(hex@),
            hex_pairs_valid(text@, k as int),
            bytes@.len() == k,
            forall|j: int|
                0 <= j < k ==> bytes@[j] == hex_pair_value(
                    text@[2 * j],
                    text@[2 * j + 1],
                ).unwrap() as u8,
        decreases pairs - k,
    {
        match hex_pair_value_of(text[2 * k], text[2 * k + 1]) {
            None => {
                assert(!hex_pairs_valid(text@, pairs as int)) by {
                    assert(hex_pair_value(text@[2 * k], text@[2 * k + 1]) is None);
                }
                return Err("Invalid hex character");
            },
            Some(byte) => {
                bytes.push(byte);
            },
        }
        k = k + 1;
    }
    assert(bytes@ =~= hex_decoding(text@));
    Ok(bytes)
}

/// Parsing the hexadecimal text of a byte string gives the byte string back.
pub proof fn hex_round_trip(bytes: Seq<u8>)
    ensures
        hex_parse(encode_utf8(hex_encoding(bytes))) == Ok::<Seq<u8>, Seq<char>>(bytes),
{
    let chars = hex_encoding(bytes);
    assert(is_ascii_chars(chars));
    is_ascii_chars_encode_utf8(chars);
    let text = encode_utf8(chars);
    assert(text.len() == 2 * bytes.len());
    assert forall|k: int| 0 <= k < bytes.len() implies (#[trigger] hex_pair_value(
        text[2 * k],
        text[2 * k + 1],
    )) == Some(bytes[k] as int) by {
        assert(text[2 * k] == chars[2 * k] as u8);
        assert(text[2 * k + 1] == chars[2 * k + 1] as u8);
        assert(chars[2 * k] == hex_digit(bytes[k] as int / 16));
        assert(chars[2 * k + 1] == hex_digit(bytes[k] as int % 16));
    }
    assert(hex_pairs_valid(text, text.len() as int / 2));
    assert(hex_decoding(text) =~= bytes);
}

} // verus!
