//! Standard padded base64 (RFC 4648 alphabet `A-Z a-z 0-9 + /`, `=`
//! padding) used for the Ed25519 manifest-signature field.

use vstd::prelude::*;
use vstd::string::StringSliceAdditionalSpecFns;
use vstd::utf8::{encode_utf8, is_ascii_chars, is_ascii_chars_encode_utf8};

use vstd::string::StringExecFns;

use crate::text::{decimal, push_decimal, string_push};

verus! {

/// The ASCII code of base64 digit `k` (`0 <= k < 64`).
pub open spec fn b64_char(k: int) -> u8 {
    if k < 26 {
        (65 + k) as u8
    } else if k < 52 {
        (71 + k) as u8
    } else if k < 62 {
        (k - 4) as u8
    } else if k == 62 {
        43u8
    } else {
        47u8
    }
}

/// The base64 digit an ASCII code stands for, if any.
pub open spec fn b64_index(c: u8) -> Option<int> {
    if 65 <= c <= 90 {
        Some(c - 65)
    } else if 97 <= c <= 122 {
        Some(c - 71)
    } else if 48 <= c <= 57 {
        Some(c + 4)
    } else if c == 43 {
        Some(62)
    } else if c == 47 {
        Some(63)
    } else {
        None
    }
}

/// The ASCII code of the padding character `=`.
pub open spec fn pad_char() -> u8 {
    61u8
}

/// The four digits of the 24-bit group `n`.
pub open spec fn enc_group(n: int) -> Seq<u8> {
    seq![b64_char(n / 262144), b64_char((n / 4096) % 64), b64_char((n / 64) % 64), b64_char(n % 64)]
}

/// Padded base64 encoding of `s`, as ASCII codes: each 3-byte group
/// becomes four digits; a final 1-byte group becomes two digits and `==`,
/// a final 2-byte group three digits and `=`.
pub open spec fn encode_spec(s: Seq<u8>) -> Seq<u8>
    decreases s.len(),
{
    if s.len() == 0 {
        Seq::empty()
    } else if s.len() == 1 {
        let n = s[0] as int * 65536;
        seq![b64_char(n / 262144), b64_char((n / 4096) % 64), pad_char(), pad_char()]
    } else if s.len() == 2 {
        let n = s[0] as int * 65536 + s[1] as int * 256;
        seq![b64_char(n / 262144), b64_char((n / 4096) % 64), b64_char((n / 64) % 64), pad_char()]
    } else {
        enc_group(s[0] as int * 65536 + s[1] as int * 256 + s[2] as int) + encode_spec(
            s.subrange(3, s.len() as int),
        )
    }
}

/// Why a base64 string failed to decode.
#[derive(Debug, Clone, Copy, PartialEq, Eq)]
pub enum Base64DecodeError {
    /// The input length is not a multiple of four.
    InvalidLength(usize),
    /// The input holds a byte that is neither a base64 digit nor padding
    /// where a digit is read.
    InvalidChar(u8),
}

/// The lowercase hexadecimal digit of `d` (`0 <= d < 16`).
pub open spec fn hex_digit(d: int) -> char {
    if d < 10 {
        (48 + d) as char
    } else {
        (87 + d) as char
    }
}

/// The operator-readable text of a decoding failure.
pub open spec fn base64_error_text(e: Base64DecodeError) -> Seq<char> {
    match e {
        Base64DecodeError::InvalidLength(n) => "base64 length "@ + decimal(n as nat)
            + " not divisible by 4"@,
        Base64DecodeError::InvalidChar(c) => "invalid base64 char: 0x"@ + seq![
            hex_digit(c as int / 16),
            hex_digit(c as int % 16),
        ],
    }
}

/// The lowercase hexadecimal digit of `d`.
fn hex_char(d: u8) -> (c: char)
    requires
        d < 16,
    ensures
        c == hex_digit(d as int),
{
    if d < 10 {
        (48 + d) as char
    } else {
        (87 + d) as char
    }
}

impl Base64DecodeError {
    /// The operator-readable text of this failure: the offending length,
    /// or the offending byte as two lowercase hex digits.
    pub fn message(&self) -> (s: String)
        ensures
            s@ == base64_error_text(*self),
    {
        match self {
            Base64DecodeError::InvalidLength(n) => {
                let mut s = String::from_str("base64 length ");
                push_decimal(&mut s, *n);
                s.append(" not divisible by 4");
                s
            },
            Base64DecodeError::InvalidChar(c) => {
                let mut s = String::from_str("invalid base64 char: 0x");
                string_push(&mut s, hex_char(*c / 16));
                string_push(&mut s, hex_char(*c % 16));
                assert(s@ =~= base64_error_text(*self));
                s
            },
        }
    }
}

/// How many of the four bytes of `c` are trailing `=`.
pub open spec fn trailing_pad(c: Seq<u8>) -> int {
    if c[3] != pad_char() {
        0
    } else if c[2] != pad_char() {
        1
    } else if c[1] != pad_char() {
        2
    } else if c[0] != pad_char() {
        3
    } else {
        4
    }
}

/// Decode one four-byte group: digits 0 and 1 are always read, digit 2
/// unless there are at least two `=`, digit 3 unless there is at least one;
/// the group yields one byte, plus one more for fewer than two `=`, plus
/// one more for no `=`.
#[verifier::opaque]
pub open spec fn decode_group_spec(c: Seq<u8>) -> Result<Seq<u8>, Base64DecodeError> {
    let pad = trailing_pad(c);
    if b64_index(c[0]) is None {
        Err(Base64DecodeError::InvalidChar(c[0]))
    } else if b64_index(c[1]) is None {
        Err(Base64DecodeError::InvalidChar(c[1]))
    } else if pad < 2 && b64_index(c[2]) is None {
        Err(Base64DecodeError::InvalidChar(c[2]))
    } else if pad < 1 && b64_index(c[3]) is None {
        Err(Base64DecodeError::InvalidChar(c[3]))
    } else {
        let i2 = if pad >= 2 {
            0
        } else {
            b64_index(c[2])->0
        };
        let i3 = if pad >= 1 {
            0
        } else {
            b64_index(c[3])->0
        };
        let n = b64_index(c[0])->0 * 262144 + b64_index(c[1])->0 * 4096 + i2 * 64 + i3;
        let first = seq![((n / 65536) % 256) as u8];
        let second = if pad < 2 {
            seq![((n / 256) % 256) as u8]
        } else {
            Seq::empty()
        };
        let third = if pad < 1 {
            seq![(n % 256) as u8]
        } else {
            Seq::empty()
        };
        Ok(first + second + third)
    }
}

/// Decode consecutive four-byte groups, stopping at the first failing one.
pub open spec fn decode_groups_spec(s: Seq<u8>) -> Result<Seq<u8>, Base64DecodeError>
    decreases s.len(),
{
    if s.len() < 4 {
        Ok(Seq::empty())
    } else {
        match decode_group_spec(s.subrange(0, 4)) {
            Err(e) => Err(e),
            Ok(head) => match decode_groups_spec(s.subrange(4, s.len() as int)) {
                Err(e) => Err(e),
                Ok(rest) => Ok(head + rest),
            },
        }
    }
}

/// Padded base64 decoding of the ASCII bytes `s`.
pub open spec fn decode_spec(s: Seq<u8>) -> Result<Seq<u8>, Base64DecodeError> {
    if s.len() % 4 != 0 {
        Err(Base64DecodeError::InvalidLength(s.len() as usize))
    } else {
        decode_groups_spec(s)
    }
}

/// Every base64 digit decodes back to its index, and no digit is `=`.
pub proof fn lemma_b64_char_index(k: int)
    requires
        0 <= k < 64,
    ensures
        b64_index(b64_char(k)) == Some(k),
        b64_char(k) != pad_char(),
{
}

/// The RFC 4648 standard base64 alphabet.
pub open spec fn standard_alphabet() -> Seq<char> {
    "ABCDEFGHIJKLMNOPQRSTUVWXYZabcdefghijklmnopqrstuvwxyz0123456789+/"@
}

/// The digits are the RFC 4648 standard alphabet, in order (`A`-`Z`,
/// `a`-`z`, `0`-`9`, `+`, `/`), and a digit decodes to its place in it and
/// nothing else does; so `[0xfb, 0xff]` encodes as `+/8=`.
pub proof fn lemma_standard_alphabet()
    ensures
        standard_alphabet().len() == 64,
        forall|k: int| 0 <= k < 64 ==> (#[trigger] b64_char(k)) as char == standard_alphabet()[k],
        forall|c: u8| #[trigger] b64_index(c) is Some ==> 0 <= b64_index(c)->0 < 64 && b64_char(
            b64_index(c)->0,
        ) == c,
        b64_char(62) == 43u8 && b64_char(63) == 47u8,
        encode_spec(seq![0xfbu8, 0xffu8]) == seq![43u8, 47u8, 56u8, 61u8],
{
    reveal_strlit("ABCDEFGHIJKLMNOPQRSTUVWXYZabcdefghijklmnopqrstuvwxyz0123456789+/");
    assert forall|k: int| 0 <= k < 64 implies (#[trigger] b64_char(k)) as char == standard_alphabet()[k] by {
        if k == 0 {
            assert("ABCDEFGHIJKLMNOPQRSTUVWXYZabcdefghijklmnopqrstuvwxyz0123456789+/"@[0] == 'A');
        } else if k == 1 {
            assert("ABCDEFGHIJKLMNOPQRSTUVWXYZabcdefghijklmnopqrstuvwxyz0123456789+/"@[1] == 'B');
        } else if k == 2 {
            assert("ABCDEFGHIJKLMNOPQRSTUVWXYZabcdefghijklmnopqrstuvwxyz0123456789+/"@[2] == 'C');
        } else if k == 3 {
            assert("ABCDEFGHIJKLMNOPQRSTUVWXYZabcdefghijklmnopqrstuvwxyz0123456789+/"@[3] == 'D');
        } else if k == 4 {
            assert("ABCDEFGHIJKLMNOPQRSTUVWXYZabcdefghijklmnopqrstuvwxyz0123456789+/"@[4] == 'E');
        } else if k == 5 {
            assert("ABCDEFGHIJKLMNOPQRSTUVWXYZabcdefghijklmnopqrstuvwxyz0123456789+/"@[5] == 'F');
        } else if k == 6 {
            assert("ABCDEFGHIJKLMNOPQRSTUVWXYZabcdefghijklmnopqrstuvwxyz0123456789+/"@[6] == 'G');
        } else if k == 7 {
            assert("ABCDEFGHIJKLMNOPQRSTUVWXYZabcdefghijklmnopqrstuvwxyz0123456789+/"@[7] == 'H');
        } else if k == 8 {
            assert("ABCDEFGHIJKLMNOPQRSTUVWXYZabcdefghijklmnopqrstuvwxyz0123456789+/"@[8] == 'I');
        } else if k == 9 {
            assert("ABCDEFGHIJKLMNOPQRSTUVWXYZabcdefghijklmnopqrstuvwxyz0123456789+/"@[9] == 'J');
        } else if k == 10 {
            assert("ABCDEFGHIJKLMNOPQRSTUVWXYZabcdefghijklmnopqrstuvwxyz0123456789+/"@[10] == 'K');
        } else if k == 11 {
            assert("ABCDEFGHIJKLMNOPQRSTUVWXYZabcdefghijklmnopqrstuvwxyz0123456789+/"@[11] == 'L');
        } else if k == 12 {
            assert("ABCDEFGHIJKLMNOPQRSTUVWXYZabcdefghijklmnopqrstuvwxyz0123456789+/"@[12] == 'M');
        } else if k == 13 {
            assert("ABCDEFGHIJKLMNOPQRSTUVWXYZabcdefghijklmnopqrstuvwxyz0123456789+/"@[13] == 'N');
        } else if k == 14 {
            assert("ABCDEFGHIJKLMNOPQRSTUVWXYZabcdefghijklmnopqrstuvwxyz0123456789+/"@[14] == 'O');
        } else if k == 15 {
            assert("ABCDEFGHIJKLMNOPQRSTUVWXYZabcdefghijklmnopqrstuvwxyz0123456789+/"@[15] == 'P');
        } else if k == 16 {
            assert("ABCDEFGHIJKLMNOPQRSTUVWXYZabcdefghijklmnopqrstuvwxyz0123456789+/"@[16] == 'Q');
        } else if k == 17 {
            assert("ABCDEFGHIJKLMNOPQRSTUVWXYZabcdefghijklmnopqrstuvwxyz0123456789+/"@[17] == 'R');
        } else if k == 18 {
            assert("ABCDEFGHIJKLMNOPQRSTUVWXYZabcdefghijklmnopqrstuvwxyz0123456789+/"@[18] == 'S');
        } else if k == 19 {
            assert("ABCDEFGHIJKLMNOPQRSTUVWXYZabcdefghijklmnopqrstuvwxyz0123456789+/"@[19] == 'T');
        } else if k == 20 {
            assert("ABCDEFGHIJKLMNOPQRSTUVWXYZabcdefghijklmnopqrstuvwxyz0123456789+/"@[20] == 'U');
        } else if k == 21 {
            assert("ABCDEFGHIJKLMNOPQRSTUVWXYZabcdefghijklmnopqrstuvwxyz0123456789+/"@[21] == 'V');
        } else if k == 22 {
            assert("ABCDEFGHIJKLMNOPQRSTUVWXYZabcdefghijklmnopqrstuvwxyz0123456789+/"@[22] == 'W');
        } else if k == 23 {
            assert("ABCDEFGHIJKLMNOPQRSTUVWXYZabcdefghijklmnopqrstuvwxyz0123456789+/"@[23] == 'X');
        } else if k == 24 {
            assert("ABCDEFGHIJKLMNOPQRSTUVWXYZabcdefghijklmnopqrstuvwxyz0123456789+/"@[24] == 'Y');
        } else if k == 25 {
            assert("ABCDEFGHIJKLMNOPQRSTUVWXYZabcdefghijklmnopqrstuvwxyz0123456789+/"@[25] == 'Z');
        } else if k == 26 {
            assert("ABCDEFGHIJKLMNOPQRSTUVWXYZabcdefghijklmnopqrstuvwxyz0123456789+/"@[26] == 'a');
        } else if k == 27 {
            assert("ABCDEFGHIJKLMNOPQRSTUVWXYZabcdefghijklmnopqrstuvwxyz0123456789+/"@[27] == 'b');
        } else if k == 28 {
            assert("ABCDEFGHIJKLMNOPQRSTUVWXYZabcdefghijklmnopqrstuvwxyz0123456789+/"@[28] == 'c');
        } else if k == 29 {
            assert("ABCDEFGHIJKLMNOPQRSTUVWXYZabcdefghijklmnopqrstuvwxyz0123456789+/"@[29] == 'd');
        } else if k == 30 {
            assert("ABCDEFGHIJKLMNOPQRSTUVWXYZabcdefghijklmnopqrstuvwxyz0123456789+/"@[30] == 'e');
        } else if k == 31 {
            assert("ABCDEFGHIJKLMNOPQRSTUVWXYZabcdefghijklmnopqrstuvwxyz0123456789+/"@[31] == 'f');
        } else if k == 32 {
            assert("ABCDEFGHIJKLMNOPQRSTUVWXYZabcdefghijklmnopqrstuvwxyz0123456789+/"@[32] == 'g');
        } else if k == 33 {
            assert("ABCDEFGHIJKLMNOPQRSTUVWXYZabcdefghijklmnopqrstuvwxyz0123456789+/"@[33] == 'h');
        } else if k == 34 {
            assert("ABCDEFGHIJKLMNOPQRSTUVWXYZabcdefghijklmnopqrstuvwxyz0123456789+/"@[34] == 'i');
        } else if k == 35 {
            assert("ABCDEFGHIJKLMNOPQRSTUVWXYZabcdefghijklmnopqrstuvwxyz0123456789+/"@[35] == 'j');
        } else if k == 36 {
            assert("ABCDEFGHIJKLMNOPQRSTUVWXYZabcdefghijklmnopqrstuvwxyz0123456789+/"@[36] == 'k');
        } else if k == 37 {
            assert("ABCDEFGHIJKLMNOPQRSTUVWXYZabcdefghijklmnopqrstuvwxyz0123456789+/"@[37] == 'l');
        } else if k == 38 {
            assert("ABCDEFGHIJKLMNOPQRSTUVWXYZabcdefghijklmnopqrstuvwxyz0123456789+/"@[38] == 'm');
        } else if k == 39 {
            assert("ABCDEFGHIJKLMNOPQRSTUVWXYZabcdefghijklmnopqrstuvwxyz0123456789+/"@[39] == 'n');
        } else if k == 40 {
            assert("ABCDEFGHIJKLMNOPQRSTUVWXYZabcdefghijklmnopqrstuvwxyz0123456789+/"@[40] == 'o');
        } else if k == 41 {
            assert("ABCDEFGHIJKLMNOPQRSTUVWXYZabcdefghijklmnopqrstuvwxyz0123456789+/"@[41] == 'p');
        } else if k == 42 {
            assert("ABCDEFGHIJKLMNOPQRSTUVWXYZabcdefghijklmnopqrstuvwxyz0123456789+/"@[42] == 'q');
        } else if k == 43 {
            assert("ABCDEFGHIJKLMNOPQRSTUVWXYZabcdefghijklmnopqrstuvwxyz0123456789+/"@[43] == 'r');
        } else if k == 44 {
            assert("ABCDEFGHIJKLMNOPQRSTUVWXYZabcdefghijklmnopqrstuvwxyz0123456789+/"@[44] == 's');
        } else if k == 45 {
            assert("ABCDEFGHIJKLMNOPQRSTUVWXYZabcdefghijklmnopqrstuvwxyz0123456789+/"@[45] == 't');
        } else if k == 46 {
            assert("ABCDEFGHIJKLMNOPQRSTUVWXYZabcdefghijklmnopqrstuvwxyz0123456789+/"@[46] == 'u');
        } else if k == 47 {
            assert("ABCDEFGHIJKLMNOPQRSTUVWXYZabcdefghijklmnopqrstuvwxyz0123456789+/"@[47] == 'v');
        } else if k == 48 {
            assert("ABCDEFGHIJKLMNOPQRSTUVWXYZabcdefghijklmnopqrstuvwxyz0123456789+/"@[48] == 'w');
        } else if k == 49 {
            assert("ABCDEFGHIJKLMNOPQRSTUVWXYZabcdefghijklmnopqrstuvwxyz0123456789+/"@[49] == 'x');
        } else if k == 50 {
            assert("ABCDEFGHIJKLMNOPQRSTUVWXYZabcdefghijklmnopqrstuvwxyz0123456789+/"@[50] == 'y');
        } else if k == 51 {
            assert("ABCDEFGHIJKLMNOPQRSTUVWXYZabcdefghijklmnopqrstuvwxyz0123456789+/"@[51] == 'z');
        } else if k == 52 {
            assert("ABCDEFGHIJKLMNOPQRSTUVWXYZabcdefghijklmnopqrstuvwxyz0123456789+/"@[52] == '0');
        } else if k == 53 {
            assert("ABCDEFGHIJKLMNOPQRSTUVWXYZabcdefghijklmnopqrstuvwxyz0123456789+/"@[53] == '1');
        } else if k == 54 {
            assert("ABCDEFGHIJKLMNOPQRSTUVWXYZabcdefghijklmnopqrstuvwxyz0123456789+/"@[54] == '2');
        } else if k == 55 {
            assert("ABCDEFGHIJKLMNOPQRSTUVWXYZabcdefghijklmnopqrstuvwxyz0123456789+/"@[55] == '3');
        } else if k == 56 {
            assert("ABCDEFGHIJKLMNOPQRSTUVWXYZabcdefghijklmnopqrstuvwxyz0123456789+/"@[56] == '4');
        } else if k == 57 {
            assert("ABCDEFGHIJKLMNOPQRSTUVWXYZabcdefghijklmnopqrstuvwxyz0123456789+/"@[57] == '5');
        } else if k == 58 {
            assert("ABCDEFGHIJKLMNOPQRSTUVWXYZabcdefghijklmnopqrstuvwxyz0123456789+/"@[58] == '6');
        } else if k == 59 {
            assert("ABCDEFGHIJKLMNOPQRSTUVWXYZabcdefghijklmnopqrstuvwxyz0123456789+/"@[59] == '7');
        } else if k == 60 {
            assert("ABCDEFGHIJKLMNOPQRSTUVWXYZabcdefghijklmnopqrstuvwxyz0123456789+/"@[60] == '8');
        } else if k == 61 {
            assert("ABCDEFGHIJKLMNOPQRSTUVWXYZabcdefghijklmnopqrstuvwxyz0123456789+/"@[61] == '9');
        } else if k == 62 {
            assert("ABCDEFGHIJKLMNOPQRSTUVWXYZabcdefghijklmnopqrstuvwxyz0123456789+/"@[62] == '+');
        } else if k == 63 {
            assert("ABCDEFGHIJKLMNOPQRSTUVWXYZabcdefghijklmnopqrstuvwxyz0123456789+/"@[63] == '/');
        }
    }
    assert(encode_spec(seq![0xfbu8, 0xffu8]) =~= seq![43u8, 47u8, 56u8, 61u8]);
}

/// The digit and byte arithmetic of one 24-bit group.
proof fn lemma_group_arith(b0: u8, b1: u8, b2: u8)
    ensures
        ({
            let n = b0 as int * 65536 + b1 as int * 256 + b2 as int;
            &&& 0 <= n / 262144 < 64
            &&& 0 <= (n / 4096) % 64 < 64
            &&& 0 <= (n / 64) % 64 < 64
            &&& 0 <= n % 64 < 64
            &&& (n / 262144) * 262144 + ((n / 4096) % 64) * 4096 + ((n / 64) % 64) * 64 + n % 64
                == n
            &&& (n / 65536) % 256 == b0
            &&& (n / 256) % 256 == b1
            &&& n % 256 == b2
        }),
{
    let g: u32 = (b0 as u32 * 65536 + b1 as u32 * 256 + b2 as u32) as u32;
    assert(g / 262144 < 64 && (g / 262144) * 262144 + ((g / 4096) % 64) * 4096 + ((g / 64) % 64)
        * 64 + g % 64 == g && (g / 65536) % 256 == b0 as u32 && (g / 256) % 256 == b1 as u32 && g
        % 256 == b2 as u32) by (bit_vector)
        requires
            g == (b0 as u32 * 65536 + b1 as u32 * 256 + b2 as u32) as u32,
    ;
}

/// Decoding a full group gives back its three bytes.
proof fn lemma_group_round_trip(b0: u8, b1: u8, b2: u8)
    ensures
        decode_group_spec(enc_group(b0 as int * 65536 + b1 as int * 256 + b2 as int)) == Ok::<
            Seq<u8>,
            Base64DecodeError,
        >(seq![b0, b1, b2]),
{
    reveal(decode_group_spec);
    let n = b0 as int * 65536 + b1 as int * 256 + b2 as int;
    lemma_group_arith(b0, b1, b2);
    let i0 = n / 262144;
    let i1 = (n / 4096) % 64;
    let i2 = (n / 64) % 64;
    let i3 = n % 64;
    lemma_b64_char_index(i0);
    lemma_b64_char_index(i1);
    lemma_b64_char_index(i2);
    lemma_b64_char_index(i3);
    let c = enc_group(n);
    assert(c[0] == b64_char(i0) && c[1] == b64_char(i1) && c[2] == b64_char(i2) && c[3]
        == b64_char(i3));
    assert(trailing_pad(c) == 0);
    assert(seq![(((i0 * 262144 + i1 * 4096 + i2 * 64 + i3) / 65536) % 256) as u8]
        + seq![(((i0 * 262144 + i1 * 4096 + i2 * 64 + i3) / 256) % 256) as u8]
        + seq![((i0 * 262144 + i1 * 4096 + i2 * 64 + i3) % 256) as u8] =~= seq![b0, b1, b2]);
}

/// The digit and byte arithmetic of a final one-byte group.
proof fn lemma_tail1_arith(b0: u8)
    ensures
        ({
            let n = b0 as int * 65536;
            let m = (n / 262144) * 262144 + ((n / 4096) % 64) * 4096;
            &&& 0 <= n / 262144 < 64
            &&& 0 <= (n / 4096) % 64 < 64
            &&& (m / 65536) % 256 == b0
        }),
{
    let g: u32 = (b0 as u32 * 65536) as u32;
    assert(g / 262144 < 64 && (((g / 262144) * 262144 + ((g / 4096) % 64) * 4096) / 65536) % 256
        == b0 as u32) by (bit_vector)
        requires
            g == (b0 as u32 * 65536) as u32,
    ;
}

/// The digit and byte arithmetic of a final two-byte group.
proof fn lemma_tail2_arith(b0: u8, b1: u8)
    ensures
        ({
            let n = b0 as int * 65536 + b1 as int * 256;
            let m = (n / 262144) * 262144 + ((n / 4096) % 64) * 4096 + ((n / 64) % 64) * 64;
            &&& 0 <= n / 262144 < 64
            &&& 0 <= (n / 4096) % 64 < 64
            &&& 0 <= (n / 64) % 64 < 64
            &&& (m / 65536) % 256 == b0
            &&& (m / 256) % 256 == b1
        }),
{
    let g: u32 = (b0 as u32 * 65536 + b1 as u32 * 256) as u32;
    assert(g / 262144 < 64 && (((g / 262144) * 262144 + ((g / 4096) % 64) * 4096 + ((g / 64) % 64)
        * 64) / 65536) % 256 == b0 as u32 && (((g / 262144) * 262144 + ((g / 4096) % 64) * 4096 + ((
    g / 64) % 64) * 64) / 256) % 256 == b1 as u32) by (bit_vector)
        requires
            g == (b0 as u32 * 65536 + b1 as u32 * 256) as u32,
    ;
}

/// Decoding the final one-byte group gives back its byte.
proof fn lemma_tail1_round_trip(b0: u8)
    ensures
        decode_groups_spec(encode_spec(seq![b0])) == Ok::<Seq<u8>, Base64DecodeError>(seq![b0]),
{
    reveal(decode_group_spec);
    let s = seq![b0];
    lemma_tail1_arith(b0);
    let n = b0 as int * 65536;
    let i0 = n / 262144;
    let i1 = (n / 4096) % 64;
    lemma_b64_char_index(i0);
    lemma_b64_char_index(i1);
    let e = encode_spec(s);
    assert(e == seq![b64_char(i0), b64_char(i1), pad_char(), pad_char()]);
    assert(e.subrange(0, 4) =~= e);
    assert(e.subrange(4, 4) =~= Seq::<u8>::empty());
    assert(trailing_pad(e) == 2);
    let m = i0 * 262144 + i1 * 4096 + 0 * 64 + 0;
    assert(m == i0 * 262144 + i1 * 4096);
    assert(seq![((m / 65536) % 256) as u8] + Seq::<u8>::empty() + Seq::<u8>::empty() =~= seq![b0]);
    assert(decode_group_spec(e) == Ok::<Seq<u8>, Base64DecodeError>(seq![b0]));
    assert(decode_groups_spec(Seq::<u8>::empty()) == Ok::<Seq<u8>, Base64DecodeError>(
        Seq::empty(),
    ));
    assert(seq![b0] + Seq::<u8>::empty() =~= seq![b0]);
}

/// Decoding the final two-byte group gives back its bytes.
proof fn lemma_tail2_round_trip(b0: u8, b1: u8)
    ensures
        decode_groups_spec(encode_spec(seq![b0, b1])) == Ok::<Seq<u8>, Base64DecodeError>(
            seq![b0, b1],
        ),
{
    reveal(decode_group_spec);
    let s = seq![b0, b1];
    lemma_tail2_arith(b0, b1);
    let n = b0 as int * 65536 + b1 as int * 256;
    let i0 = n / 262144;
    let i1 = (n / 4096) % 64;
    let i2 = (n / 64) % 64;
    lemma_b64_char_index(i0);
    lemma_b64_char_index(i1);
    lemma_b64_char_index(i2);
    let e = encode_spec(s);
    assert(e == seq![b64_char(i0), b64_char(i1), b64_char(i2), pad_char()]);
    assert(e.subrange(0, 4) =~= e);
    assert(e.subrange(4, 4) =~= Seq::<u8>::empty());
    assert(trailing_pad(e) == 1);
    let m = i0 * 262144 + i1 * 4096 + i2 * 64 + 0;
    assert(m == i0 * 262144 + i1 * 4096 + i2 * 64);
    assert(seq![((m / 65536) % 256) as u8] + seq![((m / 256) % 256) as u8] + Seq::<u8>::empty()
        =~= seq![b0, b1]);
    assert(decode_group_spec(e) == Ok::<Seq<u8>, Base64DecodeError>(seq![b0, b1]));
    assert(decode_groups_spec(Seq::<u8>::empty()) == Ok::<Seq<u8>, Base64DecodeError>(
        Seq::empty(),
    ));
    assert(seq![b0, b1] + Seq::<u8>::empty() =~= seq![b0, b1]);
}

/// Round trip: decoding the encoding of any byte string gives it back.
pub proof fn lemma_base64_round_trip(s: Seq<u8>)
    ensures
        encode_spec(s).len() % 4 == 0,
        decode_spec(encode_spec(s)) == Ok::<Seq<u8>, Base64DecodeError>(s),
{
    lemma_groups_round_trip(s);
}

#[verifier::rlimit(40)]
proof fn lemma_groups_round_trip(s: Seq<u8>)
    ensures
        encode_spec(s).len() % 4 == 0,
        decode_groups_spec(encode_spec(s)) == Ok::<Seq<u8>, Base64DecodeError>(s),
    decreases s.len(),
{
    if s.len() == 0 {
        assert(s =~= Seq::<u8>::empty());
    } else if s.len() == 1 {
        assert(s =~= seq![s[0]]);
        lemma_tail1_round_trip(s[0]);
    } else if s.len() == 2 {
        assert(s =~= seq![s[0], s[1]]);
        lemma_tail2_round_trip(s[0], s[1]);
    } else {
        let e = encode_spec(s);
        let rest = s.subrange(3, s.len() as int);
        lemma_groups_round_trip(rest);
        lemma_group_round_trip(s[0], s[1], s[2]);
        let g = enc_group(s[0] as int * 65536 + s[1] as int * 256 + s[2] as int);
        assert(e == g + encode_spec(rest));
        assert(e.subrange(0, 4) =~= g);
        assert(e.subrange(4, e.len() as int) =~= encode_spec(rest));
        assert(e.len() >= 4);
        assert(decode_groups_spec(e) == Ok::<Seq<u8>, Base64DecodeError>(
            seq![s[0], s[1], s[2]] + rest,
        ));
        assert(seq![s[0], s[1], s[2]] + rest =~= s);
    }
}

/// The ASCII code of base64 digit `k`.
fn digit(k: u32) -> (c: u8)
    requires
        k < 64,
    ensures
        c == b64_char(k as int),
{
    if k < 26 {
        (65 + k) as u8
    } else if k < 52 {
        (71 + k) as u8
    } else if k < 62 {
        (k - 4) as u8
    } else if k == 62 {
        43
    } else {
        47
    }
}

/// The characters of the ASCII codes `s`.
pub open spec fn ascii_chars(s: Seq<u8>) -> Seq<char> {
    s.map_values(|b: u8| b as char)
}

/// Every base64 digit is an ASCII code.
proof fn lemma_b64_char_ascii(k: int)
    requires
        0 <= k < 64,
    ensures
        b64_char(k) < 128,
{
}

/// Every byte of an encoding is an ASCII code.
proof fn lemma_encode_ascii(s: Seq<u8>)
    ensures
        forall|i: int| 0 <= i < encode_spec(s).len() ==> #[trigger] encode_spec(s)[i] < 128,
    decreases s.len(),
{
    if s.len() == 0 {
    } else if s.len() == 1 {
        let n = s[0] as int * 65536;
        lemma_b64_char_ascii(n / 262144);
        lemma_b64_char_ascii((n / 4096) % 64);
    } else if s.len() == 2 {
        let n = s[0] as int * 65536 + s[1] as int * 256;
        lemma_b64_char_ascii(n / 262144);
        lemma_b64_char_ascii((n / 4096) % 64);
        lemma_b64_char_ascii((n / 64) % 64);
    } else {
        let n = s[0] as int * 65536 + s[1] as int * 256 + s[2] as int;
        lemma_b64_char_ascii(n / 262144);
        lemma_b64_char_ascii((n / 4096) % 64);
        lemma_b64_char_ascii((n / 64) % 64);
        lemma_b64_char_ascii(n % 64);
        lemma_encode_ascii(s.subrange(3, s.len() as int));
        let head = enc_group(n);
        let tail = encode_spec(s.subrange(3, s.len() as int));
        assert(encode_spec(s) == head + tail);
        assert forall|i: int| 0 <= i < encode_spec(s).len() implies #[trigger] encode_spec(s)[i]
            < 128 by {
            if i >= 4 {
                assert(encode_spec(s)[i] == tail[i - 4]);
            }
        }
    }
}

/// The UTF-8 bytes of an encoding's text are the encoding itself.
pub proof fn lemma_encoded_text_bytes(s: Seq<u8>)
    ensures
        encode_utf8(ascii_chars(encode_spec(s))) == encode_spec(s),
{
    let e = encode_spec(s);
    let cs = ascii_chars(e);
    lemma_encode_ascii(s);
    assert(is_ascii_chars(cs)) by {
        assert forall|i: int| 0 <= i < cs.len() implies '\0' <= #[trigger] cs[i] <= '\u{7f}' by {
            assert(e[i] < 128);
        }
    }
    is_ascii_chars_encode_utf8(cs);
    assert(encode_utf8(cs) =~= e) by {
        assert forall|i: int| 0 <= i < e.len() implies #[trigger] encode_utf8(cs)[i] == e[i] by {
            assert(cs[i] as u8 == encode_utf8(cs)[i]);
            assert(e[i] < 128);
        }
    }
}

/// Append the ASCII code `c` as a character.
fn push_ascii(out: &mut String, c: u8, ghost_codes: Ghost<Seq<u8>>)
    requires
        old(out)@ == ascii_chars(ghost_codes@),
    ensures
        final(out)@ == ascii_chars(ghost_codes@.push(c)),
{
    string_push(out, c as char);
    assert(out@ =~= ascii_chars(ghost_codes@.push(c)));
}

/// Append the four digits of the group `b0 b1 b2`.
fn push_group(out: &mut String, b0: u8, b1: u8, b2: u8, codes: Ghost<Seq<u8>>)
    requires
        old(out)@ == ascii_chars(codes@),
    ensures
        final(out)@ == ascii_chars(
            codes@ + enc_group(b0 as int * 65536 + b1 as int * 256 + b2 as int),
        ),
{
    let g: u32 = ((b0 as u32) << 16u32) | ((b1 as u32) << 8u32) | (b2 as u32);
    assert(g == b0 as int * 65536 + b1 as int * 256 + b2 as int && (g >> 18u32) & 0x3f == g
        / 262144 && (g >> 12u32) & 0x3f == (g / 4096) % 64 && (g >> 6u32) & 0x3f == (g / 64) % 64
        && g & 0x3f == g % 64) by (bit_vector)
        requires
            g == ((b0 as u32) << 16u32) | ((b1 as u32) << 8u32) | (b2 as u32),
    ;
    let ghost mut c = codes@;
    push_ascii(out, digit((g >> 18u32) & 0x3f), Ghost(c));
    proof {
        c = c.push(b64_char(g as int / 262144));
    }
    push_ascii(out, digit((g >> 12u32) & 0x3f), Ghost(c));
    proof {
        c = c.push(b64_char((g as int / 4096) % 64));
    }
    push_ascii(out, digit((g >> 6u32) & 0x3f), Ghost(c));
    proof {
        c = c.push(b64_char((g as int / 64) % 64));
    }
    push_ascii(out, digit(g & 0x3f), Ghost(c));
    proof {
        c = c.push(b64_char(g as int % 64));
    }
    assert(c =~= codes@ + enc_group(g as int));
}

/// Padded base64 encoding (standard alphabet).
pub fn base64_encode(bytes: &[u8]) -> (out: String)
    ensures
        out@ == ascii_chars(encode_spec(bytes@)),
{
    let mut out = String::new();
    let ghost mut codes: Seq<u8> = Seq::empty();
    let n = bytes.len();
    let mut i: usize = 0;
    assert(bytes@.subrange(0, n as int) =~= bytes@);
    while n - i >= 3
        invariant
            n == bytes@.len(),
            i <= n,
            out@ == ascii_chars(codes),
            encode_spec(bytes@) == codes + encode_spec(bytes@.subrange(i as int, n as int)),
        decreases n - i,
    {
        let ghost rest = bytes@.subrange(i as int, n as int);
        assert(rest.subrange(3, rest.len() as int) =~= bytes@.subrange(i + 3, n as int));
        let ghost g = enc_group(bytes@[i as int] as int * 65536 + bytes@[i + 1] as int * 256
            + bytes@[i + 2] as int);
        assert(encode_spec(rest) == g + encode_spec(bytes@.subrange(i + 3, n as int)));
        push_group(&mut out, bytes[i], bytes[i + 1], bytes[i + 2], Ghost(codes));
        proof {
            codes = codes + g;
        }
        i += 3;
    }
    let ghost rest = bytes@.subrange(i as int, n as int);
    if n - i == 1 {
        let b0 = bytes[i];
        let g: u32 = (b0 as u32) << 16u32;
        assert(g == b0 as int * 65536 && (g >> 18u32) & 0x3f == g / 262144 && (g >> 12u32) & 0x3f
            == (g / 4096) % 64) by (bit_vector)
            requires
                g == (b0 as u32) << 16u32,
        ;
        push_ascii(&mut out, digit((g >> 18u32) & 0x3f), Ghost(codes));
        proof { codes = codes.push(b64_char(g as int / 262144)); }
        push_ascii(&mut out, digit((g >> 12u32) & 0x3f), Ghost(codes));
        proof { codes = codes.push(b64_char((g as int / 4096) % 64)); }
        push_ascii(&mut out, 61, Ghost(codes));
        proof { codes = codes.push(61u8); }
        push_ascii(&mut out, 61, Ghost(codes));
        proof { codes = codes.push(61u8); }
        assert(codes =~= encode_spec(bytes@));
    } else if n - i == 2 {
        let b0 = bytes[i];
        let b1 = bytes[i + 1];
        let g: u32 = ((b0 as u32) << 16u32) | ((b1 as u32) << 8u32);
        assert(g == b0 as int * 65536 + b1 as int * 256 && (g >> 18u32) & 0x3f == g / 262144 && (g
            >> 12u32) & 0x3f == (g / 4096) % 64 && (g >> 6u32) & 0x3f == (g / 64) % 64)
            by (bit_vector)
            requires
                g == ((b0 as u32) << 16u32) | ((b1 as u32) << 8u32),
        ;
        push_ascii(&mut out, digit((g >> 18u32) & 0x3f), Ghost(codes));
        proof { codes = codes.push(b64_char(g as int / 262144)); }
        push_ascii(&mut out, digit((g >> 12u32) & 0x3f), Ghost(codes));
        proof { codes = codes.push(b64_char((g as int / 4096) % 64)); }
        push_ascii(&mut out, digit((g >> 6u32) & 0x3f), Ghost(codes));
        proof { codes = codes.push(b64_char((g as int / 64) % 64)); }
        push_ascii(&mut out, 61, Ghost(codes));
        proof { codes = codes.push(61u8); }
        assert(codes =~= encode_spec(bytes@));
    } else {
        assert(rest.len() == 0);
        assert(codes =~= encode_spec(bytes@));
    }
    out
}

/// The base64 digit an ASCII code stands for, if any.
fn digit_index(c: u8) -> (r: Option<u32>)
    ensures
        match b64_index(c) {
            Some(k) => r == Some(k as u32),
            None => r is None,
        },
{
    if 65 <= c && c <= 90 {
        Some((c - 65) as u32)
    } else if 97 <= c && c <= 122 {
        Some((c - 71) as u32)
    } else if 48 <= c && c <= 57 {
        Some((c as u32) + 4)
    } else if c == 43 {
        Some(62)
    } else if c == 47 {
        Some(63)
    } else {
        None
    }
}

/// Prefix `out` onto a decoding result.
pub open spec fn prefixed(out: Seq<u8>, r: Result<Seq<u8>, Base64DecodeError>) -> Result<
    Seq<u8>,
    Base64DecodeError,
> {
    match r {
        Ok(x) => Ok(out + x),
        Err(e) => Err(e),
    }
}

/// Decode the group at `i..i + 4`, appending its bytes to `out`.
fn decode_group(s: &[u8], i: usize, out: &mut Vec<u8>) -> (r: Result<(), Base64DecodeError>)
    requires
        i + 4 <= s@.len(),
    ensures
        match decode_group_spec(s@.subrange(i as int, i + 4)) {
            Ok(bs) => r is Ok && final(out)@ == old(out)@ + bs,
            Err(e) => r == Err::<(), Base64DecodeError>(e),
        },
{
    reveal(decode_group_spec);
    let ghost c = s@.subrange(i as int, i + 4);
    let c0 = s[i];
    let c1 = s[i + 1];
    let c2 = s[i + 2];
    let c3 = s[i + 3];
    assert(c[0] == c0 && c[1] == c1 && c[2] == c2 && c[3] == c3);
    let pad: u32 = if c3 != 61 {
        0
    } else if c2 != 61 {
        1
    } else if c1 != 61 {
        2
    } else if c0 != 61 {
        3
    } else {
        4
    };
    assert(pad == trailing_pad(c));
    let i0 = match digit_index(c0) {
        Some(k) => k,
        None => {
            return Err(Base64DecodeError::InvalidChar(c0));
        },
    };
    let i1 = match digit_index(c1) {
        Some(k) => k,
        None => {
            return Err(Base64DecodeError::InvalidChar(c1));
        },
    };
    let i2 = if pad >= 2 {
        0
    } else {
        match digit_index(c2) {
            Some(k) => k,
            None => {
                return Err(Base64DecodeError::InvalidChar(c2));
            },
        }
    };
    let i3 = if pad >= 1 {
        0
    } else {
        match digit_index(c3) {
            Some(k) => k,
            None => {
                return Err(Base64DecodeError::InvalidChar(c3));
            },
        }
    };
    let n: u32 = (i0 << 18u32) | (i1 << 12u32) | (i2 << 6u32) | i3;
    let x0 = ((n >> 16u32) & 0xff) as u8;
    let x1 = ((n >> 8u32) & 0xff) as u8;
    let x2 = (n & 0xff) as u8;
    assert(n == i0 * 262144 + i1 * 4096 + i2 * 64 + i3 && x0 == (n / 65536) % 256 && x1 == (n
        / 256) % 256 && x2 == n % 256) by (bit_vector)
        requires
            i0 < 64,
            i1 < 64,
            i2 < 64,
            i3 < 64,
            n == (i0 << 18u32) | (i1 << 12u32) | (i2 << 6u32) | i3,
            x0 == ((n >> 16u32) & 0xff) as u8,
            x1 == ((n >> 8u32) & 0xff) as u8,
            x2 == (n & 0xff) as u8,
    ;
    let ghost before = out@;
    out.push(x0);
    if pad < 2 {
        out.push(x1);
    }
    if pad < 1 {
        out.push(x2);
    }
    proof {
        let first = seq![x0];
        let second = if pad < 2 {
            seq![x1]
        } else {
            Seq::<u8>::empty()
        };
        let third = if pad < 1 {
            seq![x2]
        } else {
            Seq::<u8>::empty()
        };
        assert(out@ =~= before + (first + second + third));
        assert(decode_group_spec(c) == Ok::<Seq<u8>, Base64DecodeError>(first + second + third));
    }
    Ok(())
}

/// Padded base64 decoding (standard alphabet) of the bytes of `s`.
pub fn base64_decode(s: &str) -> (r: Result<Vec<u8>, Base64DecodeError>)
    ensures
        match r {
            Ok(v) => decode_spec(s.spec_bytes()) == Ok::<Seq<u8>, Base64DecodeError>(v@),
            Err(e) => decode_spec(s.spec_bytes()) == Err::<Seq<u8>, Base64DecodeError>(e),
        },
{
    let b = s.as_bytes();
    let n = b.len();
    if n % 4 != 0 {
        return Err(Base64DecodeError::InvalidLength(n));
    }
    let mut out: Vec<u8> = Vec::new();
    let mut i: usize = 0;
    assert(b@.subrange(0, n as int) =~= b@);
    while i < n
        invariant
            n == b@.len(),
            b@ == s.spec_bytes(),
            n % 4 == 0,
            i % 4 == 0,
            i <= n,
            decode_groups_spec(b@) == prefixed(out@, decode_groups_spec(b@.subrange(i as int, n as int))),
        decreases n - i,
    {
        let ghost rest = b@.subrange(i as int, n as int);
        assert(rest.subrange(0, 4) =~= b@.subrange(i as int, i + 4));
        assert(rest.subrange(4, rest.len() as int) =~= b@.subrange(i + 4, n as int));
        assert(decode_groups_spec(rest) == match decode_group_spec(b@.subrange(i as int, i + 4)) {
            Err(e) => Err(e),
            Ok(head) => match decode_groups_spec(b@.subrange(i + 4, n as int)) {
                Err(e) => Err(e),
                Ok(x) => Ok(head + x),
            },
        });
        let ghost old_out = out@;
        let res = decode_group(b, i, &mut out);
        proof {
            match decode_group_spec(b@.subrange(i as int, i + 4)) {
                Ok(head) => {
                    assert(out@ == old_out + head);
                    match decode_groups_spec(b@.subrange(i + 4, n as int)) {
                        Ok(x) => {
                            assert(old_out + (head + x) =~= out@ + x);
                        },
                        Err(_) => {},
                    }
                },
                Err(e) => {
                    assert(res == Err::<(), Base64DecodeError>(e));
                    assert(decode_groups_spec(b@) == Err::<Seq<u8>, Base64DecodeError>(e));
                },
            }
        }
        if let Err(e) = res {
            return Err(e);
        }
        i += 4;
    }
    assert(b@.subrange(n as int, n as int) =~= Seq::<u8>::empty());
    assert(out@ + Seq::<u8>::empty() =~= out@);
    Ok(out)
}

} // verus!
