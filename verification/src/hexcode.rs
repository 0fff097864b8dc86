//! Hexadecimal text: which strings are well formed, and the bytes they spell.

use vstd::prelude::*;
use vstd::string::*;
use alloy_primitives::hex::FromHex;

verus! {

/// Whether `c` is one of `0-9`, `a-f`, `A-F`.
pub open spec fn is_hex_digit(c: char) -> bool {
    ('0' <= c && c <= '9') || ('a' <= c && c <= 'f') || ('A' <= c && c <= 'F')
}

/// The number a hexadecimal digit stands for.
pub open spec fn hex_digit_value(c: char) -> int {
    if '0' <= c && c <= '9' {
        c as int - '0' as int
    } else if 'a' <= c && c <= 'f' {
        c as int - 'a' as int + 10
    } else {
        c as int - 'A' as int + 10
    }
}

/// Whether every character of `s` is a hexadecimal digit.
pub open spec fn is_hex_text(s: Seq<char>) -> bool {
    forall|i: int| 0 <= i < s.len() ==> is_hex_digit(#[trigger] s[i])
}

/// The bytes that `s` spells, two digits to a byte, high digit first.
pub open spec fn hex_bytes(s: Seq<char>) -> Seq<u8> {
    Seq::new(
        (s.len() / 2) as nat,
        |i: int| (16 * hex_digit_value(s[2 * i]) + hex_digit_value(s[2 * i + 1])) as u8,
    )
}

/// Whether `s` begins with `0x` or `0X`.
pub open spec fn has_hex_prefix(s: Seq<char>) -> bool {
    s.len() >= 2 && s[0] == '0' && (s[1] == 'x' || s[1] == 'X')
}

/// `s` without its `0x` or `0X`, if it has one.
pub open spec fn strip_hex_prefix(s: Seq<char>) -> Seq<char> {
    if has_hex_prefix(s) {
        s.subrange(2, s.len() as int)
    } else {
        s
    }
}

/// A node id: `0x` followed by the forty digits of a twenty-byte address.
pub open spec fn is_node_id_text(s: Seq<char>) -> bool {
    &&& s.len() == 42
    &&& s[0] == '0'
    &&& s[1] == 'x'
    &&& is_hex_text(s.subrange(2, 42))
}

/// A signer key: the sixty-four digits of a thirty-two-byte scalar, with or
/// without a `0x` or `0X` in front.
pub open spec fn is_signer_key_text(s: Seq<char>) -> bool {
    &&& strip_hex_prefix(s).len() == 64
    &&& is_hex_text(strip_hex_prefix(s))
}

/// The address a well-formed node id names.
pub open spec fn node_id_bytes(s: Seq<char>) -> Seq<u8> {
    hex_bytes(s.subrange(2, 42))
}

/// The scalar a well-formed signer key names.
pub open spec fn signer_key_bytes(s: Seq<char>) -> Seq<u8> {
    hex_bytes(strip_hex_prefix(s))
}

/// Decides `is_hex_digit`.
pub fn hex_digit(c: char) -> (b: bool)
    ensures
        b == is_hex_digit(c),
{
    ('0' <= c && c <= '9') || ('a' <= c && c <= 'f') || ('A' <= c && c <= 'F')
}

/// Whether the characters of `text` from `from` up to `to` are all
/// hexadecimal digits.
fn hex_between(text: &str, from: usize, to: usize) -> (ok: bool)
    requires
        from <= to <= text@.len(),
    ensures
        ok == is_hex_text(text@.subrange(from as int, to as int)),
{
    let mut i: usize = from;
    while i < to
        invariant
            from <= i <= to <= text@.len(),
            is_hex_text(text@.subrange(from as int, i as int)),
        decreases to - i,
    {
        let c = text.get_char(i);
        if !hex_digit(c) {
            assert(text@.subrange(from as int, to as int)[i - from] == c);
            return false;
        }
        assert forall|k: int| 0 <= k < i + 1 - from implies is_hex_digit(
            #[trigger] text@.subrange(from as int, i + 1)[k],
        ) by {
            if k < i - from {
                assert(text@.subrange(from as int, i as int)[k] == text@[from + k]);
            }
        }
        i += 1;
    }
    true
}

/// Whether `addr` is a well-formed node id.
pub fn validate_addr(addr: &str) -> (ok: bool)
    ensures
        ok == is_node_id_text(addr@),
{
    let n = addr.unicode_len();
    if n != 42 {
        return false;
    }
    if addr.get_char(0) != '0' || addr.get_char(1) != 'x' {
        return false;
    }
    hex_between(addr, 2, 42)
}

/// Whether `key` is a well-formed signer key.
pub fn validate_key(key: &str) -> (ok: bool)
    ensures
        ok == is_signer_key_text(key@),
{
    let n = key.unicode_len();
    let prefixed = n >= 2 && key.get_char(0) == '0' && (key.get_char(1) == 'x' || key.get_char(1)
        == 'X');
    let start: usize = if prefixed { 2 } else { 0 };
    if n - start != 64 {
        return false;
    }
    proof {
        if !prefixed {
            assert(key@.subrange(0, n as int) == key@);
        }
    }
    hex_between(key, start, n)
}

/// `hex::FromHexError`, the reason `hex` gives for refusing a text. It is
/// carried and never looked into.
#[verifier::external_type_specification]
#[verifier::external_body]
pub struct ExFromHexError(hex::FromHexError);

/// `alloy_primitives::hex::FromHexError`, the reason `alloy_primitives`
/// gives for refusing a text. It is carried and never looked into.
#[verifier::external_type_specification]
#[verifier::external_body]
pub struct ExPrefixedFromHexError(alloy_primitives::hex::FromHexError);

/// `<[u8; 20] as hex::FromHex>::from_hex`: decodes exactly forty
/// hexadecimal digits, of either case, into the twenty bytes they spell, and
/// refuses every other text. It reads the text byte by byte; a character
/// outside ASCII is made of bytes that are no digits, so the text is accepted
/// exactly when it is forty characters that are all digits.
#[verifier::external_body]
pub(crate) fn decode_address_digits(digits: &str) -> (decoded: Result<
    [u8; 20],
    hex::FromHexError,
>)
    ensures
        match decoded {
            Ok(bytes) => digits@.len() == 40 && is_hex_text(digits@) && bytes@ == hex_bytes(
                digits@,
            ),
            Err(_) => !(digits@.len() == 40 && is_hex_text(digits@)),
        },
{
    <[u8; 20] as hex::FromHex>::from_hex(digits)
}

/// `alloy_primitives::B256::from_hex`: drops a leading `0x` or `0X` if there
/// is one, then decodes exactly sixty-four hexadecimal digits, of either
/// case, into the thirty-two bytes they spell, and refuses every other text.
#[verifier::external_body]
pub(crate) fn decode_key_text(text: &str) -> (decoded: Result<
    [u8; 32],
    alloy_primitives::hex::FromHexError,
>)
    ensures
        match decoded {
            Ok(bytes) => is_signer_key_text(text@) && bytes@ == signer_key_bytes(text@),
            Err(_) => !is_signer_key_text(text@),
        },
{
    alloy_primitives::B256::from_hex(text).map(|key| key.0)
}

} // verus!
