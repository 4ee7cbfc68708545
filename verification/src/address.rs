//! Account and contract addresses, and their hexadecimal text form.

use vstd::prelude::*;
use vstd::utf8::encode_utf8;

verus! {

/// A 20-byte account or contract address.
#[derive(Clone, Copy, Debug)]
pub struct Address {
    pub bytes: [u8; 20],
}

impl View for Address {
    type V = Seq<u8>;

    open spec fn view(&self) -> Seq<u8> {
        self.bytes@
    }
}

/// Why a text is not a hexadecimal address.
#[derive(Clone, Copy, Debug, PartialEq, Eq, Structural)]
pub enum HexError {
    InvalidHexCharacter { c: char, index: usize },
    OddLength,
    InvalidStringLength,
}

/// The value of a hexadecimal digit of either case.
pub open spec fn hex_digit_value(c: char) -> Option<nat> {
    if '0' <= c && c <= '9' {
        Some((c as int - '0' as int) as nat)
    } else if 'a' <= c && c <= 'f' {
        Some((c as int - 'a' as int + 10) as nat)
    } else if 'A' <= c && c <= 'F' {
        Some((c as int - 'A' as int + 10) as nat)
    } else {
        None
    }
}

/// The digits of a hexadecimal text, after an optional `0x` or `0X`.
pub open spec fn hex_body(s: Seq<char>) -> Seq<char> {
    if s.len() >= 2 && s[0] == '0' && (s[1] == 'x' || s[1] == 'X') {
        s.skip(2)
    } else {
        s
    }
}

/// The byte that the two hexadecimal digits at `2 * i` and `2 * i + 1` denote.
pub open spec fn hex_byte(h: Seq<char>, i: int) -> u8 {
    (hex_digit_value(h[2 * i]).unwrap() * 16 + hex_digit_value(h[2 * i + 1]).unwrap()) as u8
}

/// The address a text denotes: an optional `0x` or `0X`, then exactly 40
/// hexadecimal digits of either case, two per byte, high digit first.
pub open spec fn parsed_address(s: Seq<char>) -> Option<Seq<u8>> {
    let h = hex_body(s);
    if h.len() == 40 && (forall|i: int| 0 <= i < 40 ==> (#[trigger] hex_digit_value(h[i])) is Some) {
        Some(Seq::new(20, |i: int| hex_byte(h, i)))
    } else {
        None
    }
}

/// A byte that is a hexadecimal digit of either case.
pub open spec fn is_hex_byte(b: u8) -> bool {
    (0x30 <= b && b <= 0x39) || (0x61 <= b && b <= 0x66) || (0x41 <= b && b <= 0x46)
}

/// The bytes of a hexadecimal text after an optional `0x` or `0X`.
pub open spec fn hex_body_bytes(b: Seq<u8>) -> Seq<u8> {
    if b.len() >= 2 && b[0] == 0x30 && (b[1] == 0x78 || b[1] == 0x58) {
        b.skip(2)
    } else {
        b
    }
}

/// The position of the first byte of `b` that is not a hexadecimal digit.
pub open spec fn first_non_hex(b: Seq<u8>) -> int {
    choose|k: int|
        0 <= k < b.len() && !is_hex_byte(b[k]) && (forall|j: int| 0 <= j < k ==> is_hex_byte(#[trigger] b[j]))
}

/// Why the UTF-8 bytes `b` of a rejected text are not an address: an odd
/// number of bytes; else not 40 bytes after the optional `0x`; else the
/// first byte after it that is not a hexadecimal digit, with its position
/// counted from there.
pub open spec fn address_hex_error(b: Seq<u8>) -> HexError {
    let body = hex_body_bytes(b);
    if b.len() % 2 != 0 {
        HexError::OddLength
    } else if body.len() != 40 {
        HexError::InvalidStringLength
    } else {
        HexError::InvalidHexCharacter {
            c: body[first_non_hex(body)] as char,
            index: first_non_hex(body) as usize,
        }
    }
}

/// Parses an address with `alloy::primitives::Address::from_str`, which
/// decodes through `const_hex::decode_to_array`. The contract states when the
/// text is accepted, which bytes come out, and which error a rejected text
/// gives (`decode_to_slice_inner` tests the length of the whole text, then
/// that of the digits, then reports the first byte that is no digit).
#[verifier::external_body]
pub(crate) fn parse_address(s: &str) -> (r: Result<Address, HexError>)
    ensures
        r is Ok <==> parsed_address(s@) is Some,
        r matches Ok(a) ==> parsed_address(s@) == Some(a@),
        r matches Err(e) ==> e == address_hex_error(encode_utf8(s@)),
{
    match s.parse::<alloy::primitives::Address>() {
        Ok(a) => Ok(Address { bytes: a.into_array() }),
        Err(alloy::hex::FromHexError::InvalidHexCharacter { c, index }) => Err(
            HexError::InvalidHexCharacter { c, index },
        ),
        Err(alloy::hex::FromHexError::OddLength) => Err(HexError::OddLength),
        Err(alloy::hex::FromHexError::InvalidStringLength) => Err(HexError::InvalidStringLength),
    }
}

/// Why a text is not an address under the rules of `fixed-hash`.
#[derive(Clone, Copy, Debug, PartialEq, Eq, Structural)]
pub enum H160Error {
    InvalidHexCharacter(char, usize),
    InvalidHexLength,
}

/// The white space that `rustc-hex` passes over between digits.
pub open spec fn is_hex_space(c: char) -> bool {
    c == ' ' || c == '\r' || c == '\n' || c == '\t'
}

/// A character that `rustc-hex` reads without error: a digit or white space.
pub open spec fn is_hex_or_space(c: char) -> bool {
    hex_digit_value(c) is Some || is_hex_space(c)
}

/// The text after an optional lowercase `0x`.
pub open spec fn h160_body(s: Seq<char>) -> Seq<char> {
    if s.len() >= 2 && s[0] == '0' && s[1] == 'x' {
        s.skip(2)
    } else {
        s
    }
}

/// The characters of `t` that are not white space, in order.
pub open spec fn hex_digits_in(t: Seq<char>) -> Seq<char>
    decreases t.len(),
{
    if t.len() == 0 {
        Seq::empty()
    } else if is_hex_space(t.last()) {
        hex_digits_in(t.drop_last())
    } else {
        hex_digits_in(t.drop_last()).push(t.last())
    }
}

/// The address a text denotes under the rules of `fixed-hash`: an optional
/// lowercase `0x`, then hexadecimal digits of either case and white space,
/// with exactly 40 digits, two per byte, high digit first.
pub open spec fn parsed_h160(s: Seq<char>) -> Option<Seq<u8>> {
    let t = h160_body(s);
    if (forall|i: int| 0 <= i < t.len() ==> is_hex_or_space(#[trigger] t[i])) && hex_digits_in(t).len() == 40 {
        Some(Seq::new(20, |i: int| hex_byte(hex_digits_in(t), i)))
    } else {
        None
    }
}

/// The position of the first character of `t` that is neither a digit nor
/// white space.
pub open spec fn first_bad_h160_char(t: Seq<char>) -> int {
    choose|k: int|
        0 <= k < t.len() && !is_hex_or_space(t[k]) && (forall|j: int| 0 <= j < k ==> is_hex_or_space(#[trigger] t[j]))
}

/// Why a rejected text is not an address under the rules of `fixed-hash`:
/// a character that is neither a digit nor white space, met before the 40th
/// digit, with its position after the optional `0x`; any other rejection is
/// a length error.
pub open spec fn h160_error(s: Seq<char>) -> H160Error {
    let t = h160_body(s);
    let k = first_bad_h160_char(t);
    if (exists|i: int| 0 <= i < t.len() && !is_hex_or_space(#[trigger] t[i])) && hex_digits_in(t.take(k)).len()
        < 40 {
        H160Error::InvalidHexCharacter(t[k], k as usize)
    } else {
        H160Error::InvalidHexLength
    }
}

/// Parses an address with `primitive_types::H160::from_str`, the hash type
/// behind `ethers_core::types::Address`, whose `FromStr` comes from
/// `fixed-hash` 0.8 and decodes through `rustc_hex::FromHexIter`: it strips
/// only a lowercase `0x`, passes over white space, and wants exactly 20
/// bytes. The characters before the first refused one are digits or white
/// space, so the byte position `rustc-hex` reports equals the character
/// position.
#[verifier::external_body]
pub(crate) fn parse_h160(s: &str) -> (r: Result<Address, H160Error>)
    ensures
        r is Ok <==> parsed_h160(s@) is Some,
        r matches Ok(a) ==> parsed_h160(s@) == Some(a@),
        r matches Err(e) ==> e == h160_error(s@),
{
    match s.parse::<primitive_types::H160>() {
        Ok(h) => Ok(Address { bytes: h.0 }),
        Err(rustc_hex::FromHexError::InvalidHexCharacter(c, i)) => Err(H160Error::InvalidHexCharacter(c, i)),
        Err(rustc_hex::FromHexError::InvalidHexLength) => Err(H160Error::InvalidHexLength),
    }
}

/// The two sets of rules by which the chain crates read address texts.
#[derive(Clone, Copy, Debug, PartialEq, Eq, Structural)]
pub enum AddressRules {
    /// `alloy`'s, through `const-hex`.
    Alloy,
    /// `fixed-hash`'s, through `rustc-hex`.
    FixedHash,
}

/// Why a text is not an address, under either set of rules.
#[derive(Clone, Copy, Debug, PartialEq, Eq, Structural)]
pub enum AddressError {
    Hex(HexError),
    H160(H160Error),
}

/// The bytes a text denotes under `rules`, or why it denotes none.
pub open spec fn address_result(rules: AddressRules, t: Seq<char>) -> Result<Seq<u8>, AddressError> {
    match rules {
        AddressRules::Alloy => match parsed_address(t) {
            Some(b) => Ok(b),
            None => Err(AddressError::Hex(address_hex_error(encode_utf8(t)))),
        },
        AddressRules::FixedHash => match parsed_h160(t) {
            Some(b) => Ok(b),
            None => Err(AddressError::H160(h160_error(t))),
        },
    }
}

/// Reads an address text under `rules`.
pub fn parse_address_with(s: &str, rules: AddressRules) -> (r: Result<Address, AddressError>)
    ensures
        match r {
            Ok(a) => address_result(rules, s@) == Ok::<Seq<u8>, AddressError>(a@),
            Err(e) => address_result(rules, s@) == Err::<Seq<u8>, AddressError>(e),
        },
{
    match rules {
        AddressRules::Alloy => match parse_address(s) {
            Ok(a) => Ok(a),
            Err(e) => Err(AddressError::Hex(e)),
        },
        AddressRules::FixedHash => match parse_h160(s) {
            Ok(a) => Ok(a),
            Err(e) => Err(AddressError::H160(e)),
        },
    }
}

/// The four addresses an EVM chain service works with.
#[derive(Clone, Copy, Debug)]
pub struct EthereumConfig {
    pub bridge_address: Address,
    pub erc20_handler: Address,
    pub erc721_handler: Address,
    pub from_address: Address,
}

} // verus!
