use vstd::prelude::*;
use alloy::primitives::{Address, U256};
use vstd::string::*;
use crate::error::AppError;
use vstd::arithmetic::power2::pow2;

verus! {

/// An ASCII hexadecimal digit, either case.
pub open spec fn is_hex_digit(c: char) -> bool {
    ('0' <= c && c <= '9') || ('a' <= c && c <= 'f') || ('A' <= c && c <= 'F')
}

/// Text that names a 20-byte address: 40 hex digits, optionally after `0x` or `0X`.
pub open spec fn is_address_text(s: Seq<char>) -> bool {
    (s.len() == 40 && forall|i: int| 0 <= i < 40 ==> is_hex_digit(#[trigger] s[i]))
    || (s.len() == 42 && s[0] == '0' && (s[1] == 'x' || s[1] == 'X')
        && forall|i: int| 2 <= i < 42 ==> is_hex_digit(#[trigger] s[i]))
}

/// The value of a hexadecimal digit character.
pub open spec fn hex_value(c: char) -> nat {
    if '0' <= c && c <= '9' {
        (c as u32 - '0' as u32) as nat
    } else if 'a' <= c && c <= 'f' {
        (c as u32 - 'a' as u32 + 10) as nat
    } else {
        (c as u32 - 'A' as u32 + 10) as nat
    }
}

/// The 40 hex digits of an address text, without its prefix.
pub open spec fn address_digits(s: Seq<char>) -> Seq<char> {
    if s.len() == 42 { s.subrange(2, 42) } else { s }
}

/// The 20 bytes an address text spells, two digits per byte, high nibble first.
pub open spec fn address_bytes(s: Seq<char>) -> Seq<u8> {
    Seq::new(20, |i: int| (hex_value(address_digits(s)[2 * i]) * 16
        + hex_value(address_digits(s)[2 * i + 1])) as u8)
}

/// The number four little-endian 64-bit limbs hold.
pub open spec fn limbs_value(l: Seq<u64>) -> nat {
    (l[0] + l[1] * pow2(64) + l[2] * pow2(128) + l[3] * pow2(192)) as nat
}

/// The value of a decimal digit character.
pub open spec fn digit_value(c: char) -> nat {
    (c as u32 - '0' as u32) as nat
}

/// The number that the decimal digits of `s` spell, underscores skipped.
pub open spec fn decimal_value(s: Seq<char>) -> nat
    decreases s.len(),
{
    if s.len() == 0 {
        0
    } else if s.last() == '_' {
        decimal_value(s.drop_last())
    } else {
        decimal_value(s.drop_last()) * 10 + digit_value(s.last())
    }
}

/// Text accepted as a 256-bit unsigned amount: decimal digits and underscores
/// only, spelling a number below 2^256 (the empty text spells zero).
pub open spec fn is_amount_text(s: Seq<char>) -> bool {
    &&& forall|i: int| 0 <= i < s.len() ==> ('0' <= #[trigger] s[i] && s[i] <= '9') || s[i] == '_'
    &&& decimal_value(s) < pow2(256)
}

/// Relies on `Address::from_str` (hex decoding of a fixed 20-byte array): it
/// strips one `0x`/`0X` prefix, succeeds exactly on 40 hex digits, and
/// decodes two digits per byte, high nibble first.
#[verifier::external_body]
fn parse_address(s: &str) -> (r: Option<[u8; 20]>)
    ensures
        r.is_some() == is_address_text(s@),
        r matches Some(b) ==> b@ == address_bytes(s@),
{
    match <Address as std::str::FromStr>::from_str(s) {
        Ok(a) => Some(a.into_array()),
        Err(_) => None,
    }
}

/// Relies on `U256::from_str_radix(s, 10)`: it skips `_`, rejects any other
/// non-digit, and fails on overflow past 256 bits.
/// The value comes back as its four limbs, least significant first.
#[verifier::external_body]
fn parse_decimal_u256(s: &str) -> (r: Option<[u64; 4]>)
    ensures
        r.is_some() == is_amount_text(s@),
        r matches Some(l) ==> limbs_value(l@) == decimal_value(s@),
{
    match U256::from_str_radix(s, 10) {
        Ok(v) => Some(*v.as_limbs()),
        Err(_) => None,
    }
}

} // verus!

verus! {

/// The lowercase hexadecimal digit of a value below sixteen.
pub open spec fn hex_digit(n: u8) -> char {
    seq!['0', '1', '2', '3', '4', '5', '6', '7', '8', '9', 'a', 'b', 'c', 'd', 'e', 'f'][n as int]
}

/// Two lowercase hex digits per byte, high nibble first.
pub open spec fn hex_of(b: Seq<u8>) -> Seq<char>
    decreases b.len(),
{
    if b.len() == 0 {
        seq![]
    } else {
        seq![hex_digit(b[0] / 16), hex_digit(b[0] % 16)] + hex_of(b.drop_first())
    }
}

/// The text under which a submission receipt is recorded: `0x` and its hex digits.
pub open spec fn receipt_text(h: Seq<u8>) -> Seq<char> {
    seq!['0', 'x'] + hex_of(h)
}

/// Relies on `hex::encode`: two lowercase hex digits for each byte, in order.
#[verifier::external_body]
fn encode_hex(bytes: &[u8; 32]) -> (r: String)
    ensures
        r@ == hex_of(bytes@),
{
    hex::encode(bytes)
}

/// Relies on `chrono::Utc::now`: the wall-clock time in milliseconds since the epoch.
#[verifier::external_body]
pub(crate) fn now_millis() -> (r: i64) {
    chrono::Utc::now().timestamp_millis()
}

/// The text recorded in the ledger for a submission receipt.
pub fn format_receipt(tx_hash: &[u8; 32]) -> (r: String)
    ensures
        r@ == receipt_text(tx_hash@),
{
    let digits = encode_hex(tx_hash);
    let prefix = String::from_str("0x");
    proof { reveal_strlit("0x"); }
    prefix.concat(digits.as_str())
}

/// The bytes of a destination address text, if it is one.
pub fn parse_destination(s: &String) -> (r: Option<[u8; 20]>)
    ensures
        r.is_some() == is_address_text(s@),
        r matches Some(b) ==> b@ == address_bytes(s@),
{
    parse_address(s.as_str())
}

/// The value of a decimal amount text, as little-endian limbs, if it is one.
pub fn parse_amount(s: &String) -> (r: Option<[u64; 4]>)
    ensures
        r.is_some() == is_amount_text(s@),
        r matches Some(l) ==> limbs_value(l@) == decimal_value(s@),
{
    parse_decimal_u256(s.as_str())
}

/// A stand-in settlement gateway: every submission succeeds with an all-zero receipt.
#[derive(Debug, Clone, Copy)]
pub struct BlockchainClient;

impl BlockchainClient {
    /// Creates the stand-in client; the endpoint and credential are accepted and unused.
    pub fn new(rpc_url: &str, private_key: &str) -> (r: Result<Self, AppError>)
        ensures
            r.is_ok(),
    {
        Ok(BlockchainClient)
    }

    /// Accepts any destination and amount and answers with the all-zero receipt.
    pub fn send_transaction(&self, to: &[u8; 20], value: &[u64; 4]) -> (r: Result<[u8; 32], AppError>)
        ensures
            r matches Ok(h) && forall|i: int| 0 <= i < 32 ==> h[i] == 0u8,
    {
        Ok([0u8; 32])
    }
}

} // verus!
