//! Account addresses as plain byte values, and the textual forms an
//! address argument may take: a `0x`-prefixed hex literal or the canonical
//! 32-digit hex form.

use vstd::prelude::*;
use crate::cli_error::CliError;
use crate::text::str_chars;

verus! {

/// The number of bytes in an address.
pub const ADDRESS_LENGTH: usize = 16;

/// A resolved on-chain account address: exactly 16 bytes.
#[derive(Clone, Debug, PartialEq, Eq)]
pub struct AccountAddress {
    bytes: Vec<u8>,
}

impl View for AccountAddress {
    type V = Seq<u8>;

    closed spec fn view(&self) -> Seq<u8> {
        self.bytes@
    }
}

impl AccountAddress {
    /// An address is well formed when it holds exactly 16 bytes.
    pub open spec fn wf(&self) -> bool {
        self@.len() == 16
    }

    /// Wraps 16 raw bytes as an address.
    pub fn new(bytes: Vec<u8>) -> (r: AccountAddress)
        requires
            bytes@.len() == 16,
        ensures
            r@ == bytes@,
            r.wf(),
    {
        AccountAddress { bytes }
    }

    /// The address bytes.
    pub fn as_bytes(&self) -> (r: &Vec<u8>)
        ensures
            r@ == self@,
    {
        &self.bytes
    }

    /// A fresh address with the same bytes.
    pub fn duplicate(&self) -> (r: AccountAddress)
        ensures
            r@ == self@,
    {
        let mut bytes: Vec<u8> = Vec::new();
        let mut i: usize = 0;
        while i < self.bytes.len()
            invariant
                0 <= i <= self.bytes@.len(),
                bytes@ == self.bytes@.subrange(0, i as int),
            decreases self.bytes@.len() - i,
        {
            bytes.push(self.bytes[i]);
            i = i + 1;
            proof {
                assert(bytes@ =~= self.bytes@.subrange(0, i as int));
            }
        }
        proof {
            assert(bytes@ =~= self.bytes@);
        }
        AccountAddress { bytes }
    }
}

/// Whether `c` is an ASCII hexadecimal digit.
pub open spec fn is_hex_digit(c: char) -> bool {
    ||| ('0' as u32) <= (c as u32) && (c as u32) <= ('9' as u32)
    ||| ('a' as u32) <= (c as u32) && (c as u32) <= ('f' as u32)
    ||| ('A' as u32) <= (c as u32) && (c as u32) <= ('F' as u32)
}

/// The numeric value of a hexadecimal digit.
pub open spec fn hex_digit_value(c: char) -> u8
    recommends
        is_hex_digit(c),
{
    if ('0' as u32) <= (c as u32) && (c as u32) <= ('9' as u32) {
        ((c as u32) - ('0' as u32)) as u8
    } else if ('a' as u32) <= (c as u32) && (c as u32) <= ('f' as u32) {
        ((c as u32) - ('a' as u32) + 10) as u8
    } else {
        ((c as u32) - ('A' as u32) + 10) as u8
    }
}

/// Whether every character of `s` is a hexadecimal digit.
pub open spec fn all_hex_digits(s: Seq<char>) -> bool {
    forall|i: int| 0 <= i < s.len() ==> is_hex_digit(#[trigger] s[i])
}

/// The nibble at position `j` of `digits` once left-padded with zeros to 32
/// digits.
pub open spec fn padded_nibble(digits: Seq<char>, j: int) -> u8
    recommends
        digits.len() <= 32,
        all_hex_digits(digits),
        0 <= j < 32,
{
    if j < 32 - digits.len() {
        0u8
    } else {
        hex_digit_value(digits[j - (32 - digits.len())])
    }
}

/// The 16 address bytes encoded by at most 32 hexadecimal digits,
/// left-padded with zeros.
pub open spec fn address_bytes_of_digits(digits: Seq<char>) -> Seq<u8>
    recommends
        digits.len() <= 32,
        all_hex_digits(digits),
{
    Seq::new(16, |i: int| (padded_nibble(digits, 2 * i) * 16 + padded_nibble(digits, 2 * i + 1)) as u8)
}

/// Whether `s` is a well-formed `0x`-prefixed hex literal for an address:
/// the prefix followed by at most 32 hexadecimal digits.
pub open spec fn hex_literal_ok(s: Seq<char>) -> bool {
    &&& s.len() >= 2
    &&& s[0] == '0'
    &&& s[1] == 'x'
    &&& s.len() <= 34
    &&& all_hex_digits(s.subrange(2, s.len() as int))
}

/// The address encoded by a well-formed hex literal.
pub open spec fn hex_literal_bytes(s: Seq<char>) -> Seq<u8>
    recommends
        hex_literal_ok(s),
{
    address_bytes_of_digits(s.subrange(2, s.len() as int))
}

/// Whether `s` is the canonical textual form of an address: exactly 32
/// hexadecimal digits, no prefix.
pub open spec fn canonical_hex_ok(s: Seq<char>) -> bool {
    s.len() == 32 && all_hex_digits(s)
}

/// The numeric value of an ASCII hexadecimal digit character.
fn hex_digit_value_exec(c: char) -> (r: u8)
    requires
        is_hex_digit(c),
    ensures
        r == hex_digit_value(c),
{
    let v: u32 = c as u32;
    if v <= '9' as u32 {
        (v - '0' as u32) as u8
    } else if v >= 'a' as u32 {
        (v - 'a' as u32 + 10) as u8
    } else {
        (v - 'A' as u32 + 10) as u8
    }
}

/// Whether `c` is an ASCII hexadecimal digit.
fn is_hex_digit_exec(c: char) -> (r: bool)
    ensures
        r == is_hex_digit(c),
{
    let v: u32 = c as u32;
    ('0' as u32 <= v && v <= '9' as u32) || ('a' as u32 <= v && v <= 'f' as u32) || ('A' as u32
        <= v && v <= 'F' as u32)
}

/// Decodes at most 32 hexadecimal digits into the 16 address bytes,
/// left-padding with zeros.
fn parse_hex_digits(digits: &Vec<char>) -> (r: Vec<u8>)
    requires
        digits@.len() <= 32,
        all_hex_digits(digits@),
    ensures
        r@ == address_bytes_of_digits(digits@),
{
    let pad: usize = 32 - digits.len();
    let mut bytes: Vec<u8> = Vec::new();
    let mut i: usize = 0;
    while i < 16
        invariant
            i <= 16,
            pad == 32 - digits@.len(),
            digits@.len() <= 32,
            all_hex_digits(digits@),
            bytes@.len() == i,
            forall|k: int| 0 <= k < i ==> bytes@[k] == address_bytes_of_digits(digits@)[k],
        decreases 16 - i,
    {
        let hi: u8 = if 2 * i < pad {
            0u8
        } else {
            hex_digit_value_exec(digits[2 * i - pad])
        };
        let lo: u8 = if 2 * i + 1 < pad {
            0u8
        } else {
            hex_digit_value_exec(digits[2 * i + 1 - pad])
        };
        bytes.push(hi * 16 + lo);
        i = i + 1;
    }
    proof {
        assert(bytes@ =~= address_bytes_of_digits(digits@));
    }
    bytes
}

/// Checks that every character of `v` is a hexadecimal digit.
fn all_hex_digits_exec(v: &Vec<char>) -> (r: bool)
    ensures
        r == all_hex_digits(v@),
{
    let mut i: usize = 0;
    while i < v.len()
        invariant
            i <= v.len(),
            forall|k: int| 0 <= k < i ==> is_hex_digit(#[trigger] v@[k]),
        decreases v.len() - i,
    {
        if !is_hex_digit_exec(v[i]) {
            return false;
        }
        i = i + 1;
    }
    true
}

impl AccountAddress {
    /// Parses a `0x`-prefixed hexadecimal literal, strictly: the prefix
    /// followed by at most 32 hex digits, left-padded with zeros.
    pub fn from_hex_literal(literal: &str) -> (r: Result<AccountAddress, ()>)
        ensures
            r is Ok <==> hex_literal_ok(literal@),
            r is Ok ==> r->Ok_0@ == hex_literal_bytes(literal@) && r->Ok_0.wf(),
    {
        let chars = str_chars(literal);
        if chars.len() < 2 || chars.len() > 34 {
            return Err(());
        }
        if chars[0] != '0' || chars[1] != 'x' {
            return Err(());
        }
        let mut digits: Vec<char> = Vec::new();
        let mut i: usize = 2;
        while i < chars.len()
            invariant
                2 <= i <= chars@.len(),
                digits@ == chars@.subrange(2, i as int),
            decreases chars@.len() - i,
        {
            digits.push(chars[i]);
            i = i + 1;
            proof {
                assert(digits@ =~= chars@.subrange(2, i as int));
            }
        }
        proof {
            assert(digits@ =~= chars@.subrange(2, chars@.len() as int));
        }
        if !all_hex_digits_exec(&digits) {
            return Err(());
        }
        let bytes = parse_hex_digits(&digits);
        Ok(AccountAddress::new(bytes))
    }

    /// Parses the canonical textual form: exactly 32 hex digits.
    pub fn from_canonical_str(s: &str) -> (r: Result<AccountAddress, ()>)
        ensures
            r is Ok <==> canonical_hex_ok(s@),
            r is Ok ==> r->Ok_0@ == address_bytes_of_digits(s@) && r->Ok_0.wf(),
    {
        let chars = str_chars(s);
        if chars.len() != 32 {
            return Err(());
        }
        if !all_hex_digits_exec(&chars) {
            return Err(());
        }
        let bytes = parse_hex_digits(&chars);
        Ok(AccountAddress::new(bytes))
    }
}

/// Whether an account argument resolves to an address: either a
/// well-formed `0x` literal, or the canonical 32-digit form.
pub open spec fn account_arg_ok(s: Seq<char>) -> bool {
    if s.len() >= 2 && s[0] == '0' && s[1] == 'x' {
        hex_literal_ok(s)
    } else {
        canonical_hex_ok(s)
    }
}

/// The address an acceptable account argument resolves to.
pub open spec fn account_arg_bytes(s: Seq<char>) -> Seq<u8>
    recommends
        account_arg_ok(s),
{
    if s.len() >= 2 && s[0] == '0' && s[1] == 'x' {
        hex_literal_bytes(s)
    } else {
        address_bytes_of_digits(s)
    }
}

/// Loads an account argument, accepting a `0x` hex literal or the
/// canonical textual form, in that priority order. A string that starts
/// with `0x` but is not a well-formed literal is rejected outright; any
/// other unrecognized form earns the fixed guidance message.
pub fn load_account_arg(arg: &str) -> (r: Result<AccountAddress, CliError>)
    ensures
        r is Ok <==> account_arg_ok(arg@),
        r is Ok ==> r->Ok_0@ == account_arg_bytes(arg@) && r->Ok_0.wf(),
        r is Err ==> r->Err_0 is CommandArgumentError,
{
    let chars = str_chars(arg);
    if chars.len() >= 2 && chars[0] == '0' && chars[1] == 'x' {
        match AccountAddress::from_hex_literal(arg) {
            Ok(a) => Ok(a),
            Err(_) => Err(
                CliError::CommandArgumentError(
                    "Failed to parse AccountAddress".to_string(),
                ),
            ),
        }
    } else {
        match AccountAddress::from_canonical_str(arg) {
            Ok(a) => Ok(a),
            Err(_) => Err(
                CliError::CommandArgumentError(
                    "'--account' or '--profile' after using aptos init must be provided".to_string(),
                ),
            ),
        }
    }
}

/// A wrapper around `AccountAddress` that parses from the flexible
/// account-argument forms rather than only the canonical one.
#[derive(Clone, Debug, PartialEq, Eq)]
pub struct AccountAddressWrapper {
    pub account_address: AccountAddress,
}

impl AccountAddressWrapper {
    /// Parses an account argument into a wrapper.
    pub fn from_arg(s: &str) -> (r: Result<AccountAddressWrapper, CliError>)
        ensures
            r is Ok <==> account_arg_ok(s@),
            r is Ok ==> r->Ok_0.account_address@ == account_arg_bytes(s@)
                && r->Ok_0.account_address.wf(),
            r is Err ==> r->Err_0 is CommandArgumentError,
    {
        match load_account_arg(s) {
            Ok(account_address) => Ok(AccountAddressWrapper { account_address }),
            Err(e) => Err(e),
        }
    }
}

} // verus!
