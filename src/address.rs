use vstd::prelude::*;

use crate::error::ProbeError;

verus! {

/// A 32-byte account address, first byte first.
#[derive(Clone, Copy, Debug, PartialEq, Eq)]
pub struct Address {
    pub bytes: [u8; 32],
}

/// A hex digit of either case.
pub open spec fn is_hex_digit(c: char) -> bool {
    ('0' <= c && c <= '9') || ('a' <= c && c <= 'f') || ('A' <= c && c <= 'F')
}

/// The value of hex digit `c`.
pub open spec fn hex_value(c: char) -> nat {
    if '0' <= c && c <= '9' {
        (c as nat - '0' as nat) as nat
    } else if 'a' <= c && c <= 'f' {
        (c as nat - 'a' as nat + 10) as nat
    } else {
        (c as nat - 'A' as nat + 10) as nat
    }
}

/// `s` starts with "0x" and holds between 1 and 64 hex digits after it.
pub open spec fn is_hex_address_text(s: Seq<char>) -> bool {
    &&& 3 <= s.len() <= 66
    &&& s[0] == '0'
    &&& s[1] == 'x'
    &&& forall|i: int| 2 <= i < s.len() ==> is_hex_digit(#[trigger] s[i])
}

/// The strict form: "0x" and then either all 64 digits, or a single digit (an address from
/// 0x0 to 0xf, written short).
pub open spec fn is_strict_address_text(s: Seq<char>) -> bool {
    is_hex_address_text(s) && (s.len() == 3 || s.len() == 66)
}

/// The digits, left-padded with '0' to 64.
pub open spec fn padded_digits(d: Seq<char>) -> Seq<char> {
    Seq::new((64 - d.len()) as nat, |i: int| '0') + d
}

/// The bytes that hex digits `d` (at most 64) denote, two digits a byte, first byte first.
pub open spec fn address_bytes(d: Seq<char>) -> Seq<u8> {
    let p = padded_digits(d);
    Seq::new(32, |i: int| (16 * hex_value(p[2 * i]) + hex_value(p[2 * i + 1])) as u8)
}

/// The address that strict address text `s` denotes.
pub open spec fn address_of_text(s: Seq<char>) -> Seq<u8> {
    address_bytes(s.skip(2))
}

/// Strict form neither pads nor cuts: text of any length but 3 and 66, text holding a character
/// after "0x" that is not a hex digit, and text that does not start with "0x" are all outside it,
/// so `parse_address` refuses them.
pub proof fn lemma_strict_form_refusals(s: Seq<char>)
    ensures
        s.len() != 3 && s.len() != 66 ==> !is_strict_address_text(s),
        (exists|i: int| 2 <= i < s.len() && !is_hex_digit(#[trigger] s[i])) ==> !is_strict_address_text(s),
        s.len() < 2 || s[0] != '0' || s[1] != 'x' ==> !is_strict_address_text(s),
{
}

/// Parses an address in strict form. Anything else is refused, never padded or cut.
pub fn parse_address(text: &str) -> (r: Result<Address, ProbeError>)
    ensures
        match r {
            Ok(a) => is_strict_address_text(text@) && a.bytes@ == address_of_text(text@),
            Err(ProbeError::AddressParse { input }) => !is_strict_address_text(text@) && input@
                == text@,
            Err(_) => false,
        },
{
    if !is_strict_form(text) {
        return Err(ProbeError::AddressParse { input: text.to_owned() });
    }
    match sdk_address_from_hex(text) {
        Ok(bytes) => Ok(Address { bytes }),
        Err(_) => Err(ProbeError::AddressParse { input: text.to_owned() }),
    }
}

/// Whether `c` is a hex digit.
fn is_hex_digit_exec(c: char) -> (r: bool)
    ensures
        r == is_hex_digit(c),
{
    ('0' <= c && c <= '9') || ('a' <= c && c <= 'f') || ('A' <= c && c <= 'F')
}

/// Whether `text` is in strict form.
fn is_strict_form(text: &str) -> (r: bool)
    ensures
        r == is_strict_address_text(text@),
{
    let n = text.unicode_len();
    if n != 3 && n != 66 {
        return false;
    }
    if text.get_char(0) != '0' || text.get_char(1) != 'x' {
        return false;
    }
    let mut i: usize = 2;
    while i < n
        invariant
            n == text@.len(),
            2 <= i <= n,
            forall|j: int| 2 <= j < i ==> is_hex_digit(#[trigger] text@[j]),
        decreases n - i,
    {
        if !is_hex_digit_exec(text.get_char(i)) {
            return false;
        }
        i = i + 1;
    }
    true
}

/// Relies on aptos_sdk::AccountAddress::from_hex and AccountAddress::to_bytes: given "0x" and 1 to
/// 64 hex digits of either case, from_hex strips the prefix, left-pads the digits with '0' to 64
/// and decodes them two to a byte, which to_bytes hands back in order.
#[verifier::external_body]
fn sdk_address_from_hex(text: &str) -> (r: Result<[u8; 32], aptos_sdk::AptosError>)
    requires
        is_hex_address_text(text@),
    ensures
        r is Ok,
        r matches Ok(b) ==> b@ == address_of_text(text@),
{
    match aptos_sdk::AccountAddress::from_hex(text) {
        Ok(a) => Ok(a.to_bytes()),
        Err(e) => Err(e),
    }
}

#[verifier::external_type_specification]
#[verifier::external_body]
pub struct ExAptosError(aptos_sdk::AptosError);

} // verus!
