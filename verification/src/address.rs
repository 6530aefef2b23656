//! Twenty-byte account identifiers and their textual form.

use crate::hexnum::{
    all_hex_digits, bytes_to_hex, hex_0x_of_bytes, hex_digit_of, hex_digit_value, is_hex_digit,
    strip_hex_prefix,
};
use vstd::prelude::*;
use vstd::string::StrSliceExecFns;

verus! {

/// A 20-byte account identifier, canonically rendered as a
/// `0x`-prefixed string of forty lower-case hexadecimal digits.
#[derive(Debug)]
pub struct Address {
    bytes: Vec<u8>,
}

impl Clone for Address {
    /// A clone has the same bytes.
    fn clone(&self) -> (r: Self)
        ensures
            r@ == self@,
    {
        proof {
            use_type_invariant(&*self);
        }
        Address { bytes: crate::bytes::copy_bytes(&self.bytes) }
    }
}

impl View for Address {
    type V = Seq<u8>;

    closed spec fn view(&self) -> Seq<u8> {
        self.bytes@
    }
}

/// The bytes a forty-digit hexadecimal string denotes, two digits per byte.
pub open spec fn address_bytes_of(t: Seq<char>) -> Seq<u8> {
    Seq::new(20, |i: int| (hex_digit_value(t[2 * i]) * 16 + hex_digit_value(t[2 * i + 1])) as u8)
}

/// What parsing an address string yields: after removing one optional
/// `0x` prefix there must be exactly forty hexadecimal digits, read in
/// pairs as bytes; case is not significant.
pub open spec fn parse_address_spec(s: Seq<char>) -> Option<Seq<u8>> {
    let t = strip_hex_prefix(s);
    if t.len() == 40 && all_hex_digits(t) {
        Some(address_bytes_of(t))
    } else {
        None
    }
}

impl Address {
    #[verifier::type_invariant]
    spec fn type_inv(self) -> bool {
        self.bytes@.len() == 20
    }

    /// Wraps twenty raw bytes as an address.
    pub fn from_bytes(bytes: Vec<u8>) -> (r: Address)
        requires
            bytes@.len() == 20,
        ensures
            r@ == bytes@,
    {
        Address { bytes }
    }

    /// The raw bytes of the address: always exactly twenty.
    pub fn bytes(&self) -> (r: &Vec<u8>)
        ensures
            r@ == self@,
            self@.len() == 20,
    {
        proof {
            use_type_invariant(&*self);
        }
        &self.bytes
    }

    /// Canonical `0x`-prefixed lower-case rendering.
    pub fn to_hex_string(&self) -> (r: String)
        ensures
            r@ == hex_0x_of_bytes(self@),
    {
        bytes_to_hex(&self.bytes)
    }
}

/// Parses an address string; `None` exactly when, after one optional
/// `0x` prefix, the input is not forty hexadecimal digits.
pub fn parse_address(s: &str) -> (r: Option<Address>)
    ensures
        match r {
            Some(a) => parse_address_spec(s@) == Some(a@),
            None => parse_address_spec(s@) is None,
        },
{
    let len = s.unicode_len();
    let start: usize = if len >= 2 && s.get_char(0) == '0' && s.get_char(1) == 'x' {
        2
    } else {
        0
    };
    let ghost t = strip_hex_prefix(s@);
    proof {
        assert(t =~= s@.skip(start as int));
    }
    if len - start != 40 {
        return None;
    }
    let mut bytes: Vec<u8> = Vec::new();
    let mut i: usize = 0;
    while i < 20
        invariant
            i <= 20,
            len == s@.len(),
            start == 0 || start == 2,
            start + 40 == len,
            t == strip_hex_prefix(s@),
            t == s@.skip(start as int),
            t.len() == 40,
            bytes@.len() == i,
            forall|j: int| 0 <= j < 2 * i ==> is_hex_digit(#[trigger] t[j]),
            forall|j: int|
                0 <= j < i ==> bytes@[j] == (hex_digit_value(t[2 * j]) * 16 + hex_digit_value(
                    t[2 * j + 1],
                )) as u8,
        decreases 20 - i,
    {
        let c1 = s.get_char(start + 2 * i);
        let c2 = s.get_char(start + 2 * i + 1);
        proof {
            assert(t[2 * i] == s@[start + 2 * i]);
            assert(t[2 * i + 1] == s@[start + 2 * i + 1]);
        }
        let d1 = match hex_digit_of(c1) {
            Some(d) => d,
            None => {
                proof {
                    assert(!all_hex_digits(t)) by {
                        if all_hex_digits(t) {
                            assert(is_hex_digit(t[2 * i]));
                        }
                    }
                }
                return None;
            },
        };
        let d2 = match hex_digit_of(c2) {
            Some(d) => d,
            None => {
                proof {
                    assert(!all_hex_digits(t)) by {
                        if all_hex_digits(t) {
                            assert(is_hex_digit(t[2 * i + 1]));
                        }
                    }
                }
                return None;
            },
        };
        bytes.push(d1 * 16 + d2);
        i = i + 1;
    }
    proof {
        assert(all_hex_digits(t));
        assert(bytes@ =~= address_bytes_of(t));
    }
    Some(Address::from_bytes(bytes))
}

} // verus!
