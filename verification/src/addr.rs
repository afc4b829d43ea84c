//! 20-byte account and contract addresses. The zero address is the chain's
//! sentinel for "unset": a gateway whose operator is the zero address is not
//! registered.

use vstd::prelude::*;

verus! {

use vstd::slice::slice_index_get;
use vstd::string::StringSliceAdditionalSpecFns;

/// Length in bytes of an address.
pub const ADDRESS_LEN: usize = 20;

/// A 20-byte account or contract identifier.
#[derive(Debug)]
pub struct Address {
    bytes: Vec<u8>,
}

impl View for Address {
    type V = Seq<u8>;

    closed spec fn view(&self) -> Seq<u8> {
        self.bytes@
    }
}

/// Whether a byte is an ASCII hexadecimal digit.
pub open spec fn is_hex_digit(b: u8) -> bool {
    (48u8 <= b <= 57u8) || (97u8 <= b <= 102u8) || (65u8 <= b <= 70u8)
}

/// The numeric value of an ASCII hexadecimal digit.
pub open spec fn hex_digit_val(b: u8) -> u8 {
    if 48u8 <= b <= 57u8 {
        (b - 48u8) as u8
    } else if 97u8 <= b <= 102u8 {
        (b - 97u8 + 10) as u8
    } else {
        (b - 65u8 + 10) as u8
    }
}

/// Whether a byte string is a well-formed hexadecimal address literal:
/// a `0x` prefix followed by exactly 40 hexadecimal digits.
pub open spec fn addr_hex_wf(s: Seq<u8>) -> bool {
    &&& s.len() == 2 + 2 * ADDRESS_LEN
    &&& s[0] == 48u8
    &&& s[1] == 120u8
    &&& forall|i: int| 2 <= i < s.len() ==> is_hex_digit(#[trigger] s[i])
}

/// The 20 bytes denoted by a well-formed hexadecimal address literal.
pub open spec fn addr_bytes_of_hex(s: Seq<u8>) -> Seq<u8> {
    Seq::new(ADDRESS_LEN as nat, |i: int| (16 * hex_digit_val(s[2 + 2 * i]) + hex_digit_val(s[3 + 2 * i])) as u8)
}

impl Address {
    #[verifier::type_invariant]
    pub closed spec fn wf(self) -> bool {
        self.bytes@.len() == ADDRESS_LEN
    }

    /// An address from its raw bytes; `None` unless exactly 20 bytes.
    pub fn from_bytes(bytes: Vec<u8>) -> (r: Option<Address>)
        ensures
            r is Some <==> bytes@.len() == ADDRESS_LEN,
            r matches Some(a) ==> a@ == bytes@,
    {
        if bytes.len() == ADDRESS_LEN {
            Some(Address { bytes })
        } else {
            None
        }
    }

    /// The all-zero address, the chain's sentinel for "unset".
    pub fn zero() -> (r: Address)
        ensures
            r@ == Seq::new(ADDRESS_LEN as nat, |i: int| 0u8),
    {
        let mut bytes: Vec<u8> = Vec::new();
        let mut i: usize = 0;
        while i < ADDRESS_LEN
            invariant
                i <= ADDRESS_LEN,
                bytes@.len() == i,
                forall|j: int| 0 <= j < i ==> bytes@[j] == 0u8,
            decreases ADDRESS_LEN - i,
        {
            bytes.push(0u8);
            i = i + 1;
        }
        proof {
            assert(bytes@ =~= Seq::new(ADDRESS_LEN as nat, |i: int| 0u8));
        }
        Address { bytes }
    }

    /// Whether this is the zero address.
    pub fn is_zero(&self) -> (r: bool)
        ensures
            r == (self@ == Seq::new(ADDRESS_LEN as nat, |i: int| 0u8)),
    {
        proof {
            use_type_invariant(self);
        }
        let mut i: usize = 0;
        while i < ADDRESS_LEN
            invariant
                i <= ADDRESS_LEN,
                self@.len() == ADDRESS_LEN,
                forall|j: int| 0 <= j < i ==> self@[j] == 0u8,
            decreases ADDRESS_LEN - i,
        {
            if self.bytes[i] != 0u8 {
                proof {
                    assert(self@[i as int] != 0u8);
                    assert(self@ != Seq::new(ADDRESS_LEN as nat, |i: int| 0u8));
                }
                return false;
            }
            i = i + 1;
        }
        proof {
            assert(self@ =~= Seq::new(ADDRESS_LEN as nat, |i: int| 0u8));
        }
        true
    }

    /// The raw bytes of the address.
    pub fn as_bytes(&self) -> (r: &Vec<u8>)
        ensures
            r@ == self@,
    {
        &self.bytes
    }

    /// Parses a `0x`-prefixed, 40-digit hexadecimal address literal.
    pub fn parse_hex_bytes(s: &[u8]) -> (r: Option<Address>)
        ensures
            r is Some <==> addr_hex_wf(s@),
            r matches Some(a) ==> a@ == addr_bytes_of_hex(s@),
    {
        if s.len() != 2 + 2 * ADDRESS_LEN {
            return None;
        }
        if *slice_index_get(s, 0) != 48u8 || *slice_index_get(s, 1) != 120u8 {
            return None;
        }
        let mut bytes: Vec<u8> = Vec::new();
        let mut i: usize = 0;
        while i < ADDRESS_LEN
            invariant
                i <= ADDRESS_LEN,
                s@.len() == 2 + 2 * ADDRESS_LEN,
                bytes@.len() == i,
                forall|j: int| 2 <= j < 2 + 2 * i ==> is_hex_digit(#[trigger] s@[j]),
                forall|j: int| 0 <= j < i ==> bytes@[j] == addr_bytes_of_hex(s@)[j],
            decreases ADDRESS_LEN - i,
        {
            let hi = match hex_digit(*slice_index_get(s, 2 + 2 * i)) {
                Some(v) => v,
                None => { return None; },
            };
            let lo = match hex_digit(*slice_index_get(s, 3 + 2 * i)) {
                Some(v) => v,
                None => { return None; },
            };
            bytes.push(16 * hi + lo);
            i = i + 1;
        }
        proof {
            assert(bytes@ =~= addr_bytes_of_hex(s@));
        }
        Some(Address { bytes })
    }

    /// Parses a `0x`-prefixed, 40-digit hexadecimal address string.
    pub fn parse(s: &str) -> (r: Option<Address>)
        ensures
            r is Some <==> addr_hex_wf(s.spec_bytes()),
            r matches Some(a) ==> a@ == addr_bytes_of_hex(s.spec_bytes()),
    {
        Address::parse_hex_bytes(s.as_bytes())
    }
}

/// The numeric value of one hexadecimal digit byte, `None` for any other byte.
fn hex_digit(b: u8) -> (r: Option<u8>)
    ensures
        r is Some <==> is_hex_digit(b),
        r matches Some(v) ==> v == hex_digit_val(b) && v < 16,
{
    if 48u8 <= b && b <= 57u8 {
        Some(b - 48u8)
    } else if 97u8 <= b && b <= 102u8 {
        Some(b - 97u8 + 10)
    } else if 65u8 <= b && b <= 70u8 {
        Some(b - 65u8 + 10)
    } else {
        None
    }
}

impl Clone for Address {
    /// A clone denotes the same 20 bytes.
    fn clone(&self) -> (r: Self)
        ensures
            r@ == self@,
    {
        proof {
            use_type_invariant(self);
        }
        Address { bytes: self.bytes.clone() }
    }
}

impl PartialEq for Address {
    fn eq(&self, other: &Self) -> (r: bool)
    {
        let r = self.bytes == other.bytes;
        proof {
            if r {
                assert(self.bytes@ =~= other.bytes@);
            } else {
                if self.bytes@ == other.bytes@ {
                    assert(forall|i: int|
                        0 <= i < self.bytes@.len() ==> self.bytes@[i] == other.bytes@[i]);
                    assert(false);
                }
            }
        }
        r
    }
}

impl Eq for Address {}

impl vstd::std_specs::cmp::PartialEqSpecImpl for Address {
    open spec fn obeys_eq_spec() -> bool {
        true
    }

    open spec fn eq_spec(&self, other: &Address) -> bool {
        self@ == other@
    }
}

} // verus!
