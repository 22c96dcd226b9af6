//! `WireAddress` — a 20-byte EVM address on the wire.
//!
//! The address travels as a single 20-byte byte string. Decoding accepts
//! exactly 20 bytes, whether they come as one byte string or as a
//! sequence of 20 `u8` elements (see [`crate::byte_string`]).

use vstd::prelude::*;
use vstd::std_specs::cmp::{PartialEqSpec, PartialEqSpecImpl};
use vstd::std_specs::convert::{FromSpec, FromSpecImpl};
use crate::byte_string::{array_from_byte_string, arrays_equal, decode_byte_string, ByteStringError};

verus! {

/// The number of bytes of an EVM address.
pub const ADDRESS_LEN: usize = 20;

/// A 20-byte EVM address, carried as its raw bytes.
#[derive(Debug, Clone, Copy, Eq, Hash)]
pub struct WireAddress(pub [u8; 20]);

impl View for WireAddress {
    type V = Seq<u8>;

    open spec fn view(&self) -> Seq<u8> {
        self.0@
    }
}

impl WireAddress {
    #[must_use]
    pub fn from_bytes(bytes: [u8; 20]) -> (w: Self)
        ensures
            w.0 == bytes,
    {
        Self(bytes)
    }

    #[must_use]
    pub fn as_bytes(&self) -> (b: &[u8; 20])
        ensures
            *b == self.0,
    {
        &self.0
    }

    /// The address held by a byte string of exactly 20 bytes; a byte
    /// string of any other length is refused.
    pub fn from_byte_string(bytes: &[u8]) -> (r: Result<Self, ByteStringError>)
        ensures
            r is Ok <==> bytes@.len() == ADDRESS_LEN,
            match r {
                Ok(w) => decode_byte_string(ADDRESS_LEN, bytes@) == Ok::<Seq<u8>, ByteStringError>(w@),
                Err(e) => decode_byte_string(ADDRESS_LEN, bytes@) == Err::<Seq<u8>, ByteStringError>(e),
            },
    {
        match array_from_byte_string::<20>(bytes) {
            Ok(a) => Ok(Self(a)),
            Err(e) => Err(e),
        }
    }
}

impl PartialEq for WireAddress {
    /// Equal exactly when every byte agrees.
    fn eq(&self, other: &Self) -> (r: bool)
        ensures
            r == (forall|i: int| 0 <= i < 20 ==> self.0[i] == other.0[i]),
    {
        let r = arrays_equal(&self.0, &other.0);
        proof {
            if forall|i: int| 0 <= i < 20 ==> self.0[i] == other.0[i] {
                assert(self.0@ =~= other.0@);
            }
        }
        r
    }
}

impl PartialEqSpecImpl for WireAddress {
    open spec fn obeys_eq_spec() -> bool {
        true
    }

    open spec fn eq_spec(&self, other: &Self) -> bool {
        self@ == other@
    }
}

impl Default for WireAddress {
    /// The all-zero address.
    fn default() -> (w: Self)
        ensures
            forall|i: int| 0 <= i < ADDRESS_LEN ==> w.0[i] == 0,
    {
        Self([0u8; 20])
    }
}

impl From<[u8; 20]> for WireAddress {
    fn from(bytes: [u8; 20]) -> (w: Self)
        ensures
            w.0 == bytes,
    {
        Self(bytes)
    }
}

impl FromSpecImpl<[u8; 20]> for WireAddress {
    open spec fn obeys_from_spec() -> bool {
        true
    }

    open spec fn from_spec(bytes: [u8; 20]) -> Self {
        WireAddress(bytes)
    }
}

impl From<WireAddress> for [u8; 20] {
    fn from(w: WireAddress) -> (bytes: Self)
        ensures
            bytes == w.0,
    {
        w.0
    }
}

impl FromSpecImpl<WireAddress> for [u8; 20] {
    open spec fn obeys_from_spec() -> bool {
        true
    }

    open spec fn from_spec(w: WireAddress) -> Self {
        w.0
    }
}

/// Two addresses are equal exactly when they agree in every one of their
/// 20 bytes.
pub proof fn lemma_address_equality(a: WireAddress, b: WireAddress)
    ensures
        PartialEqSpec::eq_spec(&a, &b) <==> (forall|i: int| 0 <= i < 20 ==> a.0[i] == b.0[i]),
        PartialEqSpec::eq_spec(&a, &b) <==> a == b,
{
    if forall|i: int| 0 <= i < 20 ==> a.0[i] == b.0[i] {
        assert(a@ =~= b@);
        assert(a.0 =~= b.0);
    }
}

/// Converting a byte array into a value keeps every byte as it is, and
/// converting the value back gives the same array.
pub proof fn lemma_address_from_bytes(bytes: [u8; 20], w: WireAddress)
    ensures
        <WireAddress as FromSpec<[u8; 20]>>::from_spec(bytes).0 == bytes,
        <[u8; 20] as FromSpec<WireAddress>>::from_spec(w) == w.0,
        <[u8; 20] as FromSpec<WireAddress>>::from_spec(
            <WireAddress as FromSpec<[u8; 20]>>::from_spec(bytes),
        ) == bytes,
{
}

} // verus!
