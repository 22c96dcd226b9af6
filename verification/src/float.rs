//! `WireFloat` — a Rain Float on the wire.
//!
//! Internally just a 32-byte byte string — the same packed
//! representation Solidity sees as `bytes32`, carried with no parse
//! round-trip and no precision loss. Decoding accepts exactly 32 bytes,
//! whether they come as one byte string or as a sequence of 32 `u8`
//! elements (see [`crate::byte_string`]).

use vstd::prelude::*;
use vstd::std_specs::cmp::{PartialEqSpec, PartialEqSpecImpl};
use vstd::std_specs::convert::{FromSpec, FromSpecImpl};
use crate::byte_string::{array_from_byte_string, arrays_equal, decode_byte_string, ByteStringError};

verus! {

/// The number of bytes of a packed Rain Float.
pub const FLOAT_LEN: usize = 32;

/// A Rain Float, carried as its packed 32-byte representation.
#[derive(Debug, Clone, Copy, Eq, Hash)]
pub struct WireFloat(pub [u8; 32]);

impl View for WireFloat {
    type V = Seq<u8>;

    open spec fn view(&self) -> Seq<u8> {
        self.0@
    }
}

impl WireFloat {
    #[must_use]
    pub fn from_bytes(bytes: [u8; 32]) -> (w: Self)
        ensures
            w.0 == bytes,
    {
        Self(bytes)
    }

    #[must_use]
    pub fn as_bytes(&self) -> (b: &[u8; 32])
        ensures
            *b == self.0,
    {
        &self.0
    }

    /// The value held by a byte string of exactly 32 bytes; a byte
    /// string of any other length is refused.
    pub fn from_byte_string(bytes: &[u8]) -> (r: Result<Self, ByteStringError>)
        ensures
            r is Ok <==> bytes@.len() == FLOAT_LEN,
            match r {
                Ok(w) => decode_byte_string(FLOAT_LEN, bytes@) == Ok::<Seq<u8>, ByteStringError>(w@),
                Err(e) => decode_byte_string(FLOAT_LEN, bytes@) == Err::<Seq<u8>, ByteStringError>(e),
            },
    {
        match array_from_byte_string::<32>(bytes) {
            Ok(a) => Ok(Self(a)),
            Err(e) => Err(e),
        }
    }
}

impl PartialEq for WireFloat {
    /// Equal exactly when every byte agrees.
    fn eq(&self, other: &Self) -> (r: bool)
        ensures
            r == (forall|i: int| 0 <= i < 32 ==> self.0[i] == other.0[i]),
    {
        let r = arrays_equal(&self.0, &other.0);
        proof {
            if forall|i: int| 0 <= i < 32 ==> self.0[i] == other.0[i] {
                assert(self.0@ =~= other.0@);
            }
        }
        r
    }
}

impl PartialEqSpecImpl for WireFloat {
    open spec fn obeys_eq_spec() -> bool {
        true
    }

    open spec fn eq_spec(&self, other: &Self) -> bool {
        self@ == other@
    }
}

impl Default for WireFloat {
    /// The all-zero value.
    fn default() -> (w: Self)
        ensures
            forall|i: int| 0 <= i < FLOAT_LEN ==> w.0[i] == 0,
    {
        Self([0u8; 32])
    }
}

impl From<[u8; 32]> for WireFloat {
    fn from(bytes: [u8; 32]) -> (w: Self)
        ensures
            w.0 == bytes,
    {
        Self(bytes)
    }
}

impl FromSpecImpl<[u8; 32]> for WireFloat {
    open spec fn obeys_from_spec() -> bool {
        true
    }

    open spec fn from_spec(bytes: [u8; 32]) -> Self {
        WireFloat(bytes)
    }
}

impl From<WireFloat> for [u8; 32] {
    fn from(w: WireFloat) -> (bytes: Self)
        ensures
            bytes == w.0,
    {
        w.0
    }
}

impl FromSpecImpl<WireFloat> for [u8; 32] {
    open spec fn obeys_from_spec() -> bool {
        true
    }

    open spec fn from_spec(w: WireFloat) -> Self {
        w.0
    }
}

/// Two floats are equal exactly when they agree in every one of their
/// 32 bytes.
pub proof fn lemma_float_equality(a: WireFloat, b: WireFloat)
    ensures
        PartialEqSpec::eq_spec(&a, &b) <==> (forall|i: int| 0 <= i < 32 ==> a.0[i] == b.0[i]),
        PartialEqSpec::eq_spec(&a, &b) <==> a == b,
{
    if forall|i: int| 0 <= i < 32 ==> a.0[i] == b.0[i] {
        assert(a@ =~= b@);
        assert(a.0 =~= b.0);
    }
}

/// Converting a byte array into a value keeps every byte as it is, and
/// converting the value back gives the same array.
pub proof fn lemma_float_from_bytes(bytes: [u8; 32], w: WireFloat)
    ensures
        <WireFloat as FromSpec<[u8; 32]>>::from_spec(bytes).0 == bytes,
        <[u8; 32] as FromSpec<WireFloat>>::from_spec(w) == w.0,
        <[u8; 32] as FromSpec<WireFloat>>::from_spec(
            <WireFloat as FromSpec<[u8; 32]>>::from_spec(bytes),
        ) == bytes,
{
}

} // verus!
