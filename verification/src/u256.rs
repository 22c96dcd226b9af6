//! `WireU256` — a raw EVM `uint256` on the wire.
//!
//! 32 big-endian bytes, carried bit-for-bit: no decimal parse, no float
//! anywhere. The all-zero value is the sentinel for "no value" (see
//! [`WireU256::is_zero`]). Decoding accepts exactly 32 bytes, whether
//! they come as one byte string or as a sequence of 32 `u8` elements
//! (see [`crate::byte_string`]).

use vstd::prelude::*;
use vstd::std_specs::cmp::{PartialEqSpec, PartialEqSpecImpl};
use vstd::std_specs::convert::{FromSpec, FromSpecImpl};
use crate::byte_string::{array_from_byte_string, arrays_equal, decode_byte_string, ByteStringError};

verus! {

/// The number of bytes of a raw `uint256`.
pub const U256_LEN: usize = 32;

/// A raw EVM `uint256`, carried as its 32 big-endian bytes.
#[derive(Debug, Clone, Copy, Eq, Hash)]
pub struct WireU256(pub [u8; 32]);

impl View for WireU256 {
    type V = Seq<u8>;

    open spec fn view(&self) -> Seq<u8> {
        self.0@
    }
}

impl WireU256 {
    /// Every byte is zero: the value is the zero sentinel.
    pub open spec fn all_zero(self) -> bool {
        forall|i: int| 0 <= i < U256_LEN ==> self.0[i] == 0
    }

    /// The zero sentinel: no value.
    #[must_use]
    pub fn zero() -> (w: Self)
        ensures
            w.all_zero(),
    {
        Self([0u8; 32])
    }

    #[must_use]
    pub fn from_bytes(bytes: [u8; 32]) -> (w: Self)
        ensures
            w.0 == bytes,
    {
        Self(bytes)
    }

    #[must_use]
    pub fn as_bytes(&self) -> (b: &[u8; 32])
        ensures
            *b == self.0,
    {
        &self.0
    }

    /// `true` iff the value is the zero sentinel.
    #[must_use]
    pub fn is_zero(&self) -> (r: bool)
        ensures
            r == self.all_zero(),
    {
        let mut i: usize = 0;
        while i < 32
            invariant
                0 <= i <= 32,
                forall|j: int| 0 <= j < i ==> self.0[j] == 0,
            decreases 32 - i,
        {
            if self.0[i] != 0 {
                return false;
            }
            i = i + 1;
        }
        true
    }

    /// The value held by a byte string of exactly 32 bytes; a byte
    /// string of any other length is refused.
    pub fn from_byte_string(bytes: &[u8]) -> (r: Result<Self, ByteStringError>)
        ensures
            r is Ok <==> bytes@.len() == U256_LEN,
            match r {
                Ok(w) => decode_byte_string(U256_LEN, bytes@) == Ok::<Seq<u8>, ByteStringError>(w@),
                Err(e) => decode_byte_string(U256_LEN, bytes@) == Err::<Seq<u8>, ByteStringError>(e),
            },
    {
        match array_from_byte_string::<32>(bytes) {
            Ok(a) => Ok(Self(a)),
            Err(e) => Err(e),
        }
    }
}

impl PartialEq for WireU256 {
    /// Equal exactly when every byte agrees.
    fn eq(&self, other: &Self) -> (r: bool)
        ensures
            r == (forall|i: int| 0 <= i < 32 ==> self.0[i] == other.0[i]),
    {
        let r = arrays_equal(&self.0, &other.0);
        proof {
            if forall|i: int| 0 <= i < 32 ==> self.0[i] == other.0[i] {
                assert(self.0@ =~= other.0@);
            }
        }
        r
    }
}

impl PartialEqSpecImpl for WireU256 {
    open spec fn obeys_eq_spec() -> bool {
        true
    }

    open spec fn eq_spec(&self, other: &Self) -> bool {
        self@ == other@
    }
}

impl Default for WireU256 {
    /// The all-zero value.
    fn default() -> (w: Self)
        ensures
            w.all_zero(),
    {
        Self([0u8; 32])
    }
}

impl From<[u8; 32]> for WireU256 {
    fn from(bytes: [u8; 32]) -> (w: Self)
        ensures
            w.0 == bytes,
    {
        Self(bytes)
    }
}

impl FromSpecImpl<[u8; 32]> for WireU256 {
    open spec fn obeys_from_spec() -> bool {
        true
    }

    open spec fn from_spec(bytes: [u8; 32]) -> Self {
        WireU256(bytes)
    }
}

impl From<WireU256> for [u8; 32] {
    fn from(w: WireU256) -> (bytes: Self)
        ensures
            bytes == w.0,
    {
        w.0
    }
}

impl FromSpecImpl<WireU256> for [u8; 32] {
    open spec fn obeys_from_spec() -> bool {
        true
    }

    open spec fn from_spec(w: WireU256) -> Self {
        w.0
    }
}

/// There is one zero sentinel: two values that are both all zero hold
/// the same bytes, so the default value is the zero sentinel.
pub proof fn lemma_zero_sentinel_unique(a: WireU256, b: WireU256)
    requires
        a.all_zero(),
        b.all_zero(),
    ensures
        a@ == b@,
{
    assert(a@ =~= b@);
}

/// Two values are equal exactly when they agree in every one of their
/// 32 bytes.
pub proof fn lemma_u256_equality(a: WireU256, b: WireU256)
    ensures
        PartialEqSpec::eq_spec(&a, &b) <==> (forall|i: int| 0 <= i < 32 ==> a.0[i] == b.0[i]),
        PartialEqSpec::eq_spec(&a, &b) <==> a == b,
{
    if forall|i: int| 0 <= i < 32 ==> a.0[i] == b.0[i] {
        assert(a@ =~= b@);
        assert(a.0 =~= b.0);
    }
}

/// Converting a byte array into a value keeps every byte as it is, and
/// converting the value back gives the same array.
pub proof fn lemma_u256_from_bytes(bytes: [u8; 32], w: WireU256)
    ensures
        <WireU256 as FromSpec<[u8; 32]>>::from_spec(bytes).0 == bytes,
        <[u8; 32] as FromSpec<WireU256>>::from_spec(w) == w.0,
        <[u8; 32] as FromSpec<WireU256>>::from_spec(
            <WireU256 as FromSpec<[u8; 32]>>::from_spec(bytes),
        ) == bytes,
{
}

} // verus!
