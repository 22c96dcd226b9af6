//! Fixed-length byte strings: the decoding rules shared by every
//! fixed-width wire value (addresses, floats and raw `uint256`s).
//!
//! A fixed-width value travels as one byte string of exactly `N` bytes.
//! Some encoders hand the same bytes over as a sequence of `u8`
//! elements instead; [`ByteSeqDecoder`] takes such a sequence one
//! element at a time and accepts it only when it holds exactly `N`
//! elements.

use vstd::prelude::*;

verus! {

/// Why a byte string or a byte sequence was refused.
#[derive(Debug, Clone, Copy, PartialEq, Eq, Structural)]
pub enum ByteStringError {
    /// A byte string of `got` bytes where exactly `expected` were wanted.
    WrongLength { expected: usize, got: usize },
    /// A byte sequence that ended before `need` elements arrived.
    ShortSequence { need: usize },
    /// A byte sequence that held more than `need` elements.
    LongSequence { need: usize },
}

/// What decoding the byte string `bytes` as an `n`-byte value yields.
pub open spec fn decode_byte_string(n: usize, bytes: Seq<u8>) -> Result<Seq<u8>, ByteStringError> {
    if bytes.len() == n {
        Ok(bytes)
    } else {
        Err(ByteStringError::WrongLength { expected: n, got: bytes.len() as usize })
    }
}

/// The bytes of a decoded array, or the error that refused it.
pub open spec fn array_result_view<const N: usize>(r: Result<[u8; N], ByteStringError>) -> Result<Seq<u8>, ByteStringError> {
    match r {
        Ok(a) => Ok(a@),
        Err(e) => Err(e),
    }
}

/// Copies a byte string of exactly `N` bytes into an array; any other
/// length is refused with [`ByteStringError::WrongLength`].
pub fn array_from_byte_string<const N: usize>(bytes: &[u8]) -> (r: Result<[u8; N], ByteStringError>)
    ensures
        r is Ok <==> bytes@.len() == N,
        array_result_view(r) == decode_byte_string(N, bytes@),
{
    if bytes.len() != N {
        return Err(ByteStringError::WrongLength { expected: N, got: bytes.len() });
    }
    let mut out: [u8; N] = [0u8; N];
    let mut i: usize = 0;
    while i < N
        invariant
            bytes@.len() == N,
            0 <= i <= N,
            forall|j: int| 0 <= j < i ==> out@[j] == bytes@[j],
        decreases N - i,
    {
        out[i] = bytes[i];
        i = i + 1;
    }
    assert(out@ =~= bytes@);
    Ok(out)
}


/// Whether two `N`-byte values hold the same bytes.
pub fn arrays_equal<const N: usize>(a: &[u8; N], b: &[u8; N]) -> (r: bool)
    ensures
        r == (a@ == b@),
{
    let mut i: usize = 0;
    while i < N
        invariant
            0 <= i <= N,
            a@.len() == N,
            b@.len() == N,
            forall|j: int| 0 <= j < i ==> a@[j] == b@[j],
        decreases N - i,
    {
        if a[i] != b[i] {
            return false;
        }
        i = i + 1;
    }
    assert(a@ =~= b@);
    true
}

/// What an `n`-element decoder that has received `received` decides on
/// the next element of the sequence (`None` marks its end): `None` while
/// it waits for more, `Some` once it has accepted or refused.
pub open spec fn step_outcome(n: usize, received: Seq<u8>, element: Option<u8>) -> Option<
    Result<Seq<u8>, ByteStringError>,
> {
    match element {
        Some(_) => if received.len() < n {
            None
        } else {
            Some(Err(ByteStringError::LongSequence { need: n }))
        },
        None => if received.len() < n {
            Some(Err(ByteStringError::ShortSequence { need: n }))
        } else {
            Some(Ok(received))
        },
    }
}

/// What an `n`-element decoder holds after it took `element` while it
/// waited for more: the element is kept only while the decoder waits.
pub open spec fn received_after(n: usize, received: Seq<u8>, element: Option<u8>) -> Seq<u8> {
    match element {
        Some(b) => if received.len() < n {
            received.push(b)
        } else {
            received
        },
        None => received,
    }
}

/// What feeding the elements `elements` in order to an `n`-element
/// decoder that has received `received` decides, or `None` if it is
/// still waiting when they run out.
pub open spec fn decode_elements(n: usize, received: Seq<u8>, elements: Seq<Option<u8>>) -> Option<
    Result<Seq<u8>, ByteStringError>,
>
    decreases elements.len(),
{
    if elements.len() == 0 {
        None
    } else {
        match step_outcome(n, received, elements[0]) {
            None => decode_elements(
                n,
                received_after(n, received, elements[0]),
                elements.drop_first(),
            ),
            Some(r) => Some(r),
        }
    }
}

/// The answer of one [`ByteSeqDecoder::feed`].
#[derive(Debug, Clone, Copy, PartialEq, Eq)]
pub enum SeqStep<const N: usize> {
    /// Fewer than `N` elements so far: the decoder needs the next one.
    NeedMore,
    /// Exactly `N` elements followed by the end of the sequence.
    Done([u8; N]),
    /// The sequence ended early or ran long.
    Failed(ByteStringError),
}

/// The decision a step reports, over the bytes it carries.
pub open spec fn step_view<const N: usize>(step: SeqStep<N>) -> Option<Result<Seq<u8>, ByteStringError>> {
    match step {
        SeqStep::NeedMore => None,
        SeqStep::Done(a) => Some(Ok(a@)),
        SeqStep::Failed(e) => Some(Err(e)),
    }
}

/// Decodes an `N`-byte value handed over as a sequence of `u8`
/// elements, one element at a time.
pub struct ByteSeqDecoder<const N: usize> {
    received: Vec<u8>,
}

impl<const N: usize> View for ByteSeqDecoder<N> {
    type V = Seq<u8>;

    /// The elements received so far, in order.
    closed spec fn view(&self) -> Seq<u8> {
        self.received@
    }
}

impl<const N: usize> ByteSeqDecoder<N> {
    /// A decoder never holds more than `N` elements.
    pub closed spec fn wf(&self) -> bool {
        self.received@.len() <= N
    }

    /// A decoder that has received nothing yet.
    pub fn new() -> (d: Self)
        ensures
            d.wf(),
            d@ == Seq::<u8>::empty(),
    {
        ByteSeqDecoder { received: Vec::new() }
    }

    /// Takes the next element of the sequence, `None` for its end, and
    /// says whether the value is complete, still needs elements, or is
    /// refused.
    pub fn feed(&mut self, element: Option<u8>) -> (step: SeqStep<N>)
        requires
            old(self).wf(),
        ensures
            final(self).wf(),
            step_view(step) == step_outcome(N, old(self)@, element),
            final(self)@ == received_after(N, old(self)@, element),
    {
        match element {
            Some(b) => {
                if self.received.len() < N {
                    self.received.push(b);
                    SeqStep::NeedMore
                } else {
                    SeqStep::Failed(ByteStringError::LongSequence { need: N })
                }
            },
            None => {
                if self.received.len() < N {
                    SeqStep::Failed(ByteStringError::ShortSequence { need: N })
                } else {
                    match array_from_byte_string::<N>(self.received.as_slice()) {
                        Ok(a) => SeqStep::Done(a),
                        Err(e) => SeqStep::Failed(e),
                    }
                }
            },
        }
    }
}


/// The elements of `bytes`, each present, followed by the end of the
/// sequence.
pub open spec fn as_elements(bytes: Seq<u8>) -> Seq<Option<u8>> {
    bytes.map_values(|b: u8| Some(b)).push(None)
}

/// The refusal or acceptance that a sequence of `total` elements meets
/// at an `n`-element decoder.
pub open spec fn sequence_verdict(n: usize, total: int, bytes: Seq<u8>) -> Result<Seq<u8>, ByteStringError> {
    if total == n {
        Ok(bytes)
    } else if total < n {
        Err(ByteStringError::ShortSequence { need: n })
    } else {
        Err(ByteStringError::LongSequence { need: n })
    }
}

proof fn lemma_decode_elements_from(n: usize, received: Seq<u8>, bytes: Seq<u8>)
    requires
        received.len() <= n,
    ensures
        decode_elements(n, received, as_elements(bytes)) == Some(
            sequence_verdict(n, (received.len() + bytes.len()) as int, received + bytes),
        ),
    decreases bytes.len(),
{
    let elements = as_elements(bytes);
    if bytes.len() == 0 {
        assert(elements.drop_first().len() == 0);
        assert(received + bytes =~= received);
    } else {
        assert(elements[0] == Some(bytes[0]));
        if received.len() < n {
            let next = received.push(bytes[0]);
            assert(elements.drop_first() =~= as_elements(bytes.drop_first()));
            lemma_decode_elements_from(n, next, bytes.drop_first());
            assert(next + bytes.drop_first() =~= received + bytes);
        }
    }
}

/// A byte sequence decodes to a value exactly when it holds `n`
/// elements, and the value's bytes are then those elements in order; a
/// shorter sequence is refused as short and a longer one as long.
pub proof fn lemma_sequence_decoding(n: usize, bytes: Seq<u8>)
    ensures
        decode_elements(n, Seq::empty(), as_elements(bytes)) == Some(
            sequence_verdict(n, bytes.len() as int, bytes),
        ),
{
    lemma_decode_elements_from(n, Seq::empty(), bytes);
    assert(Seq::<u8>::empty() + bytes =~= bytes);
}

/// Decoding the `n` bytes of a value as a byte string gives those bytes
/// back, and two byte strings that decode give the same value only when
/// they are the same bytes.
pub proof fn lemma_byte_string_round_trip(n: usize, bytes: Seq<u8>, other: Seq<u8>)
    requires
        bytes.len() == n,
    ensures
        decode_byte_string(n, bytes) == Ok::<Seq<u8>, ByteStringError>(bytes),
        decode_byte_string(n, other) == decode_byte_string(n, bytes) ==> other == bytes,
{
}

} // verus!
