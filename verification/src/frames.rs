//! The frames and quotes that travel between the pricing service and its
//! consumers.

use vstd::prelude::*;
use crate::address::WireAddress;
use crate::float::WireFloat;
use crate::u256::WireU256;

verus! {

#[derive(Debug, Clone, Copy, PartialEq, Eq, Hash, Structural)]
pub enum Venue {
    Bebop,
    Raindex,
    Hook,
}

/// The lowercase name of a venue, the one it is shown and tagged by.
pub open spec fn venue_name(v: Venue) -> Seq<char> {
    match v {
        Venue::Bebop => seq!['b', 'e', 'b', 'o', 'p'],
        Venue::Raindex => seq!['r', 'a', 'i', 'n', 'd', 'e', 'x'],
        Venue::Hook => seq!['h', 'o', 'o', 'k'],
    }
}

impl Venue {
    /// The venue's lowercase name: `bebop`, `raindex` or `hook`.
    pub fn as_str(&self) -> (s: &'static str)
        ensures
            s@ == venue_name(*self),
    {
        match self {
            Venue::Bebop => {
                proof {
                    reveal_strlit("bebop");
                }
                "bebop"
            },
            Venue::Raindex => {
                proof {
                    reveal_strlit("raindex");
                }
                "raindex"
            },
            Venue::Hook => {
                proof {
                    reveal_strlit("hook");
                }
                "hook"
            },
        }
    }
}

/// Each venue has a name of its own: two venues with the same name are
/// the same venue.
pub proof fn lemma_venue_names_distinct(a: Venue, b: Venue)
    ensures
        venue_name(a) == venue_name(b) <==> a == b,
{
    if a != b {
        match (a, b) {
            (Venue::Bebop, Venue::Raindex) | (Venue::Raindex, Venue::Bebop) => {
                assert(venue_name(a).len() != venue_name(b).len());
            },
            (Venue::Bebop, Venue::Hook) | (Venue::Hook, Venue::Bebop) => {
                assert(venue_name(a)[0] != venue_name(b)[0]);
            },
            _ => {
                assert(venue_name(a).len() != venue_name(b).len());
            },
        }
    }
}

#[derive(Debug, Clone, Copy, PartialEq, Eq, Structural)]
pub enum ErrorCode {
    StaleSource,
    UnknownAsset,
    ModelError,
    Internal,
}

/// Symbol = uppercase Alpaca ticker (`COIN`, `TSLA`, ...).
pub type Symbol = String;

/// A single directional-rate quote for an asset, signed off by the model.
///
/// The model emits two independent rates — one per swap direction — both
/// already incorporating whatever spread policy the model chose. Neither
/// rate is "the price": each is the price the model would honour for an
/// input of the named token going to an output of the other.
///
/// * `rate_base_to_quote`: amount of `quote` you receive per 1 unit of
///   `base` input. (Whole-token units; the wire float is unit-free.)
/// * `rate_quote_to_base`: amount of `base` you receive per 1 unit of
///   `quote` input.
///
/// Consumers must NOT invert one to derive the other — that would treat
/// the model's spread as if it were symmetric and discard the per-direction
/// decision.
///
/// `base` is the asset's on-chain token; `quote` is the settlement
/// currency (e.g. USDC on Base).
#[derive(Debug, Clone)]
pub struct Quote {
    pub asset: Symbol,
    pub chain_id: u64,
    pub base: WireAddress,
    pub quote: WireAddress,
    pub rate_base_to_quote: WireFloat,
    pub rate_quote_to_base: WireFloat,
    pub expiry_unix_ms: i64,
    pub source_ts_unix_ms: i64,
    /// NAV ratio of the wt vault backing `base`, as the raw `uint256`
    /// returned by the vault's `convertToAssets(1 share)`. Zero is the
    /// sentinel for "no ratio": `base` is not a vault token and no
    /// settlement assertion applies. A consumer that knows `base` IS a
    /// vault token must treat zero as an upstream fault.
    pub nav_ratio: WireU256,
    /// Trading session this quote was priced in: `"rth"`, `"premarket"`
    /// or `"afterhours"`. `None` means the producer says nothing about
    /// the session; a consumer that does not recognise the tag must
    /// refuse the quote.
    pub session: Option<String>,
    /// Start of [`Self::session`] in UTC milliseconds since the epoch.
    /// The three session fields are all-or-nothing as a contract; a
    /// partial statement is a fault the consumer must refuse.
    pub session_start_unix_ms: Option<i64>,
    /// End of [`Self::session`] in UTC milliseconds since the epoch: the
    /// same boundary [`Self::expiry_unix_ms`] is clamped to. A consumer
    /// must refuse a quote whose session end is already in the past.
    pub session_end_unix_ms: Option<i64>,
}

/// A coherent point-in-time snapshot of multiple assets for a venue.
#[derive(Debug, Clone)]
pub struct Snapshot {
    pub snapshot_ts_unix_ms: i64,
    pub venue: Venue,
    pub model_version: String,
    pub prices: Vec<Quote>,
}

#[derive(Debug, Clone)]
pub enum ServerFrame {
    Price(PriceFrame),
    Error(ErrorFrame),
    Ping(PingFrame),
    Halt(HaltFrame),
}

#[derive(Debug, Clone)]
pub enum ClientFrame {
    Subscribe(SubscribeFrame),
    Unsubscribe(UnsubscribeFrame),
    Pong(PongFrame),
}

/// A live price push for one asset on one venue. The two rates are per-
/// direction for the pair `(base, quote)` on `chain_id` — see [`Quote`]
/// for the semantics and why consumers must not invert one to derive the
/// other.
#[derive(Debug, Clone)]
pub struct PriceFrame {
    pub asset: Symbol,
    pub venue: Venue,
    pub chain_id: u64,
    pub base: WireAddress,
    pub quote: WireAddress,
    pub rate_base_to_quote: WireFloat,
    pub rate_quote_to_base: WireFloat,
    pub expiry_unix_ms: i64,
    pub model_version: String,
    pub source_ts_unix_ms: i64,
    /// NAV ratio of the wt vault backing `base` — see [`Quote::nav_ratio`].
    pub nav_ratio: WireU256,
    /// Trading session this frame was priced in — see [`Quote::session`].
    pub session: Option<String>,
    /// Start of `session` in UTC milliseconds.
    pub session_start_unix_ms: Option<i64>,
    /// End of `session` in UTC milliseconds.
    pub session_end_unix_ms: Option<i64>,
}

#[derive(Debug, Clone)]
pub struct ErrorFrame {
    pub code: ErrorCode,
    pub asset: Option<Symbol>,
    pub last_ok_unix_ms: Option<i64>,
    pub detail: Option<String>,
}

/// Explicit per-asset quote halt. Pushed when an asset's halt state
/// changes, and once per subscribed asset on subscribe. Consumers MUST
/// honour a halt by not quoting the asset until a frame with
/// `halted = false` arrives.
#[derive(Debug, Clone)]
pub struct HaltFrame {
    pub asset: Symbol,
    pub chain_id: u64,
    pub base: WireAddress,
    pub quote: WireAddress,
    pub halted: bool,
    pub reason: Option<String>,
}

#[derive(Debug, Clone)]
pub struct PingFrame {
    pub ts_unix_ms: i64,
}

#[derive(Debug, Clone)]
pub struct PongFrame {
    pub ts_unix_ms: i64,
}

#[derive(Debug, Clone)]
pub struct SubscribeFrame {
    pub consumer: String,
    pub assets: Vec<Symbol>,
}

#[derive(Debug, Clone)]
pub struct UnsubscribeFrame {
    pub assets: Vec<Symbol>,
}

} // verus!
