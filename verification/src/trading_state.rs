//! Authenticated HTTP schedule contract. A schedule is not broker execution permission.

use core::cmp::Ordering;
use vstd::prelude::*;
use vstd::std_specs::cmp::{PartialOrdIs, PartialOrdSpec, PartialOrdSpecImpl};
use vstd::std_specs::convert::{FromSpecImpl, TryFromSpecImpl};

verus! {

/// The one schema version of the trading schedule contract.
pub const SCHEMA_VERSION: u16 = 1;

/// Why a schema version is refused.
pub const UNSUPPORTED_SCHEMA_VERSION: &'static str = "unsupported trading schedule schema version";

/// Why a timestamp is refused.
pub const NONPOSITIVE_TIMESTAMP: &'static str = "timestamp must be positive";

/// A point in time in UTC Unix milliseconds; always positive.
#[derive(Debug, Clone, Copy, PartialEq, Eq, Ord, Structural)]
pub struct UnixMillis(i64);

impl UnixMillis {
    #[verifier::type_invariant]
    closed spec fn positive(self) -> bool {
        self.0 > 0
    }

    /// The milliseconds this timestamp holds.
    pub closed spec fn millis(self) -> i64 {
        self.0
    }

    /// The milliseconds, always positive.
    pub fn get(self) -> (ms: i64)
        ensures
            ms == self.millis(),
            ms > 0,
    {
        proof {
            use_type_invariant(&self);
        }
        self.0
    }
}

impl TryFrom<i64> for UnixMillis {
    type Error = &'static str;

    /// A positive number of milliseconds; zero and negative values are
    /// refused.
    fn try_from(value: i64) -> (r: Result<Self, Self::Error>)
        ensures
            r is Ok <==> value > 0,
            r matches Ok(t) ==> t.millis() == value,
            r matches Err(e) ==> e@ == NONPOSITIVE_TIMESTAMP@,
    {
        if value > 0 {
            Ok(Self(value))
        } else {
            Err(NONPOSITIVE_TIMESTAMP)
        }
    }
}

impl TryFromSpecImpl<i64> for UnixMillis {
    open spec fn obeys_try_from_spec() -> bool {
        true
    }

    closed spec fn try_from_spec(value: i64) -> Result<Self, &'static str> {
        if value > 0 {
            Ok(UnixMillis(value))
        } else {
            Err(NONPOSITIVE_TIMESTAMP)
        }
    }
}

impl From<UnixMillis> for i64 {
    fn from(value: UnixMillis) -> (ms: Self)
        ensures
            ms == value.millis(),
            ms > 0,
    {
        value.get()
    }
}

impl FromSpecImpl<UnixMillis> for i64 {
    open spec fn obeys_from_spec() -> bool {
        true
    }

    closed spec fn from_spec(value: UnixMillis) -> Self {
        value.0
    }
}

impl PartialOrd for UnixMillis {
    /// Timestamps order as their milliseconds do.
    fn partial_cmp(&self, other: &Self) -> (r: Option<Ordering>)
        ensures
            r == Some(millis_order(self.millis(), other.millis())),
    {
        if self.0 < other.0 {
            Some(Ordering::Less)
        } else if self.0 == other.0 {
            Some(Ordering::Equal)
        } else {
            Some(Ordering::Greater)
        }
    }
}

/// How two millisecond counts compare.
pub open spec fn millis_order(a: i64, b: i64) -> Ordering {
    if a < b {
        Ordering::Less
    } else if a == b {
        Ordering::Equal
    } else {
        Ordering::Greater
    }
}

impl PartialOrdSpecImpl for UnixMillis {
    open spec fn obeys_partial_cmp_spec() -> bool {
        true
    }

    closed spec fn partial_cmp_spec(&self, other: &Self) -> Option<Ordering> {
        Some(millis_order(self.0, other.0))
    }
}

/// Timestamps order exactly as their milliseconds do, so a comparison
/// such as `now < execution_cutoff` compares the instants themselves.
pub proof fn lemma_timestamp_order(a: UnixMillis, b: UnixMillis)
    ensures
        PartialOrdSpec::partial_cmp_spec(&a, &b) == Some(millis_order(a.millis(), b.millis())),
        a.is_lt(&b) <==> a.millis() < b.millis(),
        a.is_le(&b) <==> a.millis() <= b.millis(),
        a.is_gt(&b) <==> a.millis() > b.millis(),
        a.is_ge(&b) <==> a.millis() >= b.millis(),
{
}

/// Two timestamps are the same exactly when they hold the same
/// milliseconds.
pub proof fn lemma_timestamp_round_trip(a: UnixMillis, b: UnixMillis)
    ensures
        a.millis() == b.millis() <==> a == b,
{
}

#[derive(Debug, Clone, PartialEq, Eq)]
pub struct ScopeId(pub String);

#[derive(Debug, Clone, PartialEq, Eq)]
pub struct Revision(pub String);

#[derive(Debug, Clone, PartialEq, Eq)]
pub struct IntervalId(pub String);

#[derive(Debug, Clone, Copy, PartialEq, Eq, Structural)]
pub enum Environment {
    Staging,
    Production,
}

#[derive(Debug, Clone, Copy, PartialEq, Eq, Structural)]
pub enum EligibleSessions {
    Regular,
    Extended,
}

#[derive(Debug, Clone, PartialEq, Eq)]
pub struct TradingScope {
    pub id: ScopeId,
    pub profile_revision: Revision,
    pub sessions: EligibleSessions,
    pub assets: Vec<String>,
}

#[derive(Debug, Clone, PartialEq, Eq)]
pub struct TradingInterval {
    pub id: IntervalId,
    pub opens_at: UnixMillis,
    /// Exclusive execution boundary in UTC Unix milliseconds.
    /// Consumers must require `now_ms < execution_cutoff`; equality forbids execution.
    pub execution_cutoff: UnixMillis,
    pub hedge_close: UnixMillis,
}

#[derive(Debug, Clone, PartialEq, Eq)]
pub struct CalendarEvidence {
    pub fetched_at: UnixMillis,
    pub coverage_start: UnixMillis,
    pub coverage_end: UnixMillis,
    pub revision: Revision,
}

#[derive(Debug, Clone, Copy, PartialEq, Eq, Structural)]
pub enum UnknownReason {
    CalendarUnavailable,
    CalendarStale,
    InsufficientCoverage,
    InvalidCalendar,
}

#[derive(Debug, Clone, PartialEq, Eq)]
pub enum Schedule {
    Open { current: TradingInterval, next: Option<TradingInterval> },
    Draining { current: TradingInterval, next: Option<TradingInterval> },
    Closed { previous: Option<TradingInterval>, next: Option<TradingInterval> },
    Unknown { reason: UnknownReason },
}

#[derive(Debug, Clone, Copy, PartialEq, Eq, Structural)]
pub enum QuoteUnavailableReason {
    ScheduledClosure,
    CalendarUnavailable,
    PriceUnavailable,
    Maintenance,
}

#[derive(Debug, Clone, Copy, PartialEq, Eq, Structural)]
pub enum QuoteAvailability {
    Available,
    Unavailable { reason: QuoteUnavailableReason },
}

#[derive(Debug, Clone, PartialEq, Eq)]
pub struct TradingState {
    /// Always [`SCHEMA_VERSION`] on a decoded state: see [`check_schema_version`].
    pub schema_version: u16,
    pub environment: Environment,
    pub scope: TradingScope,
    pub policy_revision: Revision,
    pub observed_at: UnixMillis,
    pub valid_until: UnixMillis,
    pub calendar: Option<CalendarEvidence>,
    pub schedule: Schedule,
    pub quote_availability: QuoteAvailability,
}

/// Accepts a decoded schema version only when it is [`SCHEMA_VERSION`].
pub fn check_schema_version(version: u16) -> (r: Result<u16, &'static str>)
    ensures
        r is Ok <==> version == SCHEMA_VERSION,
        r matches Ok(v) ==> v == version,
        r matches Err(e) ==> e@ == UNSUPPORTED_SCHEMA_VERSION@,
{
    if version == SCHEMA_VERSION {
        Ok(version)
    } else {
        Err(UNSUPPORTED_SCHEMA_VERSION)
    }
}

} // verus!
