use st0x_pricing_types::trading_state::{
    check_schema_version, CalendarEvidence, EligibleSessions, Environment, IntervalId,
    QuoteAvailability, QuoteUnavailableReason, Revision, Schedule, ScopeId, TradingInterval,
    TradingScope, TradingState, UnixMillis, UnknownReason, NONPOSITIVE_TIMESTAMP, SCHEMA_VERSION,
    UNSUPPORTED_SCHEMA_VERSION,
};

#[test]
fn unsupported_schema_versions_are_refused() {
    for version in [0, SCHEMA_VERSION + 1] {
        let error = check_schema_version(version).unwrap_err();
        assert!(error.contains("unsupported trading schedule schema version"));
        assert_eq!(error, UNSUPPORTED_SCHEMA_VERSION);
    }
    assert_eq!(check_schema_version(1), Ok(1));
    assert_eq!(check_schema_version(u16::MAX), Err(UNSUPPORTED_SCHEMA_VERSION));
}

#[test]
fn timestamps_refuse_nonpositive_values() {
    for value in [0i64, -1, i64::MIN] {
        assert_eq!(UnixMillis::try_from(value), Err("timestamp must be positive"));
    }
    assert_eq!(UnixMillis::try_from(123).unwrap().get(), 123);
    assert_eq!(UnixMillis::try_from(1).unwrap().get(), 1);
    assert_eq!(UnixMillis::try_from(i64::MAX).unwrap().get(), i64::MAX);
    assert_eq!(NONPOSITIVE_TIMESTAMP, "timestamp must be positive");
}

#[test]
fn timestamp_converts_back_to_its_millis() {
    let t: UnixMillis = 150.try_into().unwrap();
    assert_eq!(i64::from(t), 150);
    let ms: i64 = t.into();
    assert_eq!(ms, 150);
}

#[test]
fn timestamps_order_by_millis() {
    let a: UnixMillis = 100.try_into().unwrap();
    let b: UnixMillis = 200.try_into().unwrap();
    assert!(a < b);
    assert!(b > a);
    assert!(a <= a && a >= a);
    assert_eq!(a.partial_cmp(&b), Some(std::cmp::Ordering::Less));
    assert_eq!(b.partial_cmp(&a), Some(std::cmp::Ordering::Greater));
    assert_eq!(a.partial_cmp(&a), Some(std::cmp::Ordering::Equal));
    for (x, y) in [(1i64, 2i64), (5, 5), (i64::MAX, 1)] {
        let (ux, uy) = (UnixMillis::try_from(x).unwrap(), UnixMillis::try_from(y).unwrap());
        assert_eq!(ux.cmp(&uy), x.cmp(&y));
        assert_eq!(ux.partial_cmp(&uy), x.partial_cmp(&y));
    }
    assert_eq!(a, UnixMillis::try_from(100).unwrap());
    assert_ne!(a, b);
}

fn interval(id: &str, opens: i64, cutoff: i64, close: i64) -> TradingInterval {
    TradingInterval {
        id: IntervalId(id.into()),
        opens_at: opens.try_into().unwrap(),
        execution_cutoff: cutoff.try_into().unwrap(),
        hedge_close: close.try_into().unwrap(),
    }
}

#[test]
fn trading_state_holds_what_it_was_built_from() {
    let state = TradingState {
        schema_version: SCHEMA_VERSION,
        environment: Environment::Production,
        scope: TradingScope {
            id: ScopeId("us-equities".into()),
            profile_revision: Revision("profile-1".into()),
            sessions: EligibleSessions::Extended,
            assets: vec!["AAPL".into()],
        },
        policy_revision: Revision("policy-1".into()),
        observed_at: 150.try_into().unwrap(),
        valid_until: 190.try_into().unwrap(),
        calendar: Some(CalendarEvidence {
            fetched_at: 90.try_into().unwrap(),
            coverage_start: 100.try_into().unwrap(),
            coverage_end: 600.try_into().unwrap(),
            revision: Revision("calendar-1".into()),
        }),
        schedule: Schedule::Open { current: interval("alpaca:100", 100, 200, 300), next: None },
        quote_availability: QuoteAvailability::Available,
    };
    assert_eq!(state.clone(), state);
    let closed = TradingState {
        calendar: None,
        schedule: Schedule::Closed {
            previous: Some(interval("alpaca:100", 100, 200, 300)),
            next: Some(interval("alpaca:400", 400, 500, 600)),
        },
        quote_availability: QuoteAvailability::Unavailable {
            reason: QuoteUnavailableReason::ScheduledClosure,
        },
        ..state.clone()
    };
    assert_ne!(closed, state);
    assert_ne!(
        Schedule::Unknown { reason: UnknownReason::CalendarStale },
        Schedule::Unknown { reason: UnknownReason::CalendarUnavailable }
    );
}
