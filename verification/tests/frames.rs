use st0x_pricing_types::{
    ClientFrame, PriceFrame, ServerFrame, SubscribeFrame, Venue, WireAddress,
    WireFloat, WireU256,
};

#[test]
fn venue_names_are_lowercase_and_distinct() {
    assert_eq!(Venue::Bebop.as_str(), "bebop");
    assert_eq!(Venue::Raindex.as_str(), "raindex");
    assert_eq!(Venue::Hook.as_str(), "hook");
    assert_ne!(Venue::Bebop.as_str(), Venue::Hook.as_str());
}

#[test]
fn price_frame_keeps_its_fields() {
    let frame = ServerFrame::Price(PriceFrame {
        asset: "COIN".into(),
        venue: Venue::Bebop,
        chain_id: 8453,
        base: WireAddress::from_bytes([0x11; 20]),
        quote: WireAddress::from_bytes([0x22; 20]),
        rate_base_to_quote: WireFloat::from_bytes([0x42; 32]),
        rate_quote_to_base: WireFloat::from_bytes([0x43; 32]),
        expiry_unix_ms: 1_715_000_030_000,
        model_version: "0.1.0".into(),
        source_ts_unix_ms: 1_714_999_970_000,
        nav_ratio: WireU256::zero(),
        session: Some("premarket".into()),
        session_start_unix_ms: None,
        session_end_unix_ms: Some(1_715_020_200_000),
    });
    match frame.clone() {
        ServerFrame::Price(p) => {
            assert_eq!(p.asset, "COIN");
            assert_eq!(p.venue, Venue::Bebop);
            assert!(p.nav_ratio.is_zero());
            assert_eq!(p.session.as_deref(), Some("premarket"));
            assert_eq!(p.session_start_unix_ms, None);
            assert_eq!(p.session_end_unix_ms, Some(1_715_020_200_000));
        }
        _ => panic!("wrong variant"),
    }
    let sub = ClientFrame::Subscribe(SubscribeFrame {
        consumer: "bebop".into(),
        assets: vec!["COIN".into(), "TSLA".into()],
    });
    match sub {
        ClientFrame::Subscribe(s) => assert_eq!(s.assets, vec!["COIN", "TSLA"]),
        _ => panic!("wrong variant"),
    }
}
