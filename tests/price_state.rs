use price_checker::{
    decode_response, price_url, quote_from_fields, FetchError, PriceState, Quote,
};

fn figures(q: Quote) -> (f64, f64, f64) {
    (
        f64::from_bits(q.price_bits),
        f64::from_bits(q.market_cap_bits),
        f64::from_bits(q.volume_bits),
    )
}

#[test]
fn bitcoin_reply_sets_quote() {
    let body = r#"{"bitcoin":{"usd":50000.1234,"usd_market_cap":1000000000.0,"usd_24h_vol":50000000.0}}"#;
    let mut s = PriceState::new();
    s.set_token("bitcoin");
    let token = s.try_begin_fetch().expect("guard is free");
    assert_eq!(token, "bitcoin");
    let outcome = decode_response(body, &token);
    s.finish_fetch(outcome);
    assert_eq!(figures(s.quote()), (50000.1234, 1e9, 5e7));
    assert_eq!(format!("Price: ${:.4}", figures(s.quote()).0), "Price: $50000.1234");
    assert!(!s.is_fetching());
}

#[test]
fn doge_empty_entry_fails_and_zeroes() {
    let mut s = PriceState::new();
    s.finish_fetch(Ok(quote_from_fields(Some(7), Some(8), Some(9)).unwrap()));
    s.set_token("doge");
    let token = s.try_begin_fetch().unwrap();
    let outcome = decode_response(r#"{"doge":{}}"#, &token);
    assert_eq!(outcome, Err(FetchError::MissingField));
    s.finish_fetch(outcome);
    assert_eq!(s.quote(), Quote::zero());
    assert_eq!(figures(s.quote()), (0.0, 0.0, 0.0));
}

#[test]
fn second_trigger_in_flight_is_dropped() {
    let mut s = PriceState::new();
    s.set_token("bitcoin");
    let mut calls = 0;
    if s.try_begin_fetch().is_some() {
        calls += 1;
    }
    if s.try_begin_fetch().is_some() {
        calls += 1;
    }
    assert_eq!(calls, 1);
    assert!(s.is_fetching());
    s.finish_fetch(Err(FetchError::Network));
    assert!(!s.is_fetching());
    assert!(s.try_begin_fetch().is_some());
}

#[test]
fn busy_request_leaves_state_unchanged() {
    let mut s = PriceState::new();
    s.finish_fetch(Ok(quote_from_fields(Some(1), None, None).unwrap()));
    s.try_begin_fetch().unwrap();
    let before = s.quote();
    assert_eq!(s.try_begin_fetch(), None);
    assert_eq!(s.quote(), before);
    assert!(s.is_fetching());
}

#[test]
fn guard_released_after_each_outcome() {
    let mut s = PriceState::new();
    let outcomes = vec![
        Ok(quote_from_fields(Some(3), Some(4), Some(5)).unwrap()),
        Err(FetchError::Network),
        Err(FetchError::Decode),
        Err(FetchError::MissingField),
    ];
    for o in outcomes {
        assert!(s.try_begin_fetch().is_some());
        s.finish_fetch(o);
        assert!(!s.is_fetching());
    }
    assert_eq!(s.quote(), Quote::zero());
}

#[test]
fn toggle_on_starts_exactly_one_loop() {
    let mut s = PriceState::new();
    assert!(!s.try_start_loop());
    s.toggle_auto_update();
    assert!(s.auto_update_enabled());
    assert!(s.try_start_loop());
    assert!(s.loop_running());
    assert!(!s.try_start_loop());
    assert!(s.loop_should_continue());
    assert!(s.loop_running());
}

#[test]
fn toggle_off_stops_loop_at_next_check() {
    let mut s = PriceState::new();
    s.toggle_auto_update();
    assert!(s.try_start_loop());
    s.toggle_auto_update();
    assert!(!s.auto_update_enabled());
    assert!(s.loop_running());
    assert!(!s.loop_should_continue());
    assert!(!s.loop_running());
    s.toggle_auto_update();
    assert!(s.try_start_loop());
}

#[test]
fn absent_cap_and_volume_read_as_zero() {
    let q = decode_response(r#"{"eth":{"usd":2500.5}}"#, "eth").unwrap();
    assert_eq!(figures(q), (2500.5, 0.0, 0.0));
    assert_eq!(q.market_cap_bits, 0);
    assert_eq!(q.volume_bits, 0);
}

#[test]
fn integer_figures_decode() {
    let q = decode_response(r#"{"eth":{"usd":3,"usd_market_cap":12,"usd_24h_vol":0}}"#, "eth").unwrap();
    assert_eq!(figures(q), (3.0, 12.0, 0.0));
}

#[test]
fn malformed_body_is_decode_error() {
    assert_eq!(decode_response("not json", "bitcoin"), Err(FetchError::Decode));
    assert_eq!(decode_response("", "bitcoin"), Err(FetchError::Decode));
}

#[test]
fn missing_token_key_is_missing_field() {
    assert_eq!(decode_response(r#"{"bitcoin":{"usd":1.0}}"#, "doge"), Err(FetchError::MissingField));
    assert_eq!(decode_response("{}", ""), Err(FetchError::MissingField));
    assert_eq!(decode_response("[1,2]", "bitcoin"), Err(FetchError::MissingField));
}

#[test]
fn non_number_usd_is_missing_field() {
    assert_eq!(decode_response(r#"{"x":{"usd":"12"}}"#, "x"), Err(FetchError::MissingField));
    assert_eq!(decode_response(r#"{"x":{"usd":null,"usd_market_cap":5}}"#, "x"), Err(FetchError::MissingField));
}

#[test]
fn non_number_cap_reads_as_zero() {
    let q = decode_response(r#"{"x":{"usd":1.5,"usd_market_cap":"big","usd_24h_vol":2}}"#, "x").unwrap();
    assert_eq!(figures(q), (1.5, 0.0, 2.0));
}

#[test]
fn fields_build_quote() {
    assert_eq!(
        quote_from_fields(Some(10), Some(20), Some(30)),
        Ok(Quote { price_bits: 10, market_cap_bits: 20, volume_bits: 30 })
    );
    assert_eq!(
        quote_from_fields(Some(10), None, Some(30)),
        Ok(Quote { price_bits: 10, market_cap_bits: 0, volume_bits: 30 })
    );
    assert_eq!(quote_from_fields(None, Some(20), Some(30)), Err(FetchError::MissingField));
}

#[test]
fn url_names_token() {
    assert_eq!(
        price_url("bitcoin"),
        "https://api.coingecko.com/api/v3/simple/price?ids=bitcoin&vs_currencies=usd&include_market_cap=true&include_24hr_vol=true"
    );
}

#[test]
fn new_state_is_empty() {
    let mut s = PriceState::new();
    assert_eq!(s.token(), "");
    assert_eq!(s.quote(), Quote::zero());
    assert!(!s.auto_update_enabled());
    assert!(!s.is_fetching());
    assert!(!s.loop_running());
    s.set_token("solana");
    assert_eq!(s.token(), "solana");
}

#[test]
fn same_reply_decodes_alike() {
    let body = r#"{"bitcoin":{"usd":1.25,"usd_24h_vol":9.5}}"#;
    let first = decode_response(body, "bitcoin");
    let second = decode_response(body, "bitcoin");
    assert_eq!(first, second);
    assert_eq!(figures(first.unwrap()), (1.25, 0.0, 9.5));
}
