use black76::bytes::{read_be, write_word};
use black76::decimal::{decimals, scaled_integer};
use black76::ieee::{less_or_equal, less_than, nan};
use black76::{
    branch, calculate_black76, clamp, compute, delta, extract_arguments, parse_request, prices,
    prices_delta, saturating_word, encode_word, select_operation, zero_word, Arguments, Branch, Error,
    Operation, Quote, Words, BLACK76_DELTA_SELECTOR, BLACK76_PRICES_DELTA_SELECTOR,
    BLACK76_PRICES_SELECTOR,
};
use num_bigfloat::BigFloat;

fn block(expiry: u32, discount: u64, vol: u128, fwd: u128, strike: u128, exponent: i8) -> Vec<u8> {
    let mut v = Vec::new();
    v.extend_from_slice(&expiry.to_be_bytes());
    v.extend_from_slice(&discount.to_be_bytes());
    v.extend_from_slice(&vol.to_be_bytes());
    v.extend_from_slice(&fwd.to_be_bytes());
    v.extend_from_slice(&strike.to_be_bytes());
    v.extend_from_slice(&exponent.to_be_bytes());
    v
}

fn request(selector: [u8; 4], args: &[u8]) -> Vec<u8> {
    let mut v = selector.to_vec();
    v.extend_from_slice(args);
    v
}

fn words() -> Words {
    let mut a = [0u8; 16];
    let mut b = [0u8; 16];
    let mut c = [0u8; 16];
    a[15] = 1;
    b[15] = 2;
    c[15] = 3;
    (a, b, c)
}

fn bits(x: f64) -> u64 {
    x.to_bits()
}

fn quote(discount: f64, forward: f64, strike: f64) -> Quote {
    Quote {
        discount: bits(discount),
        forward: bits(forward),
        strike: bits(strike),
        fwd_discounted: bits(forward * discount),
        strike_discounted: bits(strike * discount),
        call_price: bits(0.0),
        put_price: bits(0.0),
        call_delta_discounted: bits(0.0),
    }
}

#[test]
fn selectors_route_to_their_operations() {
    assert_eq!(select_operation(&BLACK76_PRICES_DELTA_SELECTOR), Some(Operation::PricesDelta));
    assert_eq!(select_operation(&BLACK76_PRICES_SELECTOR), Some(Operation::Prices));
    assert_eq!(select_operation(&BLACK76_DELTA_SELECTOR), Some(Operation::Delta));
    assert_eq!(select_operation(&[0x5f, 0x53, 0x18, 0x3e]), None);
    assert_eq!(Operation::Prices.selector(), BLACK76_PRICES_SELECTOR);
    assert_eq!(Operation::PricesDelta.selector(), [0x5f, 0x53, 0x18, 0x3d]);
    assert_eq!(Operation::Delta.selector(), [0x12, 0x9a, 0xb3, 0x1e]);
}

#[test]
fn response_lengths_follow_the_selector() {
    let args = block(3600, 1, 2, 3, 4, 0);
    let w = words();
    assert_eq!(compute(&request(BLACK76_PRICES_DELTA_SELECTOR, &args), &w).unwrap().len(), 48);
    assert_eq!(compute(&request(BLACK76_PRICES_SELECTOR, &args), &w).unwrap().len(), 32);
    assert_eq!(compute(&request(BLACK76_DELTA_SELECTOR, &args), &w).unwrap().len(), 16);
}

#[test]
fn unknown_selector_is_refused() {
    let args = block(3600, 1, 2, 3, 4, 0);
    let r = compute(&request([0, 0, 0, 0], &args), &words());
    assert_eq!(r, Err(Error::UnknownSelector));
    let r = compute(&request([0xde, 0xad, 0xbe, 0xef], &args[..10]), &words());
    assert_eq!(r, Err(Error::UnknownSelector));
}

#[test]
fn short_requests_are_refused() {
    assert_eq!(compute(&[], &words()), Err(Error::WrongSelectorLength));
    assert_eq!(compute(&[0x5f, 0x53, 0x18], &words()), Err(Error::WrongSelectorLength));
    assert_eq!(parse_request(&[0x10]), Err(Error::WrongSelectorLength));
}

#[test]
fn argument_block_must_be_61_bytes() {
    let args = block(3600, 1, 2, 3, 4, 0);
    let mut long = args.clone();
    long.push(0);
    let r = compute(&request(BLACK76_PRICES_SELECTOR, &args[..60]), &words());
    assert_eq!(r, Err(Error::WrongLengthOfArguments));
    let r = compute(&request(BLACK76_PRICES_SELECTOR, &long), &words());
    assert_eq!(r, Err(Error::WrongLengthOfArguments));
    let r = parse_request(&BLACK76_DELTA_SELECTOR);
    assert_eq!(r, Err(Error::WrongLengthOfArguments));
}

#[test]
fn error_codes_are_distinct_and_nonzero() {
    assert_eq!(Error::WrongSelectorLength.code(), 1);
    assert_eq!(Error::UnknownSelector.code(), 2);
    assert_eq!(Error::WrongLengthOfArguments.code(), 3);
}

#[test]
fn fields_are_read_at_their_offsets() {
    let args = block(
        0x0102_0304,
        0x1122_3344_5566_7788,
        7,
        u128::MAX,
        0x0102_0304_0506_0708_090a_0b0c_0d0e_0f10,
        -18,
    );
    let a = extract_arguments(&args);
    assert_eq!(
        a,
        Arguments {
            expiry_seconds: 0x0102_0304,
            discount: 0x1122_3344_5566_7788,
            volatility: 7,
            forward: u128::MAX,
            strike: 0x0102_0304_0506_0708_090a_0b0c_0d0e_0f10,
            exponent: -18,
        }
    );
    let r = parse_request(&request(BLACK76_DELTA_SELECTOR, &args));
    assert_eq!(r, Ok((Operation::Delta, a)));
}

#[test]
fn exponent_byte_is_signed() {
    let a = extract_arguments(&block(0, 0, 0, 0, 0, -128));
    assert_eq!(a.exponent, -128);
    let a = extract_arguments(&block(0, 0, 0, 0, 0, 127));
    assert_eq!(a.exponent, 127);
}

#[test]
fn prices_delta_lays_out_all_three_words() {
    let w = words();
    let r = prices_delta(&w);
    let mut expected = w.0.to_vec();
    expected.extend_from_slice(&w.1);
    expected.extend_from_slice(&w.2);
    assert_eq!(r, expected);
    let mut two = w.0.to_vec();
    two.extend_from_slice(&w.1);
    assert_eq!(prices(&w), two);
    assert_eq!(delta(&w), w.2.to_vec());
}

#[test]
fn compute_answers_with_the_selected_words() {
    let args = block(3600, 1, 2, 3, 4, 0);
    let w = words();
    let r = compute(&request(BLACK76_PRICES_SELECTOR, &args), &w).unwrap();
    assert_eq!(r[15], 1);
    assert_eq!(r[31], 2);
    let r = compute(&request(BLACK76_DELTA_SELECTOR, &args), &w).unwrap();
    assert_eq!(r[15], 3);
}

#[test]
fn degenerate_strike_gives_discounted_forward_and_discount() {
    let q = quote(0.5, 8.0, 0.0);
    let (call, put, third) = calculate_black76(&q);
    assert_eq!(call, bits(4.0));
    assert_eq!(put, bits(0.0));
    assert_eq!(third, bits(0.5));
    assert_eq!(branch(q.forward, q.strike), Branch::NoStrike);
}

#[test]
fn degenerate_forward_gives_discounted_strike() {
    let mut q = quote(0.5, 0.0, 6.0);
    q.call_price = bits(99.0);
    q.put_price = bits(99.0);
    q.call_delta_discounted = bits(0.7);
    let (call, put, third) = calculate_black76(&q);
    assert_eq!(call, bits(0.0));
    assert_eq!(put, bits(3.0));
    assert_eq!(third, bits(0.0));
    assert_eq!(branch(q.forward, q.strike), Branch::NoForward);
}

#[test]
fn negative_zero_strike_counts_as_no_strike() {
    assert_eq!(branch(bits(1.0), bits(-0.0)), Branch::NoStrike);
    assert_eq!(branch(bits(-0.0), bits(1.0)), Branch::NoForward);
    assert_eq!(branch(bits(1e-300), bits(1e-300)), Branch::Priced);
}

#[test]
fn priced_branch_clamps_to_arbitrage_bounds() {
    let mut q = quote(0.5, 10.0, 12.0);
    q.call_price = bits(5.5);
    q.put_price = bits(2.0);
    q.call_delta_discounted = bits(0.25);
    let (call, put, third) = calculate_black76(&q);
    assert_eq!(call, bits(5.0));
    assert_eq!(put, bits(2.0));
    assert_eq!(third, bits(0.25));
    assert_eq!(branch(q.forward, q.strike), Branch::Priced);
}

#[test]
fn clamp_keeps_prices_within_bound() {
    assert_eq!(clamp(bits(3.0), bits(2.0)), bits(2.0));
    assert_eq!(clamp(bits(1.0), bits(2.0)), bits(1.0));
    assert_eq!(clamp(bits(-1e-17), bits(2.0)), bits(-1e-17));
    assert_eq!(clamp(f64::NAN.to_bits(), bits(2.0)), bits(2.0));
}

#[test]
fn bit_pattern_comparisons_follow_ieee() {
    assert!(less_than(bits(-1.0), bits(0.0)));
    assert!(less_than(bits(1.0), bits(2.0)));
    assert!(less_than(bits(-2.0), bits(-1.0)));
    assert!(less_than(bits(f64::NEG_INFINITY), bits(f64::INFINITY)));
    assert!(!less_than(bits(-0.0), bits(0.0)));
    assert!(less_or_equal(bits(-0.0), bits(0.0)));
    assert!(less_or_equal(bits(0.0), bits(-0.0)));
    assert!(!less_than(f64::NAN.to_bits(), bits(1.0)));
    assert!(!less_or_equal(bits(1.0), f64::NAN.to_bits()));
    assert!(nan(f64::NAN.to_bits()));
    assert!(!nan(bits(f64::INFINITY)));
    for (a, b) in [(0.1, 0.2), (-3.5, 2.0), (1e300, 1e-300), (-0.0, -1e-310)] {
        assert_eq!(less_than(bits(a), bits(b)), a < b);
        assert_eq!(less_or_equal(bits(a), bits(b)), a <= b);
    }
}

#[test]
fn encoder_saturates_when_there_is_no_value() {
    assert_eq!(saturating_word(None), [0xff; 16]);
    assert_eq!(saturating_word(Some(u128::MAX)), [0xff; 16]);
    let w = saturating_word(Some(0x0102));
    assert_eq!(w[14], 1);
    assert_eq!(w[15], 2);
    assert_eq!(w, 0x0102u128.to_be_bytes());
    assert_eq!(zero_word(), [0u8; 16]);
}

#[test]
fn words_round_trip_through_bytes() {
    for v in [0u128, 1, 255, 256, 0xdead_beef, u64::MAX as u128, u128::MAX, 1u128 << 127] {
        let w = write_word(v);
        assert_eq!(w, v.to_be_bytes());
        assert_eq!(read_be(&w, 0, 16), v);
    }
    assert_eq!(read_be(&[9, 1, 2, 9], 1, 2), 0x0102);
    assert_eq!(read_be(&[9], 0, 0), 0);
}

#[test]
fn identical_requests_give_identical_responses() {
    let data = request(BLACK76_PRICES_DELTA_SELECTOR, &block(86400, 99, 2, 100, 95, 2));
    let w = words();
    assert_eq!(compute(&data, &w), compute(&data.clone(), &w));
    assert_eq!(parse_request(&data), parse_request(&data));
}

#[test]
fn encoder_saturates_negative_and_nan_figures() {
    assert_eq!(encode_word(bits(-1.0), Some(100)), [0xff; 16]);
    assert_eq!(encode_word(f64::NAN.to_bits(), Some(0)), [0xff; 16]);
    assert_eq!(encode_word(bits(f64::INFINITY), None), [0xff; 16]);
    assert_eq!(encode_word(bits(f64::INFINITY), Some(7)), [0xff; 16]);
    assert_eq!(encode_word(bits(f64::NEG_INFINITY), Some(7)), [0xff; 16]);
    assert_eq!(encode_word(bits(f64::MAX), Some(7)), 7u128.to_be_bytes());
    assert_eq!(encode_word(bits(2.5), Some(250)), 250u128.to_be_bytes());
    assert_eq!(encode_word(bits(-0.0), Some(0)), [0u8; 16]);
}

#[test]
fn fields_are_scaled_exactly_before_narrowing() {
    let args = extract_arguments(&block(86400, 95, 2, 12345, u128::MAX, 2));
    let d = decimals(&args);
    assert_eq!(d.expiry_seconds.to_f64(), 86400.0);
    assert_eq!(d.discount.to_f64(), 0.95);
    assert_eq!(d.volatility.to_f64(), 0.02);
    assert_eq!(d.forward.to_f64(), 123.45);
    assert_eq!(d.strike.to_f64(), u128::MAX as f64 / 100.0);
}

#[test]
fn extreme_exponents_scale_without_overflow() {
    let d = decimals(&extract_arguments(&block(0, 1, 0, 0, 3, -128)));
    assert_eq!(d.discount.to_f64(), 1e128);
    assert_eq!(d.strike.to_f64(), 3e128);
    let d = decimals(&extract_arguments(&block(0, 1, 0, 0, 0, 127)));
    assert_eq!(d.discount.to_f64(), 1e-127);
    assert_eq!(d.strike.to_f64(), 0.0);
}

#[test]
fn figures_scale_back_to_integers() {
    assert_eq!(scaled_integer(&BigFloat::from_f64(1.5), 2), Some(150));
    assert_eq!(scaled_integer(&BigFloat::from_f64(6.0), 0), Some(6));
    assert_eq!(scaled_integer(&BigFloat::from_f64(0.0), 18), Some(0));
    assert_eq!(scaled_integer(&BigFloat::from_f64(1e30), 18), None);
    assert_eq!(scaled_integer(&BigFloat::from_f64(f64::NAN), 0), None);
}

#[test]
fn scaled_integer_round_trips_through_binary64() {
    for (raw, exponent) in [(12345u128, 2i8), (1, 0), (999_999_999_999, 6), (1u128 << 52, 0)] {
        let back = scaled_integer(&BigFloat::from_f64(decimals(&extract_arguments(&block(0, 0, 0, raw, 0, exponent))).forward.to_f64()), exponent);
        assert_eq!(back, Some(raw));
    }
}

/// Runs a request through every stage of the library; the model figures of the
/// priced branch are left at zero, which the degenerate branches never read.
fn respond_unpriced(data: &[u8]) -> Result<Vec<u8>, Error> {
    let (_, args) = parse_request(data)?;
    let d = decimals(&args);
    let (discount, fwd, strike) = (d.discount.to_f64(), d.forward.to_f64(), d.strike.to_f64());
    let q = Quote {
        discount: bits(discount),
        forward: bits(fwd),
        strike: bits(strike),
        fwd_discounted: bits(fwd * discount),
        strike_discounted: bits(strike * discount),
        call_price: 0,
        put_price: 0,
        call_delta_discounted: 0,
    };
    let (call, put, third) = calculate_black76(&q);
    let word = |figure: u64| {
        encode_word(figure, scaled_integer(&BigFloat::from_f64(f64::from_bits(figure)), args.exponent))
    };
    compute(data, &(word(call), word(put), word(third)))
}

fn word_of(v: u128) -> Vec<u8> {
    v.to_be_bytes().to_vec()
}

#[test]
fn zero_strike_answers_discounted_forward_end_to_end() {
    let data = request(BLACK76_PRICES_DELTA_SELECTOR, &block(86400, 3, 20, 7, 0, 0));
    let mut expected = word_of(21);
    expected.extend(word_of(0));
    expected.extend(word_of(3));
    assert_eq!(respond_unpriced(&data), Ok(expected));
    let data = request(BLACK76_DELTA_SELECTOR, &block(86400, 3, 20, 7, 0, 0));
    assert_eq!(respond_unpriced(&data), Ok(word_of(3)));
}

#[test]
fn zero_forward_answers_discounted_strike_end_to_end() {
    let data = request(BLACK76_PRICES_DELTA_SELECTOR, &block(86400, 95, 20, 0, 10000, 2));
    let mut expected = word_of(0);
    expected.extend(word_of(9500));
    expected.extend(word_of(0));
    assert_eq!(respond_unpriced(&data), Ok(expected));
    let data = request(BLACK76_PRICES_SELECTOR, &block(86400, 95, 20, 0, 10000, 2));
    let mut expected = word_of(0);
    expected.extend(word_of(9500));
    assert_eq!(respond_unpriced(&data), Ok(expected));
}

#[test]
fn oversized_figure_saturates_end_to_end() {
    let data = request(BLACK76_PRICES_SELECTOR, &block(0, u64::MAX, 0, u128::MAX, 0, 0));
    let r = respond_unpriced(&data).unwrap();
    assert_eq!(r[..16], [0xff; 16]);
    assert_eq!(r[16..], [0u8; 16]);
}

#[test]
fn round_trip_holds_up_to_the_binary64_mantissa() {
    let through = |raw: u128, exponent: i8| {
        let block = block(0, 0, 0, raw, 0, exponent);
        let value = decimals(&extract_arguments(&block)).forward.to_f64();
        scaled_integer(&BigFloat::from_f64(value), exponent)
    };
    assert_eq!(through(1u128 << 53, 0), Some(1u128 << 53));
    assert_eq!(through((1u128 << 53) - 1, 0), Some((1u128 << 53) - 1));
    assert_eq!(through((1u128 << 53) + 1, 0), Some(1u128 << 53));
    assert_eq!(through(0, -128), Some(0));
}

#[test]
fn nan_model_price_is_capped_at_its_bound() {
    let mut q = quote(0.5, 10.0, 10.0);
    q.call_price = f64::NAN.to_bits();
    q.put_price = f64::NAN.to_bits();
    q.call_delta_discounted = bits(0.25);
    let (call, put, _) = calculate_black76(&q);
    assert_eq!(call, bits(5.0));
    assert_eq!(put, bits(5.0));
}
