//! Turning the model's figures into a response: the degenerate branches, the
//! arbitrage clamp, the saturating encoder and the response layouts.
//!
//! The pricing model works in binary64 floating point; its figures arrive here
//! as the `u64` bit patterns of those floats (see `crate::ieee`).
use vstd::prelude::*;
use crate::bytes::{be_value, lemma_word_round_trip, word_bytes, write_word};
use crate::error::Error;
use crate::ieee::{
    infinite, is_infinite, is_nan, le, lemma_zero_bits, less_or_equal, less_than, lt, nan, ZERO_BITS,
};
use crate::request::{operation_of, parse_request, request_of, Operation};

verus! {

/// The figures of one request, each the bit pattern of a binary64 value.
#[derive(PartialEq, Eq, Structural, Clone, Copy, Debug)]
pub struct Quote {
    /// Decoded discount factor.
    pub discount: u64,
    /// Decoded forward price.
    pub forward: u64,
    /// Decoded strike.
    pub strike: u64,
    /// `forward * discount`.
    pub fwd_discounted: u64,
    /// `strike * discount`.
    pub strike_discounted: u64,
    /// Model call price; read only on the priced branch.
    pub call_price: u64,
    /// Model put price; read only on the priced branch.
    pub put_price: u64,
    /// Model call delta times the discount factor; read only on the priced branch.
    pub call_delta_discounted: u64,
}

/// Which way a request is settled.
#[derive(PartialEq, Eq, Structural, Clone, Copy, Debug)]
pub enum Branch {
    /// `strike <= 0`: the call is worth the discounted forward.
    NoStrike,
    /// `forward <= 0` with a positive strike: the put is worth the discounted strike.
    NoForward,
    /// Both positive: the model prices the option.
    Priced,
}

/// The branch of a request with this decoded forward and strike; a NaN is
/// not `<= 0`, and `-0.0` is.
pub open spec fn branch_of(forward: u64, strike: u64) -> Branch {
    if le(strike, ZERO_BITS) {
        Branch::NoStrike
    } else if le(forward, ZERO_BITS) {
        Branch::NoForward
    } else {
        Branch::Priced
    }
}

/// The lesser of `price` and `bound`, as `min` takes it: `bound` where
/// `price` exceeds it or is a NaN, else `price`.
pub open spec fn clamp_spec(price: u64, bound: u64) -> u64 {
    if is_nan(price) || lt(bound, price) {
        bound
    } else {
        price
    }
}

/// The three figures of the response: call price, put price, and the third
/// slot (the discounted call delta; the discount factor itself when there is
/// no strike).
pub open spec fn settle(q: Quote) -> (u64, u64, u64) {
    match branch_of(q.forward, q.strike) {
        Branch::NoStrike => (q.fwd_discounted, ZERO_BITS, q.discount),
        Branch::NoForward => (ZERO_BITS, q.strike_discounted, ZERO_BITS),
        Branch::Priced => (
            clamp_spec(q.call_price, q.fwd_discounted),
            clamp_spec(q.put_price, q.strike_discounted),
            q.call_delta_discounted,
        ),
    }
}

/// The value an encoded figure takes: the scaled integer, or the largest
/// 128-bit value where it had none (negative, NaN, infinite or too large).
pub open spec fn saturated(scaled: Option<u128>) -> u128 {
    match scaled {
        Some(v) => v,
        None => u128::MAX,
    }
}

/// The word value of a figure whose scaled integer (the figure times
/// `10^exponent`, truncated) is `scaled`: a negative, NaN or infinite figure,
/// or one without a 128-bit scaled value, saturates.
pub open spec fn encoded(figure: u64, scaled: Option<u128>) -> u128 {
    if is_nan(figure) || is_infinite(figure) || lt(figure, ZERO_BITS) {
        u128::MAX
    } else {
        saturated(scaled)
    }
}

/// The three encoded figures of a response, in order.
pub type Words = ([u8; 16], [u8; 16], [u8; 16]);

/// The bytes that an operation answers with, given the three encoded figures.
pub open spec fn layout(op: Operation, w: Words) -> Seq<u8> {
    match op {
        Operation::PricesDelta => w.0@ + w.1@ + w.2@,
        Operation::Prices => w.0@ + w.1@,
        Operation::Delta => w.2@,
    }
}

/// The response to a request whose figures encode to `w`.
pub open spec fn response(data: Seq<u8>, w: Words) -> Result<Seq<u8>, Error> {
    match request_of(data) {
        Ok((op, _)) => Ok(layout(op, w)),
        Err(e) => Err(e),
    }
}

/// Decides how a request with these decoded forward and strike is settled.
pub fn branch(forward: u64, strike: u64) -> (r: Branch)
    ensures
        r == branch_of(forward, strike),
{
    if less_or_equal(strike, ZERO_BITS) {
        Branch::NoStrike
    } else if less_or_equal(forward, ZERO_BITS) {
        Branch::NoForward
    } else {
        Branch::Priced
    }
}

/// Caps a model price at its arbitrage bound.
pub fn clamp(price: u64, bound: u64) -> (r: u64)
    ensures
        r == clamp_spec(price, bound),
{
    if nan(price) || less_than(bound, price) {
        bound
    } else {
        price
    }
}

/// The call price, put price and third slot of a request, before encoding.
pub fn calculate_black76(q: &Quote) -> (r: (u64, u64, u64))
    ensures
        r == settle(*q),
{
    match branch(q.forward, q.strike) {
        Branch::NoStrike => (q.fwd_discounted, ZERO_BITS, q.discount),
        Branch::NoForward => (ZERO_BITS, q.strike_discounted, ZERO_BITS),
        Branch::Priced => (
            clamp(q.call_price, q.fwd_discounted),
            clamp(q.put_price, q.strike_discounted),
            q.call_delta_discounted,
        ),
    }
}

/// The 16-byte big-endian word of an encoded figure; a figure that has no
/// 128-bit value saturates to the largest one.
pub fn saturating_word(scaled: Option<u128>) -> (r: [u8; 16])
    ensures
        r@ == word_bytes(saturated(scaled)),
{
    let v: u128 = match scaled {
        Some(v) => v,
        None => u128::MAX,
    };
    write_word(v)
}

/// The 16-byte word of a figure, given its scaled integer; negative, NaN and
/// infinite figures saturate as a missing value does.
pub fn encode_word(figure: u64, scaled: Option<u128>) -> (r: [u8; 16])
    ensures
        r@ == word_bytes(encoded(figure, scaled)),
        be_value(r@) == encoded(figure, scaled),
{
    proof {
        lemma_word_round_trip(encoded(figure, scaled));
    }
    if nan(figure) || infinite(figure) || less_than(figure, ZERO_BITS) {
        saturating_word(None)
    } else {
        saturating_word(scaled)
    }
}

/// The 16-byte word of zero.
pub fn zero_word() -> (r: [u8; 16])
    ensures
        r@ == word_bytes(0),
{
    write_word(0)
}

fn append(r: &mut Vec<u8>, w: &[u8; 16])
    ensures
        final(r)@ == old(r)@ + w@,
{
    let mut i: usize = 0;
    let ghost start = r@;
    while i < 16
        invariant
            i <= 16,
            r@ == start + w@.subrange(0, i as int),
        decreases 16 - i,
    {
        r.push(w[i]);
        i = i + 1;
        assert(r@ =~= start + w@.subrange(0, i as int));
    }
    assert(w@.subrange(0, 16) =~= w@);
}

/// Response of the `prices_delta` operation: call price, put price, call delta.
pub fn prices_delta(w: &Words) -> (r: Vec<u8>)
    ensures
        r@ == layout(Operation::PricesDelta, *w),
{
    let mut r: Vec<u8> = Vec::new();
    append(&mut r, &w.0);
    append(&mut r, &w.1);
    append(&mut r, &w.2);
    assert(r@ =~= w.0@ + w.1@ + w.2@);
    r
}

/// Response of the `prices` operation: call price, put price.
pub fn prices(w: &Words) -> (r: Vec<u8>)
    ensures
        r@ == layout(Operation::Prices, *w),
{
    let mut r: Vec<u8> = Vec::new();
    append(&mut r, &w.0);
    append(&mut r, &w.1);
    assert(r@ =~= w.0@ + w.1@);
    r
}

/// Response of the `delta` operation: the call delta alone.
pub fn delta(w: &Words) -> (r: Vec<u8>)
    ensures
        r@ == layout(Operation::Delta, *w),
{
    let mut r: Vec<u8> = Vec::new();
    append(&mut r, &w.2);
    assert(r@ =~= w.2@);
    r
}

/// Answers a request whose figures encode to `w`: refuses a malformed
/// request, else lays out the words that its operation selects.
pub fn compute(data: &[u8], w: &Words) -> (r: Result<Vec<u8>, Error>)
    ensures
        match response(data@, *w) {
            Ok(bytes) => r.is_ok() && r.unwrap()@ == bytes,
            Err(e) => r == Err::<Vec<u8>, Error>(e),
        },
{
    match parse_request(data) {
        Err(e) => Err(e),
        Ok((Operation::PricesDelta, _)) => Ok(prices_delta(w)),
        Ok((Operation::Prices, _)) => Ok(prices(w)),
        Ok((Operation::Delta, _)) => Ok(delta(w)),
    }
}

/// Each selector routes to its operation's response length, and any other
/// selector is refused as unknown (for a well-sized argument block).
pub proof fn lemma_selector_routing(data: Seq<u8>, w: Words)
    requires
        data.len() == 65,
    ensures
        operation_of(data) is Some ==> response(data, w) is Ok
            && response(data, w)->Ok_0.len() == operation_of(data)->Some_0.response_len_spec(),
        operation_of(data) is None ==> response(data, w) == Err::<Seq<u8>, Error>(Error::UnknownSelector),
{
    assert(w.0@.len() == 16 && w.1@.len() == 16 && w.2@.len() == 16);
}

/// A request shorter than a selector is refused for that; one with a known
/// selector and an argument block of any length but 61 is refused for that.
pub proof fn lemma_length_validation(data: Seq<u8>, w: Words)
    ensures
        data.len() < 4 ==> response(data, w) == Err::<Seq<u8>, Error>(Error::WrongSelectorLength),
        data.len() >= 4 && operation_of(data) is Some && data.len() != 65
            ==> response(data, w) == Err::<Seq<u8>, Error>(Error::WrongLengthOfArguments),
{
}

/// With a zero (or negative) strike the call is the discounted forward, the
/// put is zero and the third slot is the discount factor, whatever the model
/// says.
pub proof fn lemma_no_strike(q: Quote)
    requires
        le(q.strike, ZERO_BITS),
    ensures
        settle(q) == (q.fwd_discounted, ZERO_BITS, q.discount),
{
    lemma_zero_bits();
}

/// With a zero (or negative) forward and a positive strike the call is zero,
/// the put is the discounted strike and the third slot is zero, whatever the
/// model says.
pub proof fn lemma_no_forward(q: Quote)
    requires
        le(q.forward, ZERO_BITS),
        lt(ZERO_BITS, q.strike),
    ensures
        settle(q) == (ZERO_BITS, q.strike_discounted, ZERO_BITS),
{
}

/// On the priced branch the call is at most the discounted forward and the
/// put at most the discounted strike, whatever the model's prices (a NaN
/// price included), wherever the bound itself is a number.
pub proof fn lemma_arbitrage_bound(q: Quote)
    requires
        lt(ZERO_BITS, q.forward),
        lt(ZERO_BITS, q.strike),
    ensures
        !is_nan(q.fwd_discounted) ==> le(settle(q).0, q.fwd_discounted),
        !is_nan(q.strike_discounted) ==> le(settle(q).1, q.strike_discounted),
{
}

/// The same request bytes and the same figures give the same response.
pub proof fn lemma_deterministic(a: Seq<u8>, b: Seq<u8>, w: Words)
    requires
        a == b,
    ensures
        response(a, w) == response(b, w),
{
}

} // verus!
