//! The request: a 4-byte selector followed by a 61-byte argument block.
use vstd::prelude::*;
use crate::bytes::{be_value, lemma_pow256_values, read_be};
use crate::error::Error;

verus! {

/// Selector of the operation that answers call price, put price and call delta.
pub const BLACK76_PRICES_DELTA_SELECTOR: [u8; 4] = [0x5f, 0x53, 0x18, 0x3d];

/// Selector of the operation that answers call price and put price.
pub const BLACK76_PRICES_SELECTOR: [u8; 4] = [0x10, 0x25, 0x1f, 0x08];

/// Selector of the operation that answers the call delta alone.
pub const BLACK76_DELTA_SELECTOR: [u8; 4] = [0x12, 0x9a, 0xb3, 0x1e];

/// Length of the argument block that follows the selector.
pub const ARGUMENTS_LEN: usize = 61;

/// The three operations, named after the figures they answer.
#[derive(PartialEq, Eq, Structural, Clone, Copy, Debug)]
pub enum Operation {
    PricesDelta,
    Prices,
    Delta,
}

/// The fields of an argument block, as the integers that it carries. Each
/// scaled field stands for `raw * 10^(-exponent)`.
#[derive(PartialEq, Eq, Structural, Clone, Copy, Debug)]
pub struct Arguments {
    /// Time to expiry in seconds, unscaled.
    pub expiry_seconds: u32,
    /// Discount factor, scaled.
    pub discount: u64,
    /// Volatility, scaled.
    pub volatility: u128,
    /// Forward price, scaled.
    pub forward: u128,
    /// Strike, scaled.
    pub strike: u128,
    /// The power of ten shared by every scaled field.
    pub exponent: i8,
}

/// Whether the four bytes of `s` from the start are `a b c d`.
pub open spec fn starts_with(s: Seq<u8>, a: u8, b: u8, c: u8, d: u8) -> bool {
    s.len() >= 4 && s[0] == a && s[1] == b && s[2] == c && s[3] == d
}

/// The operation that a selector names, if any.
pub open spec fn operation_of(s: Seq<u8>) -> Option<Operation> {
    if starts_with(s, 0x5f, 0x53, 0x18, 0x3d) {
        Some(Operation::PricesDelta)
    } else if starts_with(s, 0x10, 0x25, 0x1f, 0x08) {
        Some(Operation::Prices)
    } else if starts_with(s, 0x12, 0x9a, 0xb3, 0x1e) {
        Some(Operation::Delta)
    } else {
        None
    }
}

/// The fields that a 61-byte argument block carries, at their offsets.
pub open spec fn arguments_of(a: Seq<u8>) -> Arguments {
    Arguments {
        expiry_seconds: be_value(a.subrange(0, 4)) as u32,
        discount: be_value(a.subrange(4, 12)) as u64,
        volatility: be_value(a.subrange(12, 28)) as u128,
        forward: be_value(a.subrange(28, 44)) as u128,
        strike: be_value(a.subrange(44, 60)) as u128,
        exponent: a[60] as i8,
    }
}

/// What a request asks for, or why it is refused.
pub open spec fn request_of(data: Seq<u8>) -> Result<(Operation, Arguments), Error> {
    if data.len() < 4 {
        Err(Error::WrongSelectorLength)
    } else if operation_of(data).is_none() {
        Err(Error::UnknownSelector)
    } else if data.len() - 4 != ARGUMENTS_LEN {
        Err(Error::WrongLengthOfArguments)
    } else {
        Ok((operation_of(data).unwrap(), arguments_of(data.subrange(4, data.len() as int))))
    }
}

impl Operation {
    /// The selector that names this operation.
    pub fn selector(&self) -> (r: [u8; 4])
        ensures
            operation_of(r@) == Some(*self),
    {
        let r: [u8; 4] = match self {
            Operation::PricesDelta => [0x5f, 0x53, 0x18, 0x3d],
            Operation::Prices => [0x10, 0x25, 0x1f, 0x08],
            Operation::Delta => [0x12, 0x9a, 0xb3, 0x1e],
        };
        r
    }

    /// The number of bytes in this operation's response.
    pub open spec fn response_len_spec(self) -> nat {
        match self {
            Operation::PricesDelta => 48,
            Operation::Prices => 32,
            Operation::Delta => 16,
        }
    }
}

/// The operation that the first four bytes of `data` name, if any.
pub fn select_operation(data: &[u8]) -> (r: Option<Operation>)
    requires
        data@.len() >= 4,
    ensures
        r == operation_of(data@),
{
    let (a, b, c, d) = (data[0], data[1], data[2], data[3]);
    if a == 0x5f && b == 0x53 && c == 0x18 && d == 0x3d {
        Some(Operation::PricesDelta)
    } else if a == 0x10 && b == 0x25 && c == 0x1f && d == 0x08 {
        Some(Operation::Prices)
    } else if a == 0x12 && b == 0x9a && c == 0xb3 && d == 0x1e {
        Some(Operation::Delta)
    } else {
        None
    }
}

/// Splits a 61-byte argument block into its fields.
pub fn extract_arguments(args: &[u8]) -> (r: Arguments)
    requires
        args@.len() == ARGUMENTS_LEN,
    ensures
        r == arguments_of(args@),
{
    proof {
        lemma_pow256_values();
    }
    let expiry_seconds = read_be(args, 0, 4) as u32;
    let discount = read_be(args, 4, 8) as u64;
    let volatility = read_be(args, 12, 16);
    let forward = read_be(args, 28, 16);
    let strike = read_be(args, 44, 16);
    let exponent = args[60] as i8;
    Arguments { expiry_seconds, discount, volatility, forward, strike, exponent }
}

/// Reads the selector and the argument block of a request.
pub fn parse_request(data: &[u8]) -> (r: Result<(Operation, Arguments), Error>)
    ensures
        r == request_of(data@),
{
    if data.len() < 4 {
        return Err(Error::WrongSelectorLength);
    }
    let op = match select_operation(data) {
        Some(op) => op,
        None => return Err(Error::UnknownSelector),
    };
    if data.len() - 4 != ARGUMENTS_LEN {
        return Err(Error::WrongLengthOfArguments);
    }
    let args = slice_from(data, 4);
    Ok((op, extract_arguments(&args)))
}

/// The bytes of `data` from `start` on.
fn slice_from(data: &[u8], start: usize) -> (r: Vec<u8>)
    requires
        start <= data@.len(),
    ensures
        r@ == data@.subrange(start as int, data@.len() as int),
{
    let mut r: Vec<u8> = Vec::new();
    let mut i: usize = start;
    while i < data.len()
        invariant
            start <= i <= data@.len(),
            r@ == data@.subrange(start as int, i as int),
        decreases data@.len() - i,
    {
        r.push(data[i]);
        i = i + 1;
        assert(r@ =~= data@.subrange(start as int, i as int));
    }
    r
}

} // verus!
