//! Black-76 option pricing over a fixed-point binary wire format.
//!
//! A request is a 4-byte selector and a 61-byte argument block of big-endian
//! scaled integers. This crate reads and validates requests, decides how each
//! is settled (the degenerate branches and the arbitrage clamp), encodes the
//! figures into saturating 128-bit words and lays out the response. The
//! floating-point model itself is evaluated by the caller, and its figures
//! cross into this crate as binary64 bit patterns.
use vstd::prelude::*;

pub mod bytes;
pub mod decimal;
pub mod error;
pub mod ieee;
pub mod request;
pub mod settle;

pub use error::Error;
pub use request::{
    extract_arguments, parse_request, select_operation, Arguments, Operation, ARGUMENTS_LEN,
    BLACK76_DELTA_SELECTOR, BLACK76_PRICES_DELTA_SELECTOR, BLACK76_PRICES_SELECTOR,
};
pub use settle::{
    branch, calculate_black76, clamp, compute, delta, encode_word, prices, prices_delta, saturating_word,
    zero_word, Branch, Quote, Words,
};
