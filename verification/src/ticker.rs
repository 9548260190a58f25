//! The ticker symbol gate.
//!
//! A ticker is a short alphabetic symbol of at most five characters.
//! The watcher checks the length before asking the quote source to
//! confirm the symbol exists; the confirmation is the source's answer,
//! checked by [`crate::structs::NasdaqStatusWrap::is_success`].

use vstd::prelude::*;

verus! {

/// Whether a ticker symbol's length is acceptable: between one and
/// five characters.
pub fn ticker_length_ok(ticker: &str) -> (r: bool)
    ensures
        r == (1 <= ticker@.len() <= 5),
{
    let n = ticker.unicode_len();
    1 <= n && n <= 5
}

} // verus!
