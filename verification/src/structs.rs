//! The shapes of the upstream payloads, reduced to the fields the
//! watcher reads.
//!
//! The quote source answers with a nested object whose only field of
//! interest is the quoted last-sale price, a decimal string with a
//! leading currency mark. The history source answers with a list of
//! daily records, newest first; only the opening price of each record
//! is kept, already converted to fixed-point units at the boundary.

use vstd::prelude::*;

verus! {

/// The outer wrapper of a quote response.
#[allow(non_snake_case)]
pub struct NasdaqDataWrap {
    pub data: NasdaqData,
}

/// The data object of a quote response.
#[allow(non_snake_case)]
pub struct NasdaqData {
    pub primaryData: NasdaqPrimaryData,
}

/// The outer wrapper of a validation response.
#[allow(non_snake_case)]
pub struct NasdaqStatusWrap {
    pub status: NasdaqStatus,
}

/// The status object of a validation response.
#[allow(non_snake_case)]
pub struct NasdaqStatus {
    pub rCode: u16,
}

/// The quote fields of interest: the last sale price as quoted text.
#[allow(non_snake_case)]
pub struct NasdaqPrimaryData {
    pub lastSalePrice: String,
}

/// The list of daily history records, newest first.
#[allow(non_snake_case)]
pub struct NameStackDataWrap {
    pub data: Vec<NameStackData>,
}

/// One daily history record: the opening price in fixed-point units.
#[allow(non_snake_case)]
#[derive(Clone, Copy, Debug, PartialEq, Eq, Structural)]
pub struct NameStackData {
    pub open: u64,
}

impl NasdaqStatusWrap {
    /// Whether the validation response reports success: a response
    /// code of exactly two hundred.
    pub fn is_success(&self) -> (r: bool)
        ensures
            r == (self.status.rCode == 200),
    {
        self.status.rCode == 200
    }
}

} // verus!
