//! Feature thresholds of the negotiated server version.
//!
//! A field that a feature introduced is written only to servers at or above
//! the feature's threshold; a field that a feature made redundant is written
//! only to servers below it.

use vstd::prelude::*;

verus! {

/// Contracts carry a contract id and a trading class.
pub const TRADING_CLASS: i32 = 68;

/// Requests carry a free-form options field.
pub const LINKING: i32 = 70;

/// Historical requests can keep streaming bars; the fixed message version
/// field is no longer sent.
pub const SYNT_REALTIME_BARS: i32 = 124;

} // verus!
