//! Columnar-to-row forecast normalization.
//!
//! A raw response is column-major: one array per measured quantity, all
//! index-aligned by time step. Normalization resolves the response-wide
//! timezone once, then walks the rows in order, resolving each row's local
//! time, classifying its weather code, and wrapping every scalar in its
//! measurement value type under the fixed field-to-unit mapping. The first
//! failing row aborts the whole response; there are no partial results.

use vstd::prelude::*;
use crate::scaled::MEASURE_INPUT_MAX;

pub mod daily;
pub mod hourly;

verus! {

/// Every value of a milli-unit column is within the range the measurement
/// constructors accept.
pub open spec fn vals_in_range(v: Seq<i64>) -> bool {
    forall|i: int|
        0 <= i < v.len() ==> -MEASURE_INPUT_MAX <= #[trigger] v[i] <= MEASURE_INPUT_MAX
}

/// A response-level scalar is within the range the measurement
/// constructors accept.
pub open spec fn val_in_range(v: i64) -> bool {
    -MEASURE_INPUT_MAX <= v <= MEASURE_INPUT_MAX
}

} // verus!
