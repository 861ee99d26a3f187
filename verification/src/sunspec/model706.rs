//! Model 706: DER volt-watt.
use vstd::prelude::*;

verus! {

/// Curve dependent reference.
#[derive(Clone, Copy, Debug, PartialEq, Eq, Structural)]
pub enum CrvDeptRef {
    WMaxPct,
    WAvalPct,
}

} // verus!
