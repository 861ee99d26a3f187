//! Model 705: DER volt-var.
use vstd::prelude::*;

verus! {

/// Curve dependent reference.
#[derive(Clone, Copy, Debug, PartialEq, Eq, Structural)]
pub enum CrvDeptRef {
    WMaxPct,
    VarMaxPct,
    VarAvalPct,
    VaMaxPct,
}

/// Autonomous voltage reference enable.
#[derive(Clone, Copy, Debug, PartialEq, Eq, Structural)]
pub enum CrvVRefAutoEna {
    Disabled,
    Enabled,
}

} // verus!
