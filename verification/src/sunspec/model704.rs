//! Model 704: DER AC controls.
use vstd::prelude::*;

verus! {

/// Power factor (injecting) enable.
#[derive(Clone, Copy, Debug, PartialEq, Eq, Structural)]
pub enum PfwInjEna {
    Disabled,
    Enabled,
}

/// Power factor (injecting) excitation.
#[derive(Clone, Copy, Debug, PartialEq, Eq, Structural)]
pub enum PfwInjExt {
    OverExcited,
    UnderExcited,
}

/// Power factor (absorbing) enable.
#[derive(Clone, Copy, Debug, PartialEq, Eq, Structural)]
pub enum PfwAbsEna {
    Disabled,
    Enabled,
}

/// Power factor (absorbing) excitation.
#[derive(Clone, Copy, Debug, PartialEq, Eq, Structural)]
pub enum PfwAbsExt {
    OverExcited,
    UnderExcited,
}

/// Limit maximum active power enable.
#[derive(Clone, Copy, Debug, PartialEq, Eq, Structural)]
pub enum WMaxLimPctEna {
    Disabled,
    Enabled,
}

/// Set active power enable.
#[derive(Clone, Copy, Debug, PartialEq, Eq, Structural)]
pub enum WSetEna {
    Disabled,
    Enabled,
}

/// Set active power mode.
#[derive(Clone, Copy, Debug, PartialEq, Eq, Structural)]
pub enum WSetMod {
    WMaxPct,
    Watts,
}

/// Set reactive power enable.
#[derive(Clone, Copy, Debug, PartialEq, Eq, Structural)]
pub enum VarSetEna {
    Disabled,
    Enabled,
}

/// Set reactive power mode.
#[derive(Clone, Copy, Debug, PartialEq, Eq, Structural)]
pub enum VarSetMod {
    WMaxPct,
    VarMaxPct,
    VarAvailPct,
    VaMaxPct,
    Vars,
}

} // verus!
