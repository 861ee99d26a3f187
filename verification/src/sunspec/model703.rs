//! Model 703: enter service.
use vstd::prelude::*;

verus! {

/// Permit enter service.
#[derive(Clone, Copy, Debug, PartialEq, Eq, Structural)]
pub enum Es {
    Disabled,
    Enabled,
}

/// The points of model 703 that are read from the device.
#[derive(Clone, Debug, PartialEq, Eq)]
pub struct Model703 {
    pub esv_hi: Option<u16>,
    pub v_sf: Option<i16>,
}

} // verus!
