//! Model 713: DER storage capacity.
use vstd::prelude::*;

verus! {

/// The points of model 713 that are read from the device.
#[derive(Clone, Debug, PartialEq, Eq)]
pub struct Model713 {
    pub soc: Option<u16>,
    pub pct_sf: Option<i16>,
}

} // verus!
