//! Model 702: DER capacity.
use vstd::prelude::*;

verus! {

/// Supported control modes, as the bits of the `CtrlModes` point.
#[derive(Clone, Copy, Debug, PartialEq, Eq, Structural)]
pub struct CtrlModes {
    pub bits: u32,
}

/// The points of model 702 that are read from the device.
#[derive(Clone, Debug, PartialEq, Eq)]
pub struct Model702 {
    pub w_max_rtg: Option<u16>,
    pub w_ovr_ext_rtg: Option<u16>,
    pub w_ovr_ext_rtg_pf: Option<u16>,
    pub w_und_ext_rtg: Option<u16>,
    pub w_und_ext_rtg_pf: Option<u16>,
    pub va_max_rtg: Option<u16>,
    pub var_max_inj_rtg: Option<u16>,
    pub var_max_abs_rtg: Option<u16>,
    pub w_cha_rte_max_rtg: Option<u16>,
    pub va_cha_rte_max_rtg: Option<u16>,
    pub v_nom_rtg: Option<u16>,
    pub v_max_rtg: Option<u16>,
    pub v_min_rtg: Option<u16>,
    pub ctrl_modes: Option<CtrlModes>,
    pub react_suscept_rtg: Option<u16>,
}

} // verus!
