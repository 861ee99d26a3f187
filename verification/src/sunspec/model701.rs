//! Model 701: DER AC measurements and status.
use vstd::prelude::*;

verus! {

/// Operating state.
#[derive(Clone, Copy, Debug, PartialEq, Eq, Structural)]
pub enum St {
    Off,
    On,
    /// Raw value not defined by the SunSpec model.
    Invalid(u16),
}

/// Grid connection state.
#[derive(Clone, Copy, Debug, PartialEq, Eq, Structural)]
pub enum ConnSt {
    Disconnected,
    Connected,
    /// Raw value not defined by the SunSpec model.
    Invalid(u16),
}

/// Active alarms, as the bits of the `Alrm` point.
#[derive(Clone, Copy, Debug, PartialEq, Eq, Structural)]
pub struct Alrm {
    pub bits: u32,
}

impl Alrm {
    pub const GROUND_FAULT: u32 = 1;
    pub const DC_OVER_VOLT: u32 = 2;
    pub const AC_DISCONNECT: u32 = 4;
    pub const DC_DISCONNECT: u32 = 8;
    pub const GRID_DISCONNECT: u32 = 16;
    pub const CABINET_OPEN: u32 = 32;
    pub const MANUAL_SHUTDOWN: u32 = 64;
    pub const OVER_TEMP: u32 = 128;
    pub const OVER_FREQUENCY: u32 = 256;
    pub const UNDER_FREQUENCY: u32 = 512;
    pub const AC_OVER_VOLT: u32 = 1024;
    pub const AC_UNDER_VOLT: u32 = 2048;
    pub const BLOWN_STRING_FUSE: u32 = 4096;
    pub const UNDER_TEMP: u32 = 8192;
    pub const MEMORY_LOSS: u32 = 16384;
    pub const HW_TEST_FAILURE: u32 = 32768;
    pub const MANUFACTURER_ALRM: u32 = 65536;
}

/// The points of model 701 that are read from the device.
#[derive(Clone, Debug, PartialEq, Eq)]
pub struct Model701 {
    pub st: Option<St>,
    pub conn_st: Option<ConnSt>,
    pub alrm: Option<Alrm>,
    pub w: Option<i16>,
    pub var: Option<i16>,
    pub llv: Option<u16>,
    pub lnv: Option<u16>,
    pub hz: Option<u32>,
    pub wl1: Option<i16>,
    pub vl1l2: Option<u16>,
    pub vl1: Option<u16>,
    pub wl2: Option<i16>,
    pub vl2l3: Option<u16>,
    pub vl2: Option<u16>,
    pub wl3: Option<i16>,
    pub vl3l1: Option<u16>,
    pub vl3: Option<u16>,
    pub w_sf: Option<i16>,
    pub var_sf: Option<i16>,
    pub v_sf: Option<i16>,
    pub hz_sf: Option<i16>,
}

} // verus!
