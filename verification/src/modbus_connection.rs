//! The SunSpec Modbus side: the parameters written to the device, the state
//! read back from it, and the register layout of the curve models.
use vstd::prelude::*;

use crate::scaled_value::{ScaledValue, ScaledValueInner};
use crate::sunspec::model701::{Alrm, ConnSt, Model701, St};
use crate::sunspec::model702::{CtrlModes, Model702};
use crate::sunspec::model703::{Es, Model703};
use crate::sunspec::model704::{
    PfwAbsEna, PfwAbsExt, PfwInjEna, PfwInjExt, VarSetEna, VarSetMod, WMaxLimPctEna, WSetEna,
    WSetMod,
};
use crate::sunspec::model705::{CrvDeptRef as VoltVarDeptRef, CrvVRefAutoEna};
use crate::sunspec::model706::CrvDeptRef as VoltWattDeptRef;
use crate::sunspec::model713::Model713;

pub mod link;

verus! {

/// Errors of the Modbus connection.
#[derive(Clone, Copy, Debug, PartialEq, Eq, Structural)]
pub enum Error {
    ConnectionFailed,
    /// The Modbus server doesn't provide a required model.
    MissingModel(u16),
    CommunicationTimeout,
}

/// What the connection to the device reports.
#[derive(Clone, Debug)]
pub enum Event {
    /// The device is connected, or connected again.
    DeviceConnected,
    CapabilitiesPolled(Capabilities),
    StatePolled(Option<Status>, Option<Settings>, Option<Metering>),
}

/// What the connection to the device is asked to do.
#[derive(Clone, Debug)]
pub enum Command {
    UpdateParameters(Parameters),
}

/// The parameters to write into the device.
#[derive(Clone, Debug, PartialEq)]
pub struct Parameters {
    // AS5438 - Table E.3, Section E.4.1
    pub pfw_inj_ena: Option<PfwInjEna>,
    pub pfw_inj_pf: Option<ScaledValue<u16>>,
    pub pfw_inj_ext: Option<PfwInjExt>,
    pub pfw_abs_ena: Option<PfwAbsEna>,
    pub pfw_abs_pf: Option<ScaledValue<u16>>,
    pub pfw_abs_ext: Option<PfwAbsExt>,
    // AS5438 - Table E.4, Section E.4.2
    pub vref: Option<ScaledValue<u16>>,
    pub vref_auto_ena: Option<CrvVRefAutoEna>,
    pub vref_auto_tms: Option<u16>,
    pub der_volt_var: Option<Curve<u16, i16>>,
    pub der_volt_var_tms: Option<ScaledValue<u32>>,
    pub der_volt_var_dept_ref: Option<VoltVarDeptRef>,
    // AS5438 - Table E.6, Section E.4.4
    pub der_volt_watt: Option<Curve<u16, i16>>,
    pub der_volt_watt_tms: Option<ScaledValue<u32>>,
    pub der_volt_watt_dept_ref: Option<VoltWattDeptRef>,
    // AS5438 - Table E.5, Section E.4.3
    pub var_set_ena: Option<VarSetEna>,
    pub var_set_mod: Option<VarSetMod>,
    pub var_set_pct: Option<ScaledValue<i16>>,
    // AS5438 - Table E.7, Section E.4.5
    pub der_trip_lv_must: Option<Curve<u16, u32>>,
    pub der_trip_lv_may: Option<Curve<u16, u32>>,
    pub der_trip_lv_mom_cess: Option<Curve<u16, u32>>,
    pub der_trip_hv_must: Option<Curve<u16, u32>>,
    pub der_trip_hv_may: Option<Curve<u16, u32>>,
    pub der_trip_hv_mom_cess: Option<Curve<u16, u32>>,
    // AS5438 - Table E.8, Section E.4.6
    // CSIP does not define a momentary cessation for frequency ride through.
    pub der_trip_lf_must: Option<Curve<u32, u32>>,
    pub der_trip_lf_may: Option<Curve<u32, u32>>,
    pub der_trip_hf_must: Option<Curve<u32, u32>>,
    pub der_trip_hf_may: Option<Curve<u32, u32>>,
    // AS5438 - Table E.9, Section E.4.7
    pub droop_ctl: Option<Model711Ctl>,
    // AS5438 - Table E.10, Section E.4.8
    pub es: Option<Es>,
    pub esv_hi: Option<ScaledValue<u16>>,
    pub esv_lo: Option<ScaledValue<u16>>,
    pub es_hz_hi: Option<ScaledValue<u32>>,
    pub es_hz_lo: Option<ScaledValue<u32>>,
    pub es_dly_tms: Option<u32>,
    pub es_rnd_tms: Option<u32>,
    pub es_rmp_tms: Option<u32>,
    // AS5438 - Table E.11, Section E.4.9
    pub w_max_lim_pct_ena: Option<WMaxLimPctEna>,
    pub w_max_lim_pct: Option<ScaledValue<u16>>,
    // AS5438 - Table E.12, Section E.4.10
    pub w_set_pct: Option<ScaledValue<i16>>,
    // Extension: enable and mode are required to apply w_set_pct, and w_set
    // is an alternative way to give the set point.
    pub w_set_ena: Option<WSetEna>,
    pub w_set_mod: Option<WSetMod>,
    pub w_set: Option<ScaledValue<i32>>,
}

/// The frequency droop control written to the second `Ctl` group of model 711.
#[derive(Clone, Copy, Debug, PartialEq, Eq)]
pub struct Model711Ctl {
    pub db_of: ScaledValue<u32>,
    pub db_uf: ScaledValue<u32>,
    pub k_of: ScaledValue<u16>,
    pub k_uf: ScaledValue<u16>,
    pub rsp_tms: ScaledValue<u32>,
}

/// A curve: its points, and the scale factor of each axis.
#[derive(Clone, Debug, PartialEq, Eq)]
pub struct Curve<TX, TY> {
    pub points: Vec<(TX, TY)>,
    pub sf_x: i16,
    pub sf_y: i16,
}

impl<TX: ScaledValueInner, TY: ScaledValueInner> Curve<TX, TY> {
    /// The points as scaled values, including the scale factor of each axis.
    pub fn iter_scaled(&self) -> (r: Vec<(ScaledValue<TX>, ScaledValue<TY>)>)
        ensures
            r@.len() == self.points@.len(),
            forall|i: int|
                0 <= i < r@.len() ==> #[trigger] r@[i] == (
                    ScaledValue { value: self.points@[i].0, sf: self.sf_x },
                    ScaledValue { value: self.points@[i].1, sf: self.sf_y },
                ),
    {
        let mut r: Vec<(ScaledValue<TX>, ScaledValue<TY>)> = Vec::new();
        let mut i: usize = 0;
        while i < self.points.len()
            invariant
                i <= self.points@.len(),
                r@.len() == i,
                forall|j: int|
                    0 <= j < i ==> #[trigger] r@[j] == (
                        ScaledValue { value: self.points@[j].0, sf: self.sf_x },
                        ScaledValue { value: self.points@[j].1, sf: self.sf_y },
                    ),
            decreases self.points@.len() - i,
        {
            let (x, y) = self.points[i];
            r.push((ScaledValue::new(x, self.sf_x), ScaledValue::new(y, self.sf_y)));
            i = i + 1;
        }
        r
    }

    /// The number of points, bounded to `u16::MAX`.
    pub fn len(&self) -> (r: u16)
        ensures
            r == (if self.points@.len() > u16::MAX { u16::MAX as int } else { self.points@.len() as int }),
    {
        let n = self.points.len();
        if n > u16::MAX as usize {
            u16::MAX
        } else {
            n as u16
        }
    }
}

/// The device's ratings, from model 702.
#[derive(Clone, Debug, PartialEq, Eq)]
pub struct Capabilities {
    pub w_max_rtg: Option<u16>,
    pub w_ovr_ext_rtg: Option<u16>,
    pub w_ovr_ext_rtg_pf: Option<u16>,
    pub w_und_ext_rtg: Option<u16>,
    pub w_und_ext_rtg_pf: Option<u16>,
    pub va_max_rtg: Option<u16>,
    pub var_max_inj_rtg: Option<u16>,
    pub var_max_abs_rtg: Option<u16>,
    pub w_cha_rte_max_rtg: Option<u16>,
    pub va_cha_rte_max_rtg: Option<u16>,
    pub v_nom_rtg: Option<u16>,
    pub v_max_rtg: Option<u16>,
    pub v_min_rtg: Option<u16>,
    pub ctrl_modes: Option<CtrlModes>,
    pub react_suscept_rtg: Option<u16>,
}

impl Capabilities {
    pub fn from(m702: Model702) -> (r: Capabilities)
        ensures
            r == (Capabilities {
                w_max_rtg: m702.w_max_rtg,
                w_ovr_ext_rtg: m702.w_ovr_ext_rtg,
                w_ovr_ext_rtg_pf: m702.w_ovr_ext_rtg_pf,
                w_und_ext_rtg: m702.w_und_ext_rtg,
                w_und_ext_rtg_pf: m702.w_und_ext_rtg_pf,
                va_max_rtg: m702.va_max_rtg,
                var_max_inj_rtg: m702.var_max_inj_rtg,
                var_max_abs_rtg: m702.var_max_abs_rtg,
                w_cha_rte_max_rtg: m702.w_cha_rte_max_rtg,
                va_cha_rte_max_rtg: m702.va_cha_rte_max_rtg,
                v_nom_rtg: m702.v_nom_rtg,
                v_max_rtg: m702.v_max_rtg,
                v_min_rtg: m702.v_min_rtg,
                ctrl_modes: m702.ctrl_modes,
                react_suscept_rtg: m702.react_suscept_rtg,
            }),
    {
        Capabilities {
            w_max_rtg: m702.w_max_rtg,
            w_ovr_ext_rtg: m702.w_ovr_ext_rtg,
            w_ovr_ext_rtg_pf: m702.w_ovr_ext_rtg_pf,
            w_und_ext_rtg: m702.w_und_ext_rtg,
            w_und_ext_rtg_pf: m702.w_und_ext_rtg_pf,
            va_max_rtg: m702.va_max_rtg,
            var_max_inj_rtg: m702.var_max_inj_rtg,
            var_max_abs_rtg: m702.var_max_abs_rtg,
            w_cha_rte_max_rtg: m702.w_cha_rte_max_rtg,
            va_cha_rte_max_rtg: m702.va_cha_rte_max_rtg,
            v_nom_rtg: m702.v_nom_rtg,
            v_max_rtg: m702.v_max_rtg,
            v_min_rtg: m702.v_min_rtg,
            ctrl_modes: m702.ctrl_modes,
            react_suscept_rtg: m702.react_suscept_rtg,
        }
    }
}

/// The device's status, from models 701 and 713.
#[derive(Clone, Debug, PartialEq, Eq)]
pub struct Status {
    pub st: Option<St>,
    pub conn_st: Option<ConnSt>,
    pub alrm: Option<Alrm>,
    pub soc: Option<ScaledValue<u16>>,
}

/// The value of an optional scale factor point, zero when absent.
pub open spec fn sf_or_zero(sf: Option<i16>) -> i16 {
    match sf {
        Some(v) => v,
        None => 0,
    }
}

fn unwrap_sf(sf: Option<i16>) -> (r: i16)
    ensures
        r == sf_or_zero(sf),
{
    match sf {
        Some(v) => v,
        None => 0,
    }
}

impl Status {
    /// The status, or `None` when the device offers neither model.
    pub fn from(m701: &Option<Model701>, m713: &Option<Model713>) -> (r: Option<Status>)
        ensures
            r is None <==> (m701 is None && m713 is None),
            r matches Some(s) ==> {
                &&& s.st == (match m701 { Some(m) => m.st, None => None })
                &&& s.conn_st == (match m701 { Some(m) => m.conn_st, None => None })
                &&& s.alrm == (match m701 { Some(m) => m.alrm, None => None })
                &&& s.soc == (match m713 {
                    Some(m) => match m.soc {
                        Some(v) => Some(ScaledValue { value: v, sf: sf_or_zero(m.pct_sf) }),
                        None => None,
                    },
                    None => None,
                })
            },
    {
        if m701.is_none() && m713.is_none() {
            return None;
        }
        let (st, conn_st, alrm) = match m701 {
            Some(m) => (m.st, m.conn_st, m.alrm),
            None => (None, None, None),
        };
        let soc = match m713 {
            Some(m) => match m.soc {
                Some(v) => Some(ScaledValue::new(v, unwrap_sf(m.pct_sf))),
                None => None,
            },
            None => None,
        };
        Some(Status { st, conn_st, alrm, soc })
    }
}

/// The device's settings, from model 703.
#[derive(Clone, Debug, PartialEq, Eq)]
pub struct Settings {
    pub esv_hi: Option<ScaledValue<u16>>,
}

impl Settings {
    /// The settings, or `None` when the device does not offer model 703.
    pub fn from(m703: &Option<Model703>) -> (r: Option<Settings>)
        ensures
            r is None <==> m703 is None,
            r matches Some(s) ==> s.esv_hi == (match m703 {
                Some(m) => match m.esv_hi {
                    Some(v) => Some(ScaledValue { value: v, sf: sf_or_zero(m.v_sf) }),
                    None => None,
                },
                None => None,
            }),
    {
        match m703 {
            None => None,
            Some(m) => Some(
                Settings {
                    esv_hi: match m.esv_hi {
                        Some(v) => Some(ScaledValue::new(v, unwrap_sf(m.v_sf))),
                        None => None,
                    },
                },
            ),
        }
    }
}

/// The device's measurements, from model 701.
#[derive(Clone, Debug, PartialEq, Eq)]
pub struct Metering {
    pub w: Option<i16>,
    pub wl1: Option<i16>,
    pub wl2: Option<i16>,
    pub wl3: Option<i16>,
    pub w_sf: Option<i16>,
    pub var: Option<i16>,
    pub var_sf: Option<i16>,
    pub voltages: Vec<VoltageWithReference>,
    pub v_sf: Option<i16>,
    pub hz: Option<u32>,
    pub hz_sf: Option<i16>,
}

/// A voltage with the phases it is measured between.
#[derive(Clone, Copy, Debug, PartialEq, Eq, Structural)]
pub struct VoltageWithReference(pub u16, pub PhaseReference);

/// The phases a voltage is measured between.
#[derive(Copy, Clone, Debug, PartialEq, Eq, Structural)]
pub enum PhaseReference {
    LLV,
    LNV,
    VL1L2,
    VL1,
    VL2L3,
    VL2,
    VL3L1,
    VL3,
}

impl PhaseReference {
    /// The name of the reference.
    pub fn name(&self) -> (r: &'static str)
        ensures
            r@ == phase_reference_name(*self)@,
    {
        match self {
            PhaseReference::LLV => "LLV",
            PhaseReference::LNV => "LNV",
            PhaseReference::VL1L2 => "VL1L2",
            PhaseReference::VL1 => "VL1",
            PhaseReference::VL2L3 => "VL2L3",
            PhaseReference::VL2 => "VL2",
            PhaseReference::VL3L1 => "VL3L1",
            PhaseReference::VL3 => "VL3",
        }
    }
}

/// The name of a phase reference.
pub open spec fn phase_reference_name(p: PhaseReference) -> &'static str {
    match p {
        PhaseReference::LLV => "LLV",
        PhaseReference::LNV => "LNV",
        PhaseReference::VL1L2 => "VL1L2",
        PhaseReference::VL1 => "VL1",
        PhaseReference::VL2L3 => "VL2L3",
        PhaseReference::VL2 => "VL2",
        PhaseReference::VL3L1 => "VL3L1",
        PhaseReference::VL3 => "VL3",
    }
}

/// The sequence holding `v` with its reference, or nothing when `v` is absent.
pub open spec fn voltage_entry(v: Option<u16>, p: PhaseReference) -> Seq<VoltageWithReference> {
    match v {
        Some(x) => seq![VoltageWithReference(x, p)],
        None => Seq::empty(),
    }
}

/// The voltages that model 701 reports, in the order of its points.
pub open spec fn voltages_of(m: Model701) -> Seq<VoltageWithReference> {
    voltage_entry(m.llv, PhaseReference::LLV) + voltage_entry(m.lnv, PhaseReference::LNV)
        + voltage_entry(m.vl1l2, PhaseReference::VL1L2) + voltage_entry(m.vl1, PhaseReference::VL1)
        + voltage_entry(m.vl2l3, PhaseReference::VL2L3) + voltage_entry(m.vl2, PhaseReference::VL2)
        + voltage_entry(m.vl3l1, PhaseReference::VL3L1) + voltage_entry(m.vl3, PhaseReference::VL3)
}

fn push_voltage(voltages: &mut Vec<VoltageWithReference>, v: Option<u16>, p: PhaseReference)
    ensures
        final(voltages)@ == old(voltages)@ + voltage_entry(v, p),
{
    match v {
        Some(x) => {
            voltages.push(VoltageWithReference(x, p));
        },
        None => {},
    }
}

impl Metering {
    /// The measurements, or `None` when the device does not offer model 701.
    pub fn from(m701: &Option<Model701>) -> (r: Option<Metering>)
        ensures
            r is None <==> m701 is None,
            r matches Some(r) ==> m701 matches Some(m) && {
                &&& r.w == m.w
                &&& r.wl1 == m.wl1
                &&& r.wl2 == m.wl2
                &&& r.wl3 == m.wl3
                &&& r.w_sf == m.w_sf
                &&& r.var == m.var
                &&& r.var_sf == m.var_sf
                &&& r.voltages@ == voltages_of(*m)
                &&& r.v_sf == m.v_sf
                &&& r.hz == m.hz
                &&& r.hz_sf == m.hz_sf
            },
    {
        match m701 {
            None => None,
            Some(m) => {
                let mut voltages: Vec<VoltageWithReference> = Vec::new();
                push_voltage(&mut voltages, m.llv, PhaseReference::LLV);
                push_voltage(&mut voltages, m.lnv, PhaseReference::LNV);
                push_voltage(&mut voltages, m.vl1l2, PhaseReference::VL1L2);
                push_voltage(&mut voltages, m.vl1, PhaseReference::VL1);
                push_voltage(&mut voltages, m.vl2l3, PhaseReference::VL2L3);
                push_voltage(&mut voltages, m.vl2, PhaseReference::VL2);
                push_voltage(&mut voltages, m.vl3l1, PhaseReference::VL3L1);
                push_voltage(&mut voltages, m.vl3, PhaseReference::VL3);
                assert(voltages@ =~= voltages_of(*m));
                Some(
                    Metering {
                        w: m.w,
                        wl1: m.wl1,
                        wl2: m.wl2,
                        wl3: m.wl3,
                        w_sf: m.w_sf,
                        var: m.var,
                        var_sf: m.var_sf,
                        voltages,
                        v_sf: m.v_sf,
                        hz: m.hz,
                        hz_sf: m.hz_sf,
                    },
                )
            },
        }
    }
}

} // verus!
