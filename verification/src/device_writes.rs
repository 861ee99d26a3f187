//! The register writes that carry the parameters into a SunSpec device: the
//! values rescaled to the device's scale factors, the curves placed in the
//! second curve of their models, and the modes enabled where a value was
//! written.
use vstd::prelude::*;

use crate::modbus_connection::{Curve, Model711Ctl, Parameters, sf_or_zero};
use crate::scaled_value::{ScaledValue, ScaledValueInner, clamp, rescaled};
use crate::sunspec::model703::Es;
use crate::sunspec::model704::{
    PfwAbsEna, PfwAbsExt, PfwInjEna, PfwInjExt, VarSetEna, VarSetMod, WMaxLimPctEna, WSetEna,
    WSetMod,
};
use crate::sunspec::model705::{CrvDeptRef as VoltVarDeptRef, CrvVRefAutoEna};
use crate::sunspec::model706::CrvDeptRef as VoltWattDeptRef;

verus! {

/// The value of `v` at the scale factor `target`, rounded and bounded to its
/// type.
pub open spec fn rescaled_to<T: ScaledValueInner>(v: ScaledValue<T>, target: i16) -> int {
    clamp(rescaled(v.value.as_int(), v.sf - target), T::lower(), T::upper())
}

/// `w` is `p` rescaled to `sf`, or nothing where `p` is nothing.
pub open spec fn written<T: ScaledValueInner>(w: Option<T>, p: Option<ScaledValue<T>>, sf: i16) -> bool {
    match w {
        Some(x) => p matches Some(v) && x.as_int() == rescaled_to(v, sf),
        None => p is None,
    }
}

fn rescale_opt<T: ScaledValueInner>(p: Option<ScaledValue<T>>, sf: i16) -> (r: Option<T>)
    ensures
        written(r, p, sf),
{
    match p {
        Some(v) => Some(v.rescale(sf).value),
        None => None,
    }
}

fn sf_value(sf: Option<i16>) -> (r: i16)
    ensures
        r == sf_or_zero(sf),
{
    match sf {
        Some(v) => v,
        None => 0,
    }
}

/// The writes to model 703, the enter service settings.
#[derive(Clone, Copy, Debug, PartialEq, Eq)]
pub struct Writes703 {
    pub es: Option<Es>,
    pub esv_hi: Option<u16>,
    pub esv_lo: Option<u16>,
    pub es_hz_hi: Option<u32>,
    pub es_hz_lo: Option<u32>,
    pub es_dly_tms: Option<u32>,
    pub es_rnd_tms: Option<u32>,
    pub es_rmp_tms: Option<u32>,
}

/// Whether the voltage scale factor of model 703 is needed.
pub fn needs_703_v_sf(p: &Parameters) -> (r: bool)
    ensures
        r == (p.esv_hi is Some || p.esv_lo is Some),
{
    p.esv_hi.is_some() || p.esv_lo.is_some()
}

/// Whether the frequency scale factor of model 703 is needed.
pub fn needs_703_hz_sf(p: &Parameters) -> (r: bool)
    ensures
        r == (p.es_hz_hi is Some || p.es_hz_lo is Some),
{
    p.es_hz_hi.is_some() || p.es_hz_lo.is_some()
}

/// The writes to model 703, given its scale factors, missing ones counting
/// as zero (AS5438 Table E.10).
pub fn writes_703(p: &Parameters, v_sf: Option<i16>, hz_sf: Option<i16>) -> (r: Writes703)
    ensures
        r.es == p.es,
        written(r.esv_hi, p.esv_hi, sf_or_zero(v_sf)),
        written(r.esv_lo, p.esv_lo, sf_or_zero(v_sf)),
        written(r.es_hz_hi, p.es_hz_hi, sf_or_zero(hz_sf)),
        written(r.es_hz_lo, p.es_hz_lo, sf_or_zero(hz_sf)),
        r.es_dly_tms == p.es_dly_tms,
        r.es_rnd_tms == p.es_rnd_tms,
        r.es_rmp_tms == p.es_rmp_tms,
{
    let v = sf_value(v_sf);
    let hz = sf_value(hz_sf);
    Writes703 {
        es: p.es,
        esv_hi: rescale_opt(p.esv_hi, v),
        esv_lo: rescale_opt(p.esv_lo, v),
        es_hz_hi: rescale_opt(p.es_hz_hi, hz),
        es_hz_lo: rescale_opt(p.es_hz_lo, hz),
        es_dly_tms: p.es_dly_tms,
        es_rnd_tms: p.es_rnd_tms,
        es_rmp_tms: p.es_rmp_tms,
    }
}

/// The scale factors of model 704, each read only where needed.
#[derive(Clone, Copy, Debug, PartialEq, Eq)]
pub struct Sfs704 {
    pub pf_sf: Option<i16>,
    pub var_set_pct_sf: Option<i16>,
    pub w_max_lim_pct_sf: Option<i16>,
    pub w_set_pct_sf: Option<i16>,
    pub w_set_sf: Option<i16>,
}

/// Which scale factors of model 704 are needed: the power factor one for
/// either power factor, and each other for its own value.
pub fn needs_704_sfs(p: &Parameters) -> (r: (bool, bool, bool, bool, bool))
    ensures
        r == (
            p.pfw_inj_pf is Some || p.pfw_abs_pf is Some,
            p.var_set_pct is Some,
            p.w_max_lim_pct is Some,
            p.w_set_pct is Some,
            p.w_set is Some,
        ),
{
    (
        p.pfw_inj_pf.is_some() || p.pfw_abs_pf.is_some(),
        p.var_set_pct.is_some(),
        p.w_max_lim_pct.is_some(),
        p.w_set_pct.is_some(),
        p.w_set.is_some(),
    )
}

/// The writes to model 704.
#[derive(Clone, Copy, Debug, PartialEq, Eq)]
pub struct Writes704 {
    pub pfw_inj_ena: Option<PfwInjEna>,
    pub pfw_abs_ena: Option<PfwAbsEna>,
    pub pfw_inj_ext: Option<PfwInjExt>,
    pub pfw_abs_ext: Option<PfwAbsExt>,
    pub pfw_inj_pf: Option<u16>,
    pub pfw_abs_pf: Option<u16>,
    pub var_set_ena: Option<VarSetEna>,
    pub var_set_pct: Option<i16>,
    pub var_set_mod: Option<VarSetMod>,
    pub w_max_lim_pct_ena: Option<WMaxLimPctEna>,
    pub w_max_lim_pct: Option<u16>,
    pub w_set_ena: Option<WSetEna>,
    pub w_set_pct: Option<i16>,
    pub w_set: Option<i32>,
    pub w_set_mod: Option<WSetMod>,
}

/// The writes to model 704, given its scale factors, missing ones counting
/// as zero (AS5438 Tables E.3, E.5, E.11, E.12).
pub fn writes_704(p: &Parameters, sfs: Sfs704) -> (r: Writes704)
    ensures
        r.pfw_inj_ena == p.pfw_inj_ena,
        r.pfw_abs_ena == p.pfw_abs_ena,
        r.pfw_inj_ext == p.pfw_inj_ext,
        r.pfw_abs_ext == p.pfw_abs_ext,
        written(r.pfw_inj_pf, p.pfw_inj_pf, sf_or_zero(sfs.pf_sf)),
        written(r.pfw_abs_pf, p.pfw_abs_pf, sf_or_zero(sfs.pf_sf)),
        r.var_set_ena == p.var_set_ena,
        written(r.var_set_pct, p.var_set_pct, sf_or_zero(sfs.var_set_pct_sf)),
        r.var_set_mod == p.var_set_mod,
        r.w_max_lim_pct_ena == p.w_max_lim_pct_ena,
        written(r.w_max_lim_pct, p.w_max_lim_pct, sf_or_zero(sfs.w_max_lim_pct_sf)),
        r.w_set_ena == p.w_set_ena,
        written(r.w_set_pct, p.w_set_pct, sf_or_zero(sfs.w_set_pct_sf)),
        written(r.w_set, p.w_set, sf_or_zero(sfs.w_set_sf)),
        r.w_set_mod == p.w_set_mod,
{
    let pf = sf_value(sfs.pf_sf);
    Writes704 {
        pfw_inj_ena: p.pfw_inj_ena,
        pfw_abs_ena: p.pfw_abs_ena,
        pfw_inj_ext: p.pfw_inj_ext,
        pfw_abs_ext: p.pfw_abs_ext,
        pfw_inj_pf: rescale_opt(p.pfw_inj_pf, pf),
        pfw_abs_pf: rescale_opt(p.pfw_abs_pf, pf),
        var_set_ena: p.var_set_ena,
        var_set_pct: rescale_opt(p.var_set_pct, sf_value(sfs.var_set_pct_sf)),
        var_set_mod: p.var_set_mod,
        w_max_lim_pct_ena: p.w_max_lim_pct_ena,
        w_max_lim_pct: rescale_opt(p.w_max_lim_pct, sf_value(sfs.w_max_lim_pct_sf)),
        w_set_ena: p.w_set_ena,
        w_set_pct: rescale_opt(p.w_set_pct, sf_value(sfs.w_set_pct_sf)),
        w_set: rescale_opt(p.w_set, sf_value(sfs.w_set_sf)),
        w_set_mod: p.w_set_mod,
    }
}

/// The addresses of the power factor groups of model 704, which follow the
/// fixed block: the injection group, then after it and its reversion group,
/// the absorption group.
pub fn pfw_offsets(model_addr: u16, model_len: u16, pfw_inj_len: u16, pfw_inj_rvrt_len: u16) -> (r: (u16, u16))
    requires
        model_addr + model_len + pfw_inj_len + pfw_inj_rvrt_len <= u16::MAX,
    ensures
        r.0 == model_addr + model_len,
        r.1 == model_addr + model_len + pfw_inj_len + pfw_inj_rvrt_len,
{
    let inj = model_addr + model_len;
    (inj, inj + pfw_inj_len + pfw_inj_rvrt_len)
}

/// The curve that a device adopts when asked: curve 1 is read-only in
/// SunSpec, so a device must offer at least two for a curve to be written.
pub const TARGET_CURVE: u16 = 2;

/// The writes of a curve: the address of its group, its number of active
/// points, and for each point the address of its group and its coordinates.
#[derive(Clone, Debug, PartialEq, Eq)]
pub struct CurveWrite<TX, TY> {
    pub curve_addr: u16,
    pub act_pt: u16,
    pub points: Vec<(u16, TX, TY)>,
}

/// `w` writes `curve` at `curve_addr`, its points following the curve's
/// `static_len` registers, each `pt_len` long, rescaled to `x_sf` and `y_sf`.
pub open spec fn writes_curve<TX: ScaledValueInner, TY: ScaledValueInner>(
    w: CurveWrite<TX, TY>,
    curve: Curve<TX, TY>,
    curve_addr: int,
    static_len: int,
    pt_len: int,
    x_sf: i16,
    y_sf: i16,
) -> bool {
    &&& w.curve_addr == curve_addr
    &&& w.act_pt == curve.points@.len()
    &&& w.points@.len() == curve.points@.len()
    &&& forall|i: int|
        0 <= i < w.points@.len() ==> {
            &&& (#[trigger] w.points@[i]).0 == curve_addr + static_len + pt_len * i
            &&& w.points@[i].1.as_int() == rescaled_to(
                ScaledValue { value: curve.points@[i].0, sf: curve.sf_x },
                x_sf,
            )
            &&& w.points@[i].2.as_int() == rescaled_to(
                ScaledValue { value: curve.points@[i].1, sf: curve.sf_y },
                y_sf,
            )
        }
}

fn curve_points<TX: ScaledValueInner, TY: ScaledValueInner>(
    curve: &Curve<TX, TY>,
    curve_addr: u16,
    static_len: u16,
    pt_len: u16,
    x_sf: i16,
    y_sf: i16,
) -> (r: CurveWrite<TX, TY>)
    requires
        curve.points@.len() <= u16::MAX,
        curve_addr + static_len + pt_len * curve.points@.len() <= u16::MAX,
    ensures
        writes_curve(r, *curve, curve_addr as int, static_len as int, pt_len as int, x_sf, y_sf),
{
    let n = curve.len();
    let mut points: Vec<(u16, TX, TY)> = Vec::new();
    let mut i: u16 = 0;
    while i < n
        invariant
            n == curve.points@.len(),
            i <= n,
            curve_addr + static_len + pt_len * n <= u16::MAX,
            points@.len() == i,
            forall|j: int|
                0 <= j < i ==> {
                    &&& (#[trigger] points@[j]).0 == curve_addr + static_len + pt_len * j
                    &&& points@[j].1.as_int() == rescaled_to(
                        ScaledValue { value: curve.points@[j].0, sf: curve.sf_x },
                        x_sf,
                    )
                    &&& points@[j].2.as_int() == rescaled_to(
                        ScaledValue { value: curve.points@[j].1, sf: curve.sf_y },
                        y_sf,
                    )
                },
        decreases n - i,
    {
        assert(pt_len * i <= pt_len * n) by (nonlinear_arith)
            requires
                i <= n,
        ;
        let addr = curve_addr + static_len + pt_len * i;
        let (x, y) = curve.points[i as usize];
        let sx = ScaledValue::new(x, curve.sf_x).rescale(x_sf);
        let sy = ScaledValue::new(y, curve.sf_y).rescale(y_sf);
        points.push((addr, sx.value, sy.value));
        i = i + 1;
    }
    CurveWrite { curve_addr, act_pt: n, points }
}

/// The layout of a volt curve model (705, 706): its fixed block, then its
/// curves, each a group of `crv_len` registers followed by `n_pt` point
/// groups of `pt_len` registers.
#[derive(Clone, Copy, Debug, PartialEq, Eq, Structural)]
pub struct VoltLayout {
    pub model_addr: u16,
    pub model_len: u16,
    pub crv_len: u16,
    pub pt_len: u16,
}

/// The address of the target curve of a volt curve model.
pub open spec fn volt_curve_addr(l: VoltLayout, n_pt: int) -> int {
    l.model_addr + l.model_len + (l.crv_len + l.pt_len * n_pt) * (TARGET_CURVE - 1)
}

/// The registers up to the end of the target curve fit in 16 bits.
pub open spec fn volt_layout_fits(l: VoltLayout, n_pt: int) -> bool {
    volt_curve_addr(l, n_pt) + l.crv_len + l.pt_len * n_pt <= u16::MAX
}

/// The writes of a volt curve, where the device can take it: it offers at
/// least two curves and as many points as the curve has. Its scale factors
/// are needed only then.
pub fn volt_curve_writes<TX: ScaledValueInner, TY: ScaledValueInner>(
    curve: &Curve<TX, TY>,
    n_curves: u16,
    n_pt: u16,
    layout: VoltLayout,
    x_sf: i16,
    y_sf: i16,
) -> (r: Option<CurveWrite<TX, TY>>)
    requires
        volt_layout_fits(layout, n_pt as int),
    ensures
        r is Some <==> (n_curves >= TARGET_CURVE && curve.points@.len() <= n_pt),
        r matches Some(w) ==> writes_curve(
            w,
            *curve,
            volt_curve_addr(layout, n_pt as int),
            layout.crv_len as int,
            layout.pt_len as int,
            x_sf,
            y_sf,
        ),
{
    if n_curves < TARGET_CURVE {
        return None;
    }
    if curve.len() > n_pt || curve.points.len() > n_pt as usize {
        return None;
    }
    assert(layout.pt_len * curve.points@.len() <= layout.pt_len * n_pt) by (nonlinear_arith)
        requires
            curve.points@.len() <= n_pt,
    ;
    let curve_len = layout.crv_len + layout.pt_len * n_pt;
    let curve_addr = layout.model_addr + layout.model_len + curve_len * (TARGET_CURVE - 1);
    Some(curve_points(curve, curve_addr, layout.crv_len, layout.pt_len, x_sf, y_sf))
}

/// The writes to a volt-var curve's group besides its points (model 705).
#[derive(Clone, Copy, Debug, PartialEq, Eq)]
pub struct VoltVarExtras {
    pub rsp_tms: Option<u32>,
    pub dept_ref: Option<VoltVarDeptRef>,
    pub v_ref: Option<u16>,
    pub v_ref_auto_ena: Option<CrvVRefAutoEna>,
    pub v_ref_auto_tms: Option<u16>,
}

/// The rest of the volt-var curve group, given the model's response time
/// and voltage scale factors (AS5438 Table E.4).
pub fn volt_var_extras(p: &Parameters, tms_sf: i16, v_sf: i16) -> (r: VoltVarExtras)
    ensures
        written(r.rsp_tms, p.der_volt_var_tms, tms_sf),
        r.dept_ref == p.der_volt_var_dept_ref,
        written(r.v_ref, p.vref, v_sf),
        r.v_ref_auto_ena == p.vref_auto_ena,
        r.v_ref_auto_tms == p.vref_auto_tms,
{
    VoltVarExtras {
        rsp_tms: rescale_opt(p.der_volt_var_tms, tms_sf),
        dept_ref: p.der_volt_var_dept_ref,
        v_ref: rescale_opt(p.vref, v_sf),
        v_ref_auto_ena: p.vref_auto_ena,
        v_ref_auto_tms: p.vref_auto_tms,
    }
}

/// The writes to a volt-watt curve's group besides its points (model 706,
/// AS5438 Table E.6).
pub fn volt_watt_extras(p: &Parameters, tms_sf: i16) -> (r: (Option<u32>, Option<VoltWattDeptRef>))
    ensures
        written(r.0, p.der_volt_watt_tms, tms_sf),
        r.1 == p.der_volt_watt_dept_ref,
{
    (rescale_opt(p.der_volt_watt_tms, tms_sf), p.der_volt_watt_dept_ref)
}

/// One of the three curves of a trip curve set.
#[derive(Clone, Copy, Debug, PartialEq, Eq, Structural)]
pub enum TripCurve {
    MustTrip,
    MayTrip,
    MomCess,
}

/// The layout of a trip curve model (707 to 710): its fixed block, then its
/// curve sets, each a group of `crv_len` registers followed by the must
/// trip, may trip and momentary cessation curves, each a fixed group
/// followed by `n_pt` point groups of `pt_len` registers.
#[derive(Clone, Copy, Debug, PartialEq, Eq, Structural)]
pub struct TripLayout {
    pub model_addr: u16,
    pub model_len: u16,
    pub crv_len: u16,
    pub must_trip_len: u16,
    pub may_trip_len: u16,
    pub mom_cess_len: u16,
    pub pt_len: u16,
}

/// The length of a curve's fixed group.
pub open spec fn static_len(l: TripLayout, c: TripCurve) -> int {
    match c {
        TripCurve::MustTrip => l.must_trip_len as int,
        TripCurve::MayTrip => l.may_trip_len as int,
        TripCurve::MomCess => l.mom_cess_len as int,
    }
}

/// The length of a curve with its points.
pub open spec fn trip_curve_len(l: TripLayout, c: TripCurve, n_pt: int) -> int {
    static_len(l, c) + l.pt_len * n_pt
}

/// The length of a curve set.
pub open spec fn curve_set_len(l: TripLayout, n_pt: int) -> int {
    l.crv_len + trip_curve_len(l, TripCurve::MustTrip, n_pt) + trip_curve_len(l, TripCurve::MayTrip, n_pt)
        + trip_curve_len(l, TripCurve::MomCess, n_pt)
}

/// The address of a curve of the target curve set.
pub open spec fn trip_curve_addr(l: TripLayout, c: TripCurve, n_pt: int) -> int {
    l.model_addr + l.model_len + curve_set_len(l, n_pt) * (TARGET_CURVE - 1) + l.crv_len + match c {
        TripCurve::MustTrip => 0,
        TripCurve::MayTrip => trip_curve_len(l, TripCurve::MustTrip, n_pt),
        TripCurve::MomCess => trip_curve_len(l, TripCurve::MustTrip, n_pt) + trip_curve_len(
            l,
            TripCurve::MayTrip,
            n_pt,
        ),
    }
}

/// The registers up to the end of the target curve set fit in 16 bits.
pub open spec fn trip_layout_fits(l: TripLayout, n_pt: int) -> bool {
    l.model_addr + l.model_len + curve_set_len(l, n_pt) * TARGET_CURVE <= u16::MAX
}

fn trip_curve_write<TX: ScaledValueInner, TY: ScaledValueInner>(
    curve: &Curve<TX, TY>,
    which: TripCurve,
    n_pt: u16,
    layout: TripLayout,
    x_sf: i16,
    y_sf: i16,
) -> (r: Option<CurveWrite<TX, TY>>)
    requires
        trip_layout_fits(layout, n_pt as int),
    ensures
        r is Some <==> curve.points@.len() <= n_pt,
        r matches Some(w) ==> writes_curve(
            w,
            *curve,
            trip_curve_addr(layout, which, n_pt as int),
            static_len(layout, which),
            layout.pt_len as int,
            x_sf,
            y_sf,
        ),
{
    if curve.len() > n_pt || curve.points.len() > n_pt as usize {
        return None;
    }
    assert(layout.pt_len * curve.points@.len() <= layout.pt_len * n_pt) by (nonlinear_arith)
        requires
            curve.points@.len() <= n_pt,
    ;
    let must = layout.must_trip_len + layout.pt_len * n_pt;
    let may = layout.may_trip_len + layout.pt_len * n_pt;
    let mom = layout.mom_cess_len + layout.pt_len * n_pt;
    let set_len = layout.crv_len + must + may + mom;
    assert(set_len == curve_set_len(layout, n_pt as int));
    assert(set_len * (TARGET_CURVE - 1) == set_len);
    assert(set_len * TARGET_CURVE == set_len + set_len);
    let set_addr = layout.model_addr + layout.model_len + set_len * (TARGET_CURVE - 1);
    let (addr, fixed) = match which {
        TripCurve::MustTrip => (set_addr + layout.crv_len, layout.must_trip_len),
        TripCurve::MayTrip => (set_addr + layout.crv_len + must, layout.may_trip_len),
        TripCurve::MomCess => (set_addr + layout.crv_len + must + may, layout.mom_cess_len),
    };
    Some(curve_points(curve, addr, fixed, layout.pt_len, x_sf, y_sf))
}

/// The writes of the curves of a trip curve model, and whether to ask the
/// device to adopt them.
#[derive(Clone, Debug, PartialEq, Eq)]
pub struct TripWrites<TX, TY> {
    pub must_trip: Option<CurveWrite<TX, TY>>,
    pub may_trip: Option<CurveWrite<TX, TY>>,
    pub mom_cess: Option<CurveWrite<TX, TY>>,
    /// Some curve is written: the target curve set is to be adopted, and the
    /// model enabled.
    pub adopt: bool,
}

/// `w` writes `c` where the device can take it, as curve `which`.
pub open spec fn trip_written<TX: ScaledValueInner, TY: ScaledValueInner>(
    w: Option<CurveWrite<TX, TY>>,
    c: Option<&Curve<TX, TY>>,
    which: TripCurve,
    n_curves: u16,
    n_pt: u16,
    layout: TripLayout,
    x_sf: i16,
    y_sf: i16,
) -> bool {
    match w {
        Some(cw) => c matches Some(curve) && n_curves >= TARGET_CURVE && curve.points@.len() <= n_pt
            && writes_curve(
            cw,
            *curve,
            trip_curve_addr(layout, which, n_pt as int),
            static_len(layout, which),
            layout.pt_len as int,
            x_sf,
            y_sf,
        ),
        None => c is None || n_curves < TARGET_CURVE || c->0.points@.len() > n_pt,
    }
}

/// The writes of up to three curves of a trip curve model, where the device
/// offers at least two curve sets and enough points for each; the device
/// reports its counts and scale factors only where some curve is given.
pub fn trip_curves_writes<TX: ScaledValueInner, TY: ScaledValueInner>(
    must_trip: Option<&Curve<TX, TY>>,
    may_trip: Option<&Curve<TX, TY>>,
    mom_cess: Option<&Curve<TX, TY>>,
    n_curves: u16,
    n_pt: u16,
    layout: TripLayout,
    x_sf: i16,
    y_sf: i16,
) -> (r: TripWrites<TX, TY>)
    requires
        trip_layout_fits(layout, n_pt as int),
    ensures
        trip_written(r.must_trip, must_trip, TripCurve::MustTrip, n_curves, n_pt, layout, x_sf, y_sf),
        trip_written(r.may_trip, may_trip, TripCurve::MayTrip, n_curves, n_pt, layout, x_sf, y_sf),
        trip_written(r.mom_cess, mom_cess, TripCurve::MomCess, n_curves, n_pt, layout, x_sf, y_sf),
        r.adopt == (r.must_trip is Some || r.may_trip is Some || r.mom_cess is Some),
{
    if n_curves < TARGET_CURVE {
        return TripWrites { must_trip: None, may_trip: None, mom_cess: None, adopt: false };
    }
    let must = match must_trip {
        Some(c) => trip_curve_write(c, TripCurve::MustTrip, n_pt, layout, x_sf, y_sf),
        None => None,
    };
    let may = match may_trip {
        Some(c) => trip_curve_write(c, TripCurve::MayTrip, n_pt, layout, x_sf, y_sf),
        None => None,
    };
    let mom = match mom_cess {
        Some(c) => trip_curve_write(c, TripCurve::MomCess, n_pt, layout, x_sf, y_sf),
        None => None,
    };
    let adopt = must.is_some() || may.is_some() || mom.is_some();
    TripWrites { must_trip: must, may_trip: may, mom_cess: mom, adopt }
}

/// The writes of the frequency droop control, into the second control
/// group of model 711.
#[derive(Clone, Copy, Debug, PartialEq, Eq)]
pub struct DroopWrite {
    pub offset: u16,
    pub db_of: u32,
    pub db_uf: u32,
    pub k_of: u16,
    pub k_uf: u16,
    pub rsp_tms: u32,
}

/// The writes of the droop control, where the device offers a second
/// control group (the first is read-only): its address follows the fixed
/// block and the first group; its values are rescaled to the model's scale
/// factors (AS5438 Table E.9).
pub fn droop_write(
    ctl: &Model711Ctl,
    n_ctl: u16,
    model_addr: u16,
    model_len: u16,
    ctl_len: u16,
    db_sf: i16,
    k_sf: i16,
    rsp_tms_sf: i16,
) -> (r: Option<DroopWrite>)
    requires
        model_addr + model_len + ctl_len <= u16::MAX,
    ensures
        r is Some <==> n_ctl >= 2,
        r matches Some(w) ==> {
            &&& w.offset == model_addr + model_len + ctl_len
            &&& w.db_of == rescaled_to(ctl.db_of, db_sf)
            &&& w.db_uf == rescaled_to(ctl.db_uf, db_sf)
            &&& w.k_of == rescaled_to(ctl.k_of, k_sf)
            &&& w.k_uf == rescaled_to(ctl.k_uf, k_sf)
            &&& w.rsp_tms == rescaled_to(ctl.rsp_tms, rsp_tms_sf)
        },
{
    if n_ctl < 2 {
        return None;
    }
    Some(
        DroopWrite {
            offset: model_addr + model_len + ctl_len,
            db_of: ctl.db_of.rescale(db_sf).value,
            db_uf: ctl.db_uf.rescale(db_sf).value,
            k_of: ctl.k_of.rescale(k_sf).value,
            k_uf: ctl.k_uf.rescale(k_sf).value,
            rsp_tms: ctl.rsp_tms.rescale(rsp_tms_sf).value,
        },
    )
}

} // verus!
