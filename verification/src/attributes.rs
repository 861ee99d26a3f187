//! The layering of control attributes: the set of controls to be applied to
//! a device at a given instant.
use vstd::prelude::*;

use crate::sep2_types::{DERControlBase, DERCurve, DefaultDERControl, empty_default_control};

verus! {

/// `first` if it holds a value, else `overlay`.
#[verifier::opaque]
pub open spec fn or_spec<T>(first: Option<T>, overlay: Option<T>) -> Option<T> {
    if first is Some {
        first
    } else {
        overlay
    }
}

/// One for an attribute that is set, zero otherwise.
#[verifier::opaque]
pub open spec fn some_count<T>(o: Option<T>) -> int {
    if o is Some {
        1
    } else {
        0
    }
}

/// The number of attributes set in a control.
pub open spec fn active_count(c: DefaultDERControl) -> int {
    some_count(c.der_control_base.op_mod_connect)
    + some_count(c.der_control_base.op_mod_energize)
    + some_count(c.der_control_base.op_mod_fixed_pf_absorb_w)
    + some_count(c.der_control_base.op_mod_fixed_pf_inject_w)
    + some_count(c.der_control_base.op_mod_fixed_var)
    + some_count(c.der_control_base.op_mod_fixed_w)
    + some_count(c.der_control_base.op_mod_freq_droop)
    + some_count(c.der_control_base.op_mod_freq_watt)
    + some_count(c.der_control_base.op_mod_hfrt_may_trip)
    + some_count(c.der_control_base.op_mod_hfrt_must_trip)
    + some_count(c.der_control_base.op_mod_hvrt_may_trip)
    + some_count(c.der_control_base.op_mod_hvrt_momentary_cessation)
    + some_count(c.der_control_base.op_mod_hvrt_must_trip)
    + some_count(c.der_control_base.op_mod_lfrt_may_trip)
    + some_count(c.der_control_base.op_mod_lfrt_must_trip)
    + some_count(c.der_control_base.op_mod_lvrt_may_trip)
    + some_count(c.der_control_base.op_mod_lvrt_momentary_cessation)
    + some_count(c.der_control_base.op_mod_lvrt_must_trip)
    + some_count(c.der_control_base.op_mod_max_lim_w)
    + some_count(c.der_control_base.op_mod_target_var)
    + some_count(c.der_control_base.op_mod_target_w)
    + some_count(c.der_control_base.op_mod_volt_var)
    + some_count(c.der_control_base.op_mod_volt_watt)
    + some_count(c.der_control_base.op_mod_watt_pf)
    + some_count(c.der_control_base.op_mod_watt_var)
    + some_count(c.der_control_base.ramp_tms)
    + some_count(c.der_control_base.op_mod_imp_lim_w)
    + some_count(c.der_control_base.op_mod_exp_lim_w)
    + some_count(c.der_control_base.op_mod_gen_lim_w)
    + some_count(c.der_control_base.op_mod_load_lim_w)
    + some_count(c.set_es_delay)
    + some_count(c.set_es_high_freq)
    + some_count(c.set_es_high_volt)
    + some_count(c.set_es_low_freq)
    + some_count(c.set_es_low_volt)
    + some_count(c.set_es_ramp_tms)
    + some_count(c.set_es_random_delay)
    + some_count(c.set_grad_w)
    + some_count(c.set_soft_grad_w)
}

/// Every attribute of the control is set.
pub open spec fn all_set(c: DefaultDERControl) -> bool {
    &&& c.der_control_base.op_mod_connect is Some
    &&& c.der_control_base.op_mod_energize is Some
    &&& c.der_control_base.op_mod_fixed_pf_absorb_w is Some
    &&& c.der_control_base.op_mod_fixed_pf_inject_w is Some
    &&& c.der_control_base.op_mod_fixed_var is Some
    &&& c.der_control_base.op_mod_fixed_w is Some
    &&& c.der_control_base.op_mod_freq_droop is Some
    &&& c.der_control_base.op_mod_freq_watt is Some
    &&& c.der_control_base.op_mod_hfrt_may_trip is Some
    &&& c.der_control_base.op_mod_hfrt_must_trip is Some
    &&& c.der_control_base.op_mod_hvrt_may_trip is Some
    &&& c.der_control_base.op_mod_hvrt_momentary_cessation is Some
    &&& c.der_control_base.op_mod_hvrt_must_trip is Some
    &&& c.der_control_base.op_mod_lfrt_may_trip is Some
    &&& c.der_control_base.op_mod_lfrt_must_trip is Some
    &&& c.der_control_base.op_mod_lvrt_may_trip is Some
    &&& c.der_control_base.op_mod_lvrt_momentary_cessation is Some
    &&& c.der_control_base.op_mod_lvrt_must_trip is Some
    &&& c.der_control_base.op_mod_max_lim_w is Some
    &&& c.der_control_base.op_mod_target_var is Some
    &&& c.der_control_base.op_mod_target_w is Some
    &&& c.der_control_base.op_mod_volt_var is Some
    &&& c.der_control_base.op_mod_volt_watt is Some
    &&& c.der_control_base.op_mod_watt_pf is Some
    &&& c.der_control_base.op_mod_watt_var is Some
    &&& c.der_control_base.ramp_tms is Some
    &&& c.der_control_base.op_mod_imp_lim_w is Some
    &&& c.der_control_base.op_mod_exp_lim_w is Some
    &&& c.der_control_base.op_mod_gen_lim_w is Some
    &&& c.der_control_base.op_mod_load_lim_w is Some
    &&& c.set_es_delay is Some
    &&& c.set_es_high_freq is Some
    &&& c.set_es_high_volt is Some
    &&& c.set_es_low_freq is Some
    &&& c.set_es_low_volt is Some
    &&& c.set_es_ramp_tms is Some
    &&& c.set_es_random_delay is Some
    &&& c.set_grad_w is Some
    &&& c.set_soft_grad_w is Some
}

/// Each attribute from `first` where it is set there, else from `overlay`.
pub open spec fn overlay_spec(first: DefaultDERControl, overlay: DefaultDERControl) -> DefaultDERControl {
    DefaultDERControl {
        der_control_base: DERControlBase {
            op_mod_connect: or_spec(first.der_control_base.op_mod_connect, overlay.der_control_base.op_mod_connect),
            op_mod_energize: or_spec(first.der_control_base.op_mod_energize, overlay.der_control_base.op_mod_energize),
            op_mod_fixed_pf_absorb_w: or_spec(first.der_control_base.op_mod_fixed_pf_absorb_w, overlay.der_control_base.op_mod_fixed_pf_absorb_w),
            op_mod_fixed_pf_inject_w: or_spec(first.der_control_base.op_mod_fixed_pf_inject_w, overlay.der_control_base.op_mod_fixed_pf_inject_w),
            op_mod_fixed_var: or_spec(first.der_control_base.op_mod_fixed_var, overlay.der_control_base.op_mod_fixed_var),
            op_mod_fixed_w: or_spec(first.der_control_base.op_mod_fixed_w, overlay.der_control_base.op_mod_fixed_w),
            op_mod_freq_droop: or_spec(first.der_control_base.op_mod_freq_droop, overlay.der_control_base.op_mod_freq_droop),
            op_mod_freq_watt: or_spec(first.der_control_base.op_mod_freq_watt, overlay.der_control_base.op_mod_freq_watt),
            op_mod_hfrt_may_trip: or_spec(first.der_control_base.op_mod_hfrt_may_trip, overlay.der_control_base.op_mod_hfrt_may_trip),
            op_mod_hfrt_must_trip: or_spec(first.der_control_base.op_mod_hfrt_must_trip, overlay.der_control_base.op_mod_hfrt_must_trip),
            op_mod_hvrt_may_trip: or_spec(first.der_control_base.op_mod_hvrt_may_trip, overlay.der_control_base.op_mod_hvrt_may_trip),
            op_mod_hvrt_momentary_cessation: or_spec(first.der_control_base.op_mod_hvrt_momentary_cessation, overlay.der_control_base.op_mod_hvrt_momentary_cessation),
            op_mod_hvrt_must_trip: or_spec(first.der_control_base.op_mod_hvrt_must_trip, overlay.der_control_base.op_mod_hvrt_must_trip),
            op_mod_lfrt_may_trip: or_spec(first.der_control_base.op_mod_lfrt_may_trip, overlay.der_control_base.op_mod_lfrt_may_trip),
            op_mod_lfrt_must_trip: or_spec(first.der_control_base.op_mod_lfrt_must_trip, overlay.der_control_base.op_mod_lfrt_must_trip),
            op_mod_lvrt_may_trip: or_spec(first.der_control_base.op_mod_lvrt_may_trip, overlay.der_control_base.op_mod_lvrt_may_trip),
            op_mod_lvrt_momentary_cessation: or_spec(first.der_control_base.op_mod_lvrt_momentary_cessation, overlay.der_control_base.op_mod_lvrt_momentary_cessation),
            op_mod_lvrt_must_trip: or_spec(first.der_control_base.op_mod_lvrt_must_trip, overlay.der_control_base.op_mod_lvrt_must_trip),
            op_mod_max_lim_w: or_spec(first.der_control_base.op_mod_max_lim_w, overlay.der_control_base.op_mod_max_lim_w),
            op_mod_target_var: or_spec(first.der_control_base.op_mod_target_var, overlay.der_control_base.op_mod_target_var),
            op_mod_target_w: or_spec(first.der_control_base.op_mod_target_w, overlay.der_control_base.op_mod_target_w),
            op_mod_volt_var: or_spec(first.der_control_base.op_mod_volt_var, overlay.der_control_base.op_mod_volt_var),
            op_mod_volt_watt: or_spec(first.der_control_base.op_mod_volt_watt, overlay.der_control_base.op_mod_volt_watt),
            op_mod_watt_pf: or_spec(first.der_control_base.op_mod_watt_pf, overlay.der_control_base.op_mod_watt_pf),
            op_mod_watt_var: or_spec(first.der_control_base.op_mod_watt_var, overlay.der_control_base.op_mod_watt_var),
            ramp_tms: or_spec(first.der_control_base.ramp_tms, overlay.der_control_base.ramp_tms),
            op_mod_imp_lim_w: or_spec(first.der_control_base.op_mod_imp_lim_w, overlay.der_control_base.op_mod_imp_lim_w),
            op_mod_exp_lim_w: or_spec(first.der_control_base.op_mod_exp_lim_w, overlay.der_control_base.op_mod_exp_lim_w),
            op_mod_gen_lim_w: or_spec(first.der_control_base.op_mod_gen_lim_w, overlay.der_control_base.op_mod_gen_lim_w),
            op_mod_load_lim_w: or_spec(first.der_control_base.op_mod_load_lim_w, overlay.der_control_base.op_mod_load_lim_w),
        },
        set_es_delay: or_spec(first.set_es_delay, overlay.set_es_delay),
        set_es_high_freq: or_spec(first.set_es_high_freq, overlay.set_es_high_freq),
        set_es_high_volt: or_spec(first.set_es_high_volt, overlay.set_es_high_volt),
        set_es_low_freq: or_spec(first.set_es_low_freq, overlay.set_es_low_freq),
        set_es_low_volt: or_spec(first.set_es_low_volt, overlay.set_es_low_volt),
        set_es_ramp_tms: or_spec(first.set_es_ramp_tms, overlay.set_es_ramp_tms),
        set_es_random_delay: or_spec(first.set_es_random_delay, overlay.set_es_random_delay),
        set_grad_w: or_spec(first.set_grad_w, overlay.set_grad_w),
        set_soft_grad_w: or_spec(first.set_soft_grad_w, overlay.set_soft_grad_w),
        href: None,
    }
}

/// The output of the scheduler, describing the set of controls to be applied
/// to a device at a given instant in time, and the curves that its attributes
/// link to, by href.
#[derive(Clone, Debug, PartialEq, Eq)]
pub struct ControlAttributes {
    pub inner: DefaultDERControl,
    pub curves: Vec<(String, DERCurve)>,
}

impl ControlAttributes {
    pub fn new(controls: DefaultDERControl) -> (r: ControlAttributes)
        ensures
            r.inner == controls,
            r.curves@.len() == 0,
    {
        ControlAttributes { inner: controls, curves: Vec::new() }
    }

    /// Attributes with nothing set and no curves.
    pub fn empty() -> (r: ControlAttributes)
        ensures
            r.inner == empty_default_control(),
            r.curves@.len() == 0,
    {
        ControlAttributes { inner: DefaultDERControl::empty(), curves: Vec::new() }
    }

    /// Total distinct attributes that would be applied.
    pub fn num_active(&self) -> (r: u32)
        ensures
            r == active_count(self.inner),
    {
        let b = &self.inner.der_control_base;
        let c = &self.inner;
        count(&b.op_mod_connect)
        + count(&b.op_mod_energize)
        + count(&b.op_mod_fixed_pf_absorb_w)
        + count(&b.op_mod_fixed_pf_inject_w)
        + count(&b.op_mod_fixed_var)
        + count(&b.op_mod_fixed_w)
        + count(&b.op_mod_freq_droop)
        + count(&b.op_mod_freq_watt)
        + count(&b.op_mod_hfrt_may_trip)
        + count(&b.op_mod_hfrt_must_trip)
        + count(&b.op_mod_hvrt_may_trip)
        + count(&b.op_mod_hvrt_momentary_cessation)
        + count(&b.op_mod_hvrt_must_trip)
        + count(&b.op_mod_lfrt_may_trip)
        + count(&b.op_mod_lfrt_must_trip)
        + count(&b.op_mod_lvrt_may_trip)
        + count(&b.op_mod_lvrt_momentary_cessation)
        + count(&b.op_mod_lvrt_must_trip)
        + count(&b.op_mod_max_lim_w)
        + count(&b.op_mod_target_var)
        + count(&b.op_mod_target_w)
        + count(&b.op_mod_volt_var)
        + count(&b.op_mod_volt_watt)
        + count(&b.op_mod_watt_pf)
        + count(&b.op_mod_watt_var)
        + count(&b.ramp_tms)
        + count(&b.op_mod_imp_lim_w)
        + count(&b.op_mod_exp_lim_w)
        + count(&b.op_mod_gen_lim_w)
        + count(&b.op_mod_load_lim_w)
        + count(&c.set_es_delay)
        + count(&c.set_es_high_freq)
        + count(&c.set_es_high_volt)
        + count(&c.set_es_low_freq)
        + count(&c.set_es_low_volt)
        + count(&c.set_es_ramp_tms)
        + count(&c.set_es_random_delay)
        + count(&c.set_grad_w)
        + count(&c.set_soft_grad_w)
    }
}

fn count<T>(o: &Option<T>) -> (r: u32)
    ensures
        r == some_count(*o),
        r <= 1,
{
    proof {
        reveal(some_count);
    }
    match o {
        Some(_) => 1,
        None => 0,
    }
}

/// `first` if it holds a value, else `overlay`.
fn prefer<T>(first: Option<T>, overlay: Option<T>) -> (r: Option<T>)
    ensures
        r == or_spec(first, overlay),
{
    proof {
        reveal(or_spec);
    }
    match first {
        Some(v) => Some(v),
        None => overlay,
    }
}

/// Combine a set of attributes (first) with another set (overlay). When an
/// attribute is defined in both sets, prefer the attribute from the `first`
/// argument.
pub fn overlay_controls(first: DefaultDERControl, overlay: DefaultDERControl) -> (r: DefaultDERControl)
    ensures
        r == overlay_spec(first, overlay),
{
    let b1 = first.der_control_base;
    let b2 = overlay.der_control_base;
    DefaultDERControl {
        der_control_base: DERControlBase {
            op_mod_connect: prefer(b1.op_mod_connect, b2.op_mod_connect),
            op_mod_energize: prefer(b1.op_mod_energize, b2.op_mod_energize),
            op_mod_fixed_pf_absorb_w: prefer(b1.op_mod_fixed_pf_absorb_w, b2.op_mod_fixed_pf_absorb_w),
            op_mod_fixed_pf_inject_w: prefer(b1.op_mod_fixed_pf_inject_w, b2.op_mod_fixed_pf_inject_w),
            op_mod_fixed_var: prefer(b1.op_mod_fixed_var, b2.op_mod_fixed_var),
            op_mod_fixed_w: prefer(b1.op_mod_fixed_w, b2.op_mod_fixed_w),
            op_mod_freq_droop: prefer(b1.op_mod_freq_droop, b2.op_mod_freq_droop),
            op_mod_freq_watt: prefer(b1.op_mod_freq_watt, b2.op_mod_freq_watt),
            op_mod_hfrt_may_trip: prefer(b1.op_mod_hfrt_may_trip, b2.op_mod_hfrt_may_trip),
            op_mod_hfrt_must_trip: prefer(b1.op_mod_hfrt_must_trip, b2.op_mod_hfrt_must_trip),
            op_mod_hvrt_may_trip: prefer(b1.op_mod_hvrt_may_trip, b2.op_mod_hvrt_may_trip),
            op_mod_hvrt_momentary_cessation: prefer(b1.op_mod_hvrt_momentary_cessation, b2.op_mod_hvrt_momentary_cessation),
            op_mod_hvrt_must_trip: prefer(b1.op_mod_hvrt_must_trip, b2.op_mod_hvrt_must_trip),
            op_mod_lfrt_may_trip: prefer(b1.op_mod_lfrt_may_trip, b2.op_mod_lfrt_may_trip),
            op_mod_lfrt_must_trip: prefer(b1.op_mod_lfrt_must_trip, b2.op_mod_lfrt_must_trip),
            op_mod_lvrt_may_trip: prefer(b1.op_mod_lvrt_may_trip, b2.op_mod_lvrt_may_trip),
            op_mod_lvrt_momentary_cessation: prefer(b1.op_mod_lvrt_momentary_cessation, b2.op_mod_lvrt_momentary_cessation),
            op_mod_lvrt_must_trip: prefer(b1.op_mod_lvrt_must_trip, b2.op_mod_lvrt_must_trip),
            op_mod_max_lim_w: prefer(b1.op_mod_max_lim_w, b2.op_mod_max_lim_w),
            op_mod_target_var: prefer(b1.op_mod_target_var, b2.op_mod_target_var),
            op_mod_target_w: prefer(b1.op_mod_target_w, b2.op_mod_target_w),
            op_mod_volt_var: prefer(b1.op_mod_volt_var, b2.op_mod_volt_var),
            op_mod_volt_watt: prefer(b1.op_mod_volt_watt, b2.op_mod_volt_watt),
            op_mod_watt_pf: prefer(b1.op_mod_watt_pf, b2.op_mod_watt_pf),
            op_mod_watt_var: prefer(b1.op_mod_watt_var, b2.op_mod_watt_var),
            ramp_tms: prefer(b1.ramp_tms, b2.ramp_tms),
            op_mod_imp_lim_w: prefer(b1.op_mod_imp_lim_w, b2.op_mod_imp_lim_w),
            op_mod_exp_lim_w: prefer(b1.op_mod_exp_lim_w, b2.op_mod_exp_lim_w),
            op_mod_gen_lim_w: prefer(b1.op_mod_gen_lim_w, b2.op_mod_gen_lim_w),
            op_mod_load_lim_w: prefer(b1.op_mod_load_lim_w, b2.op_mod_load_lim_w),
        },
        set_es_delay: prefer(first.set_es_delay, overlay.set_es_delay),
        set_es_high_freq: prefer(first.set_es_high_freq, overlay.set_es_high_freq),
        set_es_high_volt: prefer(first.set_es_high_volt, overlay.set_es_high_volt),
        set_es_low_freq: prefer(first.set_es_low_freq, overlay.set_es_low_freq),
        set_es_low_volt: prefer(first.set_es_low_volt, overlay.set_es_low_volt),
        set_es_ramp_tms: prefer(first.set_es_ramp_tms, overlay.set_es_ramp_tms),
        set_es_random_delay: prefer(first.set_es_random_delay, overlay.set_es_random_delay),
        set_grad_w: prefer(first.set_grad_w, overlay.set_grad_w),
        set_soft_grad_w: prefer(first.set_soft_grad_w, overlay.set_soft_grad_w),
        href: None,
    }
}

proof fn lemma_or_identity<T>(x: Option<T>)
    ensures
        or_spec(x, None) == x,
        or_spec(None, x) == x,
{
    reveal(or_spec);
}

proof fn lemma_or_associative<T>(a: Option<T>, b: Option<T>, c: Option<T>)
    ensures
        or_spec(or_spec(a, b), c) == or_spec(a, or_spec(b, c)),
{
    reveal(or_spec);
}

proof fn lemma_or_idempotent<T>(x: Option<T>)
    ensures
        or_spec(x, x) == x,
{
    reveal(or_spec);
}

proof fn lemma_or_precedence<T>(a: Option<T>, b: Option<T>)
    ensures
        a is Some ==> or_spec(a, b) == a,
{
    reveal(or_spec);
}

proof fn lemma_or_count<T>(a: Option<T>, b: Option<T>)
    ensures
        some_count(or_spec(a, b)) >= some_count(a),
        some_count(or_spec(a, b)) >= some_count(b),
        some_count(or_spec(a, b)) <= some_count(a) + some_count(b),
{
    reveal(or_spec);
    reveal(some_count);
}

/// Layering over a control with nothing set, or layering a control with
/// nothing set over another, changes nothing.
pub proof fn overlay_identity(c: DefaultDERControl)
    requires
        c.href is None,
    ensures
        overlay_spec(c, empty_default_control()) == c,
        overlay_spec(empty_default_control(), c) == c,
{
    lemma_or_identity(c.der_control_base.op_mod_connect);
    lemma_or_identity(c.der_control_base.op_mod_energize);
    lemma_or_identity(c.der_control_base.op_mod_fixed_pf_absorb_w);
    lemma_or_identity(c.der_control_base.op_mod_fixed_pf_inject_w);
    lemma_or_identity(c.der_control_base.op_mod_fixed_var);
    lemma_or_identity(c.der_control_base.op_mod_fixed_w);
    lemma_or_identity(c.der_control_base.op_mod_freq_droop);
    lemma_or_identity(c.der_control_base.op_mod_freq_watt);
    lemma_or_identity(c.der_control_base.op_mod_hfrt_may_trip);
    lemma_or_identity(c.der_control_base.op_mod_hfrt_must_trip);
    lemma_or_identity(c.der_control_base.op_mod_hvrt_may_trip);
    lemma_or_identity(c.der_control_base.op_mod_hvrt_momentary_cessation);
    lemma_or_identity(c.der_control_base.op_mod_hvrt_must_trip);
    lemma_or_identity(c.der_control_base.op_mod_lfrt_may_trip);
    lemma_or_identity(c.der_control_base.op_mod_lfrt_must_trip);
    lemma_or_identity(c.der_control_base.op_mod_lvrt_may_trip);
    lemma_or_identity(c.der_control_base.op_mod_lvrt_momentary_cessation);
    lemma_or_identity(c.der_control_base.op_mod_lvrt_must_trip);
    lemma_or_identity(c.der_control_base.op_mod_max_lim_w);
    lemma_or_identity(c.der_control_base.op_mod_target_var);
    lemma_or_identity(c.der_control_base.op_mod_target_w);
    lemma_or_identity(c.der_control_base.op_mod_volt_var);
    lemma_or_identity(c.der_control_base.op_mod_volt_watt);
    lemma_or_identity(c.der_control_base.op_mod_watt_pf);
    lemma_or_identity(c.der_control_base.op_mod_watt_var);
    lemma_or_identity(c.der_control_base.ramp_tms);
    lemma_or_identity(c.der_control_base.op_mod_imp_lim_w);
    lemma_or_identity(c.der_control_base.op_mod_exp_lim_w);
    lemma_or_identity(c.der_control_base.op_mod_gen_lim_w);
    lemma_or_identity(c.der_control_base.op_mod_load_lim_w);
    lemma_or_identity(c.set_es_delay);
    lemma_or_identity(c.set_es_high_freq);
    lemma_or_identity(c.set_es_high_volt);
    lemma_or_identity(c.set_es_low_freq);
    lemma_or_identity(c.set_es_low_volt);
    lemma_or_identity(c.set_es_ramp_tms);
    lemma_or_identity(c.set_es_random_delay);
    lemma_or_identity(c.set_grad_w);
    lemma_or_identity(c.set_soft_grad_w);
}

/// Layering is associative: grouping does not matter, only the order.
pub proof fn overlay_associative(a: DefaultDERControl, b: DefaultDERControl, c: DefaultDERControl)
    ensures
        overlay_spec(overlay_spec(a, b), c) == overlay_spec(a, overlay_spec(b, c)),
{
    lemma_or_associative(a.der_control_base.op_mod_connect, b.der_control_base.op_mod_connect, c.der_control_base.op_mod_connect);
    lemma_or_associative(a.der_control_base.op_mod_energize, b.der_control_base.op_mod_energize, c.der_control_base.op_mod_energize);
    lemma_or_associative(a.der_control_base.op_mod_fixed_pf_absorb_w, b.der_control_base.op_mod_fixed_pf_absorb_w, c.der_control_base.op_mod_fixed_pf_absorb_w);
    lemma_or_associative(a.der_control_base.op_mod_fixed_pf_inject_w, b.der_control_base.op_mod_fixed_pf_inject_w, c.der_control_base.op_mod_fixed_pf_inject_w);
    lemma_or_associative(a.der_control_base.op_mod_fixed_var, b.der_control_base.op_mod_fixed_var, c.der_control_base.op_mod_fixed_var);
    lemma_or_associative(a.der_control_base.op_mod_fixed_w, b.der_control_base.op_mod_fixed_w, c.der_control_base.op_mod_fixed_w);
    lemma_or_associative(a.der_control_base.op_mod_freq_droop, b.der_control_base.op_mod_freq_droop, c.der_control_base.op_mod_freq_droop);
    lemma_or_associative(a.der_control_base.op_mod_freq_watt, b.der_control_base.op_mod_freq_watt, c.der_control_base.op_mod_freq_watt);
    lemma_or_associative(a.der_control_base.op_mod_hfrt_may_trip, b.der_control_base.op_mod_hfrt_may_trip, c.der_control_base.op_mod_hfrt_may_trip);
    lemma_or_associative(a.der_control_base.op_mod_hfrt_must_trip, b.der_control_base.op_mod_hfrt_must_trip, c.der_control_base.op_mod_hfrt_must_trip);
    lemma_or_associative(a.der_control_base.op_mod_hvrt_may_trip, b.der_control_base.op_mod_hvrt_may_trip, c.der_control_base.op_mod_hvrt_may_trip);
    lemma_or_associative(a.der_control_base.op_mod_hvrt_momentary_cessation, b.der_control_base.op_mod_hvrt_momentary_cessation, c.der_control_base.op_mod_hvrt_momentary_cessation);
    lemma_or_associative(a.der_control_base.op_mod_hvrt_must_trip, b.der_control_base.op_mod_hvrt_must_trip, c.der_control_base.op_mod_hvrt_must_trip);
    lemma_or_associative(a.der_control_base.op_mod_lfrt_may_trip, b.der_control_base.op_mod_lfrt_may_trip, c.der_control_base.op_mod_lfrt_may_trip);
    lemma_or_associative(a.der_control_base.op_mod_lfrt_must_trip, b.der_control_base.op_mod_lfrt_must_trip, c.der_control_base.op_mod_lfrt_must_trip);
    lemma_or_associative(a.der_control_base.op_mod_lvrt_may_trip, b.der_control_base.op_mod_lvrt_may_trip, c.der_control_base.op_mod_lvrt_may_trip);
    lemma_or_associative(a.der_control_base.op_mod_lvrt_momentary_cessation, b.der_control_base.op_mod_lvrt_momentary_cessation, c.der_control_base.op_mod_lvrt_momentary_cessation);
    lemma_or_associative(a.der_control_base.op_mod_lvrt_must_trip, b.der_control_base.op_mod_lvrt_must_trip, c.der_control_base.op_mod_lvrt_must_trip);
    lemma_or_associative(a.der_control_base.op_mod_max_lim_w, b.der_control_base.op_mod_max_lim_w, c.der_control_base.op_mod_max_lim_w);
    lemma_or_associative(a.der_control_base.op_mod_target_var, b.der_control_base.op_mod_target_var, c.der_control_base.op_mod_target_var);
    lemma_or_associative(a.der_control_base.op_mod_target_w, b.der_control_base.op_mod_target_w, c.der_control_base.op_mod_target_w);
    lemma_or_associative(a.der_control_base.op_mod_volt_var, b.der_control_base.op_mod_volt_var, c.der_control_base.op_mod_volt_var);
    lemma_or_associative(a.der_control_base.op_mod_volt_watt, b.der_control_base.op_mod_volt_watt, c.der_control_base.op_mod_volt_watt);
    lemma_or_associative(a.der_control_base.op_mod_watt_pf, b.der_control_base.op_mod_watt_pf, c.der_control_base.op_mod_watt_pf);
    lemma_or_associative(a.der_control_base.op_mod_watt_var, b.der_control_base.op_mod_watt_var, c.der_control_base.op_mod_watt_var);
    lemma_or_associative(a.der_control_base.ramp_tms, b.der_control_base.ramp_tms, c.der_control_base.ramp_tms);
    lemma_or_associative(a.der_control_base.op_mod_imp_lim_w, b.der_control_base.op_mod_imp_lim_w, c.der_control_base.op_mod_imp_lim_w);
    lemma_or_associative(a.der_control_base.op_mod_exp_lim_w, b.der_control_base.op_mod_exp_lim_w, c.der_control_base.op_mod_exp_lim_w);
    lemma_or_associative(a.der_control_base.op_mod_gen_lim_w, b.der_control_base.op_mod_gen_lim_w, c.der_control_base.op_mod_gen_lim_w);
    lemma_or_associative(a.der_control_base.op_mod_load_lim_w, b.der_control_base.op_mod_load_lim_w, c.der_control_base.op_mod_load_lim_w);
    lemma_or_associative(a.set_es_delay, b.set_es_delay, c.set_es_delay);
    lemma_or_associative(a.set_es_high_freq, b.set_es_high_freq, c.set_es_high_freq);
    lemma_or_associative(a.set_es_high_volt, b.set_es_high_volt, c.set_es_high_volt);
    lemma_or_associative(a.set_es_low_freq, b.set_es_low_freq, c.set_es_low_freq);
    lemma_or_associative(a.set_es_low_volt, b.set_es_low_volt, c.set_es_low_volt);
    lemma_or_associative(a.set_es_ramp_tms, b.set_es_ramp_tms, c.set_es_ramp_tms);
    lemma_or_associative(a.set_es_random_delay, b.set_es_random_delay, c.set_es_random_delay);
    lemma_or_associative(a.set_grad_w, b.set_grad_w, c.set_grad_w);
    lemma_or_associative(a.set_soft_grad_w, b.set_soft_grad_w, c.set_soft_grad_w);
}

/// Layering a control over itself changes nothing.
pub proof fn overlay_idempotent(c: DefaultDERControl)
    requires
        c.href is None,
    ensures
        overlay_spec(c, c) == c,
{
    lemma_or_idempotent(c.der_control_base.op_mod_connect);
    lemma_or_idempotent(c.der_control_base.op_mod_energize);
    lemma_or_idempotent(c.der_control_base.op_mod_fixed_pf_absorb_w);
    lemma_or_idempotent(c.der_control_base.op_mod_fixed_pf_inject_w);
    lemma_or_idempotent(c.der_control_base.op_mod_fixed_var);
    lemma_or_idempotent(c.der_control_base.op_mod_fixed_w);
    lemma_or_idempotent(c.der_control_base.op_mod_freq_droop);
    lemma_or_idempotent(c.der_control_base.op_mod_freq_watt);
    lemma_or_idempotent(c.der_control_base.op_mod_hfrt_may_trip);
    lemma_or_idempotent(c.der_control_base.op_mod_hfrt_must_trip);
    lemma_or_idempotent(c.der_control_base.op_mod_hvrt_may_trip);
    lemma_or_idempotent(c.der_control_base.op_mod_hvrt_momentary_cessation);
    lemma_or_idempotent(c.der_control_base.op_mod_hvrt_must_trip);
    lemma_or_idempotent(c.der_control_base.op_mod_lfrt_may_trip);
    lemma_or_idempotent(c.der_control_base.op_mod_lfrt_must_trip);
    lemma_or_idempotent(c.der_control_base.op_mod_lvrt_may_trip);
    lemma_or_idempotent(c.der_control_base.op_mod_lvrt_momentary_cessation);
    lemma_or_idempotent(c.der_control_base.op_mod_lvrt_must_trip);
    lemma_or_idempotent(c.der_control_base.op_mod_max_lim_w);
    lemma_or_idempotent(c.der_control_base.op_mod_target_var);
    lemma_or_idempotent(c.der_control_base.op_mod_target_w);
    lemma_or_idempotent(c.der_control_base.op_mod_volt_var);
    lemma_or_idempotent(c.der_control_base.op_mod_volt_watt);
    lemma_or_idempotent(c.der_control_base.op_mod_watt_pf);
    lemma_or_idempotent(c.der_control_base.op_mod_watt_var);
    lemma_or_idempotent(c.der_control_base.ramp_tms);
    lemma_or_idempotent(c.der_control_base.op_mod_imp_lim_w);
    lemma_or_idempotent(c.der_control_base.op_mod_exp_lim_w);
    lemma_or_idempotent(c.der_control_base.op_mod_gen_lim_w);
    lemma_or_idempotent(c.der_control_base.op_mod_load_lim_w);
    lemma_or_idempotent(c.set_es_delay);
    lemma_or_idempotent(c.set_es_high_freq);
    lemma_or_idempotent(c.set_es_high_volt);
    lemma_or_idempotent(c.set_es_low_freq);
    lemma_or_idempotent(c.set_es_low_volt);
    lemma_or_idempotent(c.set_es_ramp_tms);
    lemma_or_idempotent(c.set_es_random_delay);
    lemma_or_idempotent(c.set_grad_w);
    lemma_or_idempotent(c.set_soft_grad_w);
}

/// A control with every attribute set takes precedence over anything layered
/// beneath it.
pub proof fn overlay_precedence(a: DefaultDERControl, b: DefaultDERControl)
    requires
        all_set(a),
        a.href is None,
    ensures
        overlay_spec(a, b) == a,
{
    lemma_or_precedence(a.der_control_base.op_mod_connect, b.der_control_base.op_mod_connect);
    lemma_or_precedence(a.der_control_base.op_mod_energize, b.der_control_base.op_mod_energize);
    lemma_or_precedence(a.der_control_base.op_mod_fixed_pf_absorb_w, b.der_control_base.op_mod_fixed_pf_absorb_w);
    lemma_or_precedence(a.der_control_base.op_mod_fixed_pf_inject_w, b.der_control_base.op_mod_fixed_pf_inject_w);
    lemma_or_precedence(a.der_control_base.op_mod_fixed_var, b.der_control_base.op_mod_fixed_var);
    lemma_or_precedence(a.der_control_base.op_mod_fixed_w, b.der_control_base.op_mod_fixed_w);
    lemma_or_precedence(a.der_control_base.op_mod_freq_droop, b.der_control_base.op_mod_freq_droop);
    lemma_or_precedence(a.der_control_base.op_mod_freq_watt, b.der_control_base.op_mod_freq_watt);
    lemma_or_precedence(a.der_control_base.op_mod_hfrt_may_trip, b.der_control_base.op_mod_hfrt_may_trip);
    lemma_or_precedence(a.der_control_base.op_mod_hfrt_must_trip, b.der_control_base.op_mod_hfrt_must_trip);
    lemma_or_precedence(a.der_control_base.op_mod_hvrt_may_trip, b.der_control_base.op_mod_hvrt_may_trip);
    lemma_or_precedence(a.der_control_base.op_mod_hvrt_momentary_cessation, b.der_control_base.op_mod_hvrt_momentary_cessation);
    lemma_or_precedence(a.der_control_base.op_mod_hvrt_must_trip, b.der_control_base.op_mod_hvrt_must_trip);
    lemma_or_precedence(a.der_control_base.op_mod_lfrt_may_trip, b.der_control_base.op_mod_lfrt_may_trip);
    lemma_or_precedence(a.der_control_base.op_mod_lfrt_must_trip, b.der_control_base.op_mod_lfrt_must_trip);
    lemma_or_precedence(a.der_control_base.op_mod_lvrt_may_trip, b.der_control_base.op_mod_lvrt_may_trip);
    lemma_or_precedence(a.der_control_base.op_mod_lvrt_momentary_cessation, b.der_control_base.op_mod_lvrt_momentary_cessation);
    lemma_or_precedence(a.der_control_base.op_mod_lvrt_must_trip, b.der_control_base.op_mod_lvrt_must_trip);
    lemma_or_precedence(a.der_control_base.op_mod_max_lim_w, b.der_control_base.op_mod_max_lim_w);
    lemma_or_precedence(a.der_control_base.op_mod_target_var, b.der_control_base.op_mod_target_var);
    lemma_or_precedence(a.der_control_base.op_mod_target_w, b.der_control_base.op_mod_target_w);
    lemma_or_precedence(a.der_control_base.op_mod_volt_var, b.der_control_base.op_mod_volt_var);
    lemma_or_precedence(a.der_control_base.op_mod_volt_watt, b.der_control_base.op_mod_volt_watt);
    lemma_or_precedence(a.der_control_base.op_mod_watt_pf, b.der_control_base.op_mod_watt_pf);
    lemma_or_precedence(a.der_control_base.op_mod_watt_var, b.der_control_base.op_mod_watt_var);
    lemma_or_precedence(a.der_control_base.ramp_tms, b.der_control_base.ramp_tms);
    lemma_or_precedence(a.der_control_base.op_mod_imp_lim_w, b.der_control_base.op_mod_imp_lim_w);
    lemma_or_precedence(a.der_control_base.op_mod_exp_lim_w, b.der_control_base.op_mod_exp_lim_w);
    lemma_or_precedence(a.der_control_base.op_mod_gen_lim_w, b.der_control_base.op_mod_gen_lim_w);
    lemma_or_precedence(a.der_control_base.op_mod_load_lim_w, b.der_control_base.op_mod_load_lim_w);
    lemma_or_precedence(a.set_es_delay, b.set_es_delay);
    lemma_or_precedence(a.set_es_high_freq, b.set_es_high_freq);
    lemma_or_precedence(a.set_es_high_volt, b.set_es_high_volt);
    lemma_or_precedence(a.set_es_low_freq, b.set_es_low_freq);
    lemma_or_precedence(a.set_es_low_volt, b.set_es_low_volt);
    lemma_or_precedence(a.set_es_ramp_tms, b.set_es_ramp_tms);
    lemma_or_precedence(a.set_es_random_delay, b.set_es_random_delay);
    lemma_or_precedence(a.set_grad_w, b.set_grad_w);
    lemma_or_precedence(a.set_soft_grad_w, b.set_soft_grad_w);
}

/// The layered control sets at least the attributes of each part, and no more
/// than both together.
pub proof fn overlay_count_bounds(a: DefaultDERControl, b: DefaultDERControl)
    ensures
        active_count(overlay_spec(a, b)) >= active_count(a),
        active_count(overlay_spec(a, b)) >= active_count(b),
        active_count(overlay_spec(a, b)) <= active_count(a) + active_count(b),
{
    lemma_or_count(a.der_control_base.op_mod_connect, b.der_control_base.op_mod_connect);
    lemma_or_count(a.der_control_base.op_mod_energize, b.der_control_base.op_mod_energize);
    lemma_or_count(a.der_control_base.op_mod_fixed_pf_absorb_w, b.der_control_base.op_mod_fixed_pf_absorb_w);
    lemma_or_count(a.der_control_base.op_mod_fixed_pf_inject_w, b.der_control_base.op_mod_fixed_pf_inject_w);
    lemma_or_count(a.der_control_base.op_mod_fixed_var, b.der_control_base.op_mod_fixed_var);
    lemma_or_count(a.der_control_base.op_mod_fixed_w, b.der_control_base.op_mod_fixed_w);
    lemma_or_count(a.der_control_base.op_mod_freq_droop, b.der_control_base.op_mod_freq_droop);
    lemma_or_count(a.der_control_base.op_mod_freq_watt, b.der_control_base.op_mod_freq_watt);
    lemma_or_count(a.der_control_base.op_mod_hfrt_may_trip, b.der_control_base.op_mod_hfrt_may_trip);
    lemma_or_count(a.der_control_base.op_mod_hfrt_must_trip, b.der_control_base.op_mod_hfrt_must_trip);
    lemma_or_count(a.der_control_base.op_mod_hvrt_may_trip, b.der_control_base.op_mod_hvrt_may_trip);
    lemma_or_count(a.der_control_base.op_mod_hvrt_momentary_cessation, b.der_control_base.op_mod_hvrt_momentary_cessation);
    lemma_or_count(a.der_control_base.op_mod_hvrt_must_trip, b.der_control_base.op_mod_hvrt_must_trip);
    lemma_or_count(a.der_control_base.op_mod_lfrt_may_trip, b.der_control_base.op_mod_lfrt_may_trip);
    lemma_or_count(a.der_control_base.op_mod_lfrt_must_trip, b.der_control_base.op_mod_lfrt_must_trip);
    lemma_or_count(a.der_control_base.op_mod_lvrt_may_trip, b.der_control_base.op_mod_lvrt_may_trip);
    lemma_or_count(a.der_control_base.op_mod_lvrt_momentary_cessation, b.der_control_base.op_mod_lvrt_momentary_cessation);
    lemma_or_count(a.der_control_base.op_mod_lvrt_must_trip, b.der_control_base.op_mod_lvrt_must_trip);
    lemma_or_count(a.der_control_base.op_mod_max_lim_w, b.der_control_base.op_mod_max_lim_w);
    lemma_or_count(a.der_control_base.op_mod_target_var, b.der_control_base.op_mod_target_var);
    lemma_or_count(a.der_control_base.op_mod_target_w, b.der_control_base.op_mod_target_w);
    lemma_or_count(a.der_control_base.op_mod_volt_var, b.der_control_base.op_mod_volt_var);
    lemma_or_count(a.der_control_base.op_mod_volt_watt, b.der_control_base.op_mod_volt_watt);
    lemma_or_count(a.der_control_base.op_mod_watt_pf, b.der_control_base.op_mod_watt_pf);
    lemma_or_count(a.der_control_base.op_mod_watt_var, b.der_control_base.op_mod_watt_var);
    lemma_or_count(a.der_control_base.ramp_tms, b.der_control_base.ramp_tms);
    lemma_or_count(a.der_control_base.op_mod_imp_lim_w, b.der_control_base.op_mod_imp_lim_w);
    lemma_or_count(a.der_control_base.op_mod_exp_lim_w, b.der_control_base.op_mod_exp_lim_w);
    lemma_or_count(a.der_control_base.op_mod_gen_lim_w, b.der_control_base.op_mod_gen_lim_w);
    lemma_or_count(a.der_control_base.op_mod_load_lim_w, b.der_control_base.op_mod_load_lim_w);
    lemma_or_count(a.set_es_delay, b.set_es_delay);
    lemma_or_count(a.set_es_high_freq, b.set_es_high_freq);
    lemma_or_count(a.set_es_high_volt, b.set_es_high_volt);
    lemma_or_count(a.set_es_low_freq, b.set_es_low_freq);
    lemma_or_count(a.set_es_low_volt, b.set_es_low_volt);
    lemma_or_count(a.set_es_ramp_tms, b.set_es_ramp_tms);
    lemma_or_count(a.set_es_random_delay, b.set_es_random_delay);
    lemma_or_count(a.set_grad_w, b.set_grad_w);
    lemma_or_count(a.set_soft_grad_w, b.set_soft_grad_w);
}

} // verus!
