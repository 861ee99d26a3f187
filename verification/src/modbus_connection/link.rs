//! The decisions of the connection to the device: when to connect, when to
//! write the parameters and when to poll the device's state. The task asks
//! each question in turn, performs what is due and hands back whether it
//! worked; a failure drops the connection.
use vstd::prelude::*;

use crate::modbus_connection::{Curve, Model711Ctl, Parameters};
use crate::scaled_value::ScaledValue;

verus! {

/// The least time between two polls of the device, in milliseconds.
pub const MIN_POLL_PERIOD_MS: u64 = 1000;

/// Two optional curves agree in their points and scale factors.
pub open spec fn same_curve_points<TX, TY>(a: Option<Curve<TX, TY>>, b: Option<Curve<TX, TY>>) -> bool {
    match (a, b) {
        (Some(x), Some(y)) => x.points@ == y.points@ && x.sf_x == y.sf_x && x.sf_y == y.sf_y,
        (None, None) => true,
        _ => false,
    }
}

/// Two sets of parameters agree in every value, at the same scale factors.
pub open spec fn parameters_match(a: Parameters, b: Parameters) -> bool {
    &&& a.pfw_inj_ena == b.pfw_inj_ena
    &&& a.pfw_inj_pf == b.pfw_inj_pf
    &&& a.pfw_inj_ext == b.pfw_inj_ext
    &&& a.pfw_abs_ena == b.pfw_abs_ena
    &&& a.pfw_abs_pf == b.pfw_abs_pf
    &&& a.pfw_abs_ext == b.pfw_abs_ext
    &&& a.vref == b.vref
    &&& a.vref_auto_ena == b.vref_auto_ena
    &&& a.vref_auto_tms == b.vref_auto_tms
    &&& same_curve_points(a.der_volt_var, b.der_volt_var)
    &&& a.der_volt_var_tms == b.der_volt_var_tms
    &&& a.der_volt_var_dept_ref == b.der_volt_var_dept_ref
    &&& same_curve_points(a.der_volt_watt, b.der_volt_watt)
    &&& a.der_volt_watt_tms == b.der_volt_watt_tms
    &&& a.der_volt_watt_dept_ref == b.der_volt_watt_dept_ref
    &&& a.var_set_ena == b.var_set_ena
    &&& a.var_set_mod == b.var_set_mod
    &&& a.var_set_pct == b.var_set_pct
    &&& same_curve_points(a.der_trip_lv_must, b.der_trip_lv_must)
    &&& same_curve_points(a.der_trip_lv_may, b.der_trip_lv_may)
    &&& same_curve_points(a.der_trip_lv_mom_cess, b.der_trip_lv_mom_cess)
    &&& same_curve_points(a.der_trip_hv_must, b.der_trip_hv_must)
    &&& same_curve_points(a.der_trip_hv_may, b.der_trip_hv_may)
    &&& same_curve_points(a.der_trip_hv_mom_cess, b.der_trip_hv_mom_cess)
    &&& same_curve_points(a.der_trip_lf_must, b.der_trip_lf_must)
    &&& same_curve_points(a.der_trip_lf_may, b.der_trip_lf_may)
    &&& same_curve_points(a.der_trip_hf_must, b.der_trip_hf_must)
    &&& same_curve_points(a.der_trip_hf_may, b.der_trip_hf_may)
    &&& a.droop_ctl == b.droop_ctl
    &&& a.es == b.es
    &&& a.esv_hi == b.esv_hi
    &&& a.esv_lo == b.esv_lo
    &&& a.es_hz_hi == b.es_hz_hi
    &&& a.es_hz_lo == b.es_hz_lo
    &&& a.es_dly_tms == b.es_dly_tms
    &&& a.es_rnd_tms == b.es_rnd_tms
    &&& a.es_rmp_tms == b.es_rmp_tms
    &&& a.w_max_lim_pct_ena == b.w_max_lim_pct_ena
    &&& a.w_max_lim_pct == b.w_max_lim_pct
    &&& a.w_set_pct == b.w_set_pct
    &&& a.w_set_ena == b.w_set_ena
    &&& a.w_set_mod == b.w_set_mod
    &&& a.w_set == b.w_set
}

fn same_u16(a: Option<ScaledValue<u16>>, b: Option<ScaledValue<u16>>) -> (r: bool)
    ensures
        r == (a == b),
{
    match (a, b) {
        (Some(x), Some(y)) => x.value == y.value && x.sf == y.sf,
        (None, None) => true,
        _ => false,
    }
}

fn same_i16(a: Option<ScaledValue<i16>>, b: Option<ScaledValue<i16>>) -> (r: bool)
    ensures
        r == (a == b),
{
    match (a, b) {
        (Some(x), Some(y)) => x.value == y.value && x.sf == y.sf,
        (None, None) => true,
        _ => false,
    }
}

fn same_u32(a: Option<ScaledValue<u32>>, b: Option<ScaledValue<u32>>) -> (r: bool)
    ensures
        r == (a == b),
{
    match (a, b) {
        (Some(x), Some(y)) => x.value == y.value && x.sf == y.sf,
        (None, None) => true,
        _ => false,
    }
}

fn same_i32(a: Option<ScaledValue<i32>>, b: Option<ScaledValue<i32>>) -> (r: bool)
    ensures
        r == (a == b),
{
    match (a, b) {
        (Some(x), Some(y)) => x.value == y.value && x.sf == y.sf,
        (None, None) => true,
        _ => false,
    }
}

fn same_droop(a: Option<Model711Ctl>, b: Option<Model711Ctl>) -> (r: bool)
    ensures
        r == (a == b),
{
    match (a, b) {
        (Some(x), Some(y)) => same_u32(Some(x.db_of), Some(y.db_of)) && same_u32(Some(x.db_uf), Some(y.db_uf))
            && same_u16(Some(x.k_of), Some(y.k_of)) && same_u16(Some(x.k_uf), Some(y.k_uf)) && same_u32(
            Some(x.rsp_tms),
            Some(y.rsp_tms),
        ),
        (None, None) => true,
        _ => false,
    }
}

fn same_volt_curve(a: &Option<Curve<u16, i16>>, b: &Option<Curve<u16, i16>>) -> (r: bool)
    ensures
        r == same_curve_points(*a, *b),
{
    match (a, b) {
        (Some(x), Some(y)) => {
            if x.sf_x != y.sf_x || x.sf_y != y.sf_y || x.points.len() != y.points.len() {
                return false;
            }
            let mut i: usize = 0;
            while i < x.points.len()
                invariant
                    *a == Some(*x),
                    *b == Some(*y),
                    x.points@.len() == y.points@.len(),
                    i <= x.points@.len(),
                    forall|j: int| 0 <= j < i ==> x.points@[j] == y.points@[j],
                decreases x.points@.len() - i,
            {
                if x.points[i].0 != y.points[i].0 || x.points[i].1 != y.points[i].1 {
                    assert(x.points@[i as int] != y.points@[i as int]);
                    return false;
                }
                i = i + 1;
            }
            assert(x.points@ =~= y.points@);
            true
        },
        (None, None) => true,
        _ => false,
    }
}

fn same_trip_curve(a: &Option<Curve<u16, u32>>, b: &Option<Curve<u16, u32>>) -> (r: bool)
    ensures
        r == same_curve_points(*a, *b),
{
    match (a, b) {
        (Some(x), Some(y)) => {
            if x.sf_x != y.sf_x || x.sf_y != y.sf_y || x.points.len() != y.points.len() {
                return false;
            }
            let mut i: usize = 0;
            while i < x.points.len()
                invariant
                    *a == Some(*x),
                    *b == Some(*y),
                    x.points@.len() == y.points@.len(),
                    i <= x.points@.len(),
                    forall|j: int| 0 <= j < i ==> x.points@[j] == y.points@[j],
                decreases x.points@.len() - i,
            {
                if x.points[i].0 != y.points[i].0 || x.points[i].1 != y.points[i].1 {
                    assert(x.points@[i as int] != y.points@[i as int]);
                    return false;
                }
                i = i + 1;
            }
            assert(x.points@ =~= y.points@);
            true
        },
        (None, None) => true,
        _ => false,
    }
}

fn same_freq_curve(a: &Option<Curve<u32, u32>>, b: &Option<Curve<u32, u32>>) -> (r: bool)
    ensures
        r == same_curve_points(*a, *b),
{
    match (a, b) {
        (Some(x), Some(y)) => {
            if x.sf_x != y.sf_x || x.sf_y != y.sf_y || x.points.len() != y.points.len() {
                return false;
            }
            let mut i: usize = 0;
            while i < x.points.len()
                invariant
                    *a == Some(*x),
                    *b == Some(*y),
                    x.points@.len() == y.points@.len(),
                    i <= x.points@.len(),
                    forall|j: int| 0 <= j < i ==> x.points@[j] == y.points@[j],
                decreases x.points@.len() - i,
            {
                if x.points[i].0 != y.points[i].0 || x.points[i].1 != y.points[i].1 {
                    assert(x.points@[i as int] != y.points@[i as int]);
                    return false;
                }
                i = i + 1;
            }
            assert(x.points@ =~= y.points@);
            true
        },
        (None, None) => true,
        _ => false,
    }
}

/// Whether two sets of parameters agree.
pub fn parameters_agree(a: &Parameters, b: &Parameters) -> (r: bool)
    ensures
        r == parameters_match(*a, *b),
{
    a.pfw_inj_ena == b.pfw_inj_ena && same_u16(a.pfw_inj_pf, b.pfw_inj_pf) && a.pfw_inj_ext == b.pfw_inj_ext
        && a.pfw_abs_ena == b.pfw_abs_ena && same_u16(a.pfw_abs_pf, b.pfw_abs_pf) && a.pfw_abs_ext
        == b.pfw_abs_ext && same_u16(a.vref, b.vref) && a.vref_auto_ena == b.vref_auto_ena && a.vref_auto_tms
        == b.vref_auto_tms && same_volt_curve(&a.der_volt_var, &b.der_volt_var) && same_u32(
        a.der_volt_var_tms,
        b.der_volt_var_tms,
    ) && a.der_volt_var_dept_ref == b.der_volt_var_dept_ref && same_volt_curve(&a.der_volt_watt, &b.der_volt_watt)
        && same_u32(a.der_volt_watt_tms, b.der_volt_watt_tms) && a.der_volt_watt_dept_ref
        == b.der_volt_watt_dept_ref && a.var_set_ena == b.var_set_ena && a.var_set_mod == b.var_set_mod
        && same_i16(a.var_set_pct, b.var_set_pct) && same_trip_curve(&a.der_trip_lv_must, &b.der_trip_lv_must)
        && same_trip_curve(&a.der_trip_lv_may, &b.der_trip_lv_may) && same_trip_curve(
        &a.der_trip_lv_mom_cess,
        &b.der_trip_lv_mom_cess,
    ) && same_trip_curve(&a.der_trip_hv_must, &b.der_trip_hv_must) && same_trip_curve(
        &a.der_trip_hv_may,
        &b.der_trip_hv_may,
    ) && same_trip_curve(&a.der_trip_hv_mom_cess, &b.der_trip_hv_mom_cess) && same_freq_curve(
        &a.der_trip_lf_must,
        &b.der_trip_lf_must,
    ) && same_freq_curve(&a.der_trip_lf_may, &b.der_trip_lf_may) && same_freq_curve(
        &a.der_trip_hf_must,
        &b.der_trip_hf_must,
    ) && same_freq_curve(&a.der_trip_hf_may, &b.der_trip_hf_may) && same_droop(a.droop_ctl, b.droop_ctl) && a.es
        == b.es && same_u16(a.esv_hi, b.esv_hi) && same_u16(a.esv_lo, b.esv_lo) && same_u32(
        a.es_hz_hi,
        b.es_hz_hi,
    ) && same_u32(a.es_hz_lo, b.es_hz_lo) && a.es_dly_tms == b.es_dly_tms && a.es_rnd_tms == b.es_rnd_tms
        && a.es_rmp_tms == b.es_rmp_tms && a.w_max_lim_pct_ena == b.w_max_lim_pct_ena && same_u16(
        a.w_max_lim_pct,
        b.w_max_lim_pct,
    ) && same_i16(a.w_set_pct, b.w_set_pct) && a.w_set_ena == b.w_set_ena && a.w_set_mod == b.w_set_mod
        && same_i32(a.w_set, b.w_set)
}

/// What the connection task holds between its turns.
pub struct DeviceLink {
    pub connected: bool,
    /// Parameters received and not yet written to the device.
    pub pending: Option<Parameters>,
    /// The parameters last written to the device, while it stays connected.
    pub written: Option<Parameters>,
    /// When the device was last polled, in milliseconds.
    pub last_poll_ms: u64,
}

impl DeviceLink {
    /// Not connected, with nothing to write; the first poll is due a poll
    /// period after `now`.
    pub fn new(now: u64) -> (r: DeviceLink)
        ensures
            !r.connected,
            r.pending is None,
            r.written is None,
            r.last_poll_ms == now,
    {
        DeviceLink { connected: false, pending: None, written: None, last_poll_ms: now }
    }

    /// Takes in new parameters: they are to be written unless they agree
    /// with those written last.
    pub fn receive(&mut self, parameters: Parameters)
        ensures
            final(self).connected == old(self).connected,
            final(self).written == old(self).written,
            final(self).last_poll_ms == old(self).last_poll_ms,
            (old(self).written matches Some(w) && parameters_match(w, parameters)) ==> final(self).pending is None,
            !(old(self).written matches Some(w) && parameters_match(w, parameters)) ==> final(self).pending == Some(
                parameters,
            ),
    {
        let same = match &self.written {
            Some(w) => parameters_agree(w, &parameters),
            None => false,
        };
        if same {
            self.pending = None;
        } else {
            self.pending = Some(parameters);
        }
    }

    /// Whether the device is to be connected.
    pub fn needs_connection(&self) -> (r: bool)
        ensures
            r == !self.connected,
    {
        !self.connected
    }

    /// Takes in whether connecting worked. A device newly connected may
    /// have restarted, so the parameters last written are to be written
    /// again, unless newer ones wait.
    pub fn connection_made(&mut self, ok: bool)
        ensures
            final(self).connected == ok,
            final(self).last_poll_ms == old(self).last_poll_ms,
            ok ==> final(self).written is None && final(self).pending == match old(self).pending {
                Some(p) => Some(p),
                None => old(self).written,
            },
            !ok ==> final(self).written == old(self).written && final(self).pending == old(self).pending,
    {
        if ok {
            self.connected = true;
            let written = self.written.take();
            if self.pending.is_none() {
                self.pending = written;
            }
        } else {
            self.connected = false;
        }
    }

    /// Whether parameters are to be written now: the device is connected and
    /// some wait.
    pub fn should_write(&self) -> (r: bool)
        ensures
            r == (self.connected && self.pending is Some),
    {
        self.connected && self.pending.is_some()
    }

    /// Takes in whether writing the waiting parameters worked: they are the
    /// ones written then; a failure drops the connection and keeps them
    /// waiting.
    pub fn write_done(&mut self, ok: bool)
        ensures
            final(self).last_poll_ms == old(self).last_poll_ms,
            ok ==> final(self).connected == old(self).connected && final(self).pending is None && final(self).written
                == old(self).pending,
            !ok ==> !final(self).connected && final(self).pending == old(self).pending && final(self).written == old(
                self,
            ).written,
    {
        if ok {
            self.written = self.pending.take();
        } else {
            self.connected = false;
        }
    }

    /// Whether the device is to be polled at `now`: it is connected and the
    /// last poll is more than a poll period ago.
    pub fn should_poll(&self, now: u64) -> (r: bool)
        ensures
            r == (self.connected && now >= self.last_poll_ms && now - self.last_poll_ms > MIN_POLL_PERIOD_MS),
    {
        self.connected && now >= self.last_poll_ms && now - self.last_poll_ms > MIN_POLL_PERIOD_MS
    }

    /// Takes in whether polling worked, finished at `now`; a failure drops
    /// the connection.
    pub fn poll_done(&mut self, ok: bool, now: u64)
        ensures
            final(self).last_poll_ms == now,
            final(self).connected == (old(self).connected && ok),
            final(self).pending == old(self).pending,
            final(self).written == old(self).written,
    {
        self.last_poll_ms = now;
        if !ok {
            self.connected = false;
        }
    }
}

} // verus!
