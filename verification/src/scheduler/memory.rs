//! What the scheduler remembers between commands: the parameters it last
//! sent out and the wake-up it last arranged. After each command it works out
//! the parameters and the next wake-up afresh, and only a change is acted on.
use std::sync::Arc;

use vstd::prelude::*;

use crate::attributes::ControlAttributes;
use crate::scheduler::{Event, attached_as, calc_next_schedule_time, calc_parameters, candidates, curve_links, earliest_after, events_at, layered, linked_curves, opt_int};
use crate::sep2_model::{Lfdi, Sep2Model};
use crate::sep2_types::{CurveData, DERControlBase, DERCurve, DERCurveLink, DefaultDERControl, same_curve};

verus! {

/// Two optional links agree by href.
pub open spec fn same_link(a: Option<DERCurveLink>, b: Option<DERCurveLink>) -> bool {
    match (a, b) {
        (Some(x), Some(y)) => x.href@ == y.href@,
        (None, None) => true,
        _ => false,
    }
}

/// Two optional strings agree by their characters.
pub open spec fn same_text(a: Option<String>, b: Option<String>) -> bool {
    match (a, b) {
        (Some(x), Some(y)) => x@ == y@,
        (None, None) => true,
        _ => false,
    }
}

/// Two sets of base attributes agree in every attribute.
pub open spec fn same_base(a: DERControlBase, b: DERControlBase) -> bool {
    &&& a.op_mod_connect == b.op_mod_connect
    &&& a.op_mod_energize == b.op_mod_energize
    &&& a.op_mod_fixed_pf_absorb_w == b.op_mod_fixed_pf_absorb_w
    &&& a.op_mod_fixed_pf_inject_w == b.op_mod_fixed_pf_inject_w
    &&& a.op_mod_fixed_var == b.op_mod_fixed_var
    &&& a.op_mod_fixed_w == b.op_mod_fixed_w
    &&& a.op_mod_freq_droop == b.op_mod_freq_droop
    &&& same_link(a.op_mod_freq_watt, b.op_mod_freq_watt)
    &&& same_link(a.op_mod_hfrt_may_trip, b.op_mod_hfrt_may_trip)
    &&& same_link(a.op_mod_hfrt_must_trip, b.op_mod_hfrt_must_trip)
    &&& same_link(a.op_mod_hvrt_may_trip, b.op_mod_hvrt_may_trip)
    &&& same_link(a.op_mod_hvrt_momentary_cessation, b.op_mod_hvrt_momentary_cessation)
    &&& same_link(a.op_mod_hvrt_must_trip, b.op_mod_hvrt_must_trip)
    &&& same_link(a.op_mod_lfrt_may_trip, b.op_mod_lfrt_may_trip)
    &&& same_link(a.op_mod_lfrt_must_trip, b.op_mod_lfrt_must_trip)
    &&& same_link(a.op_mod_lvrt_may_trip, b.op_mod_lvrt_may_trip)
    &&& same_link(a.op_mod_lvrt_momentary_cessation, b.op_mod_lvrt_momentary_cessation)
    &&& same_link(a.op_mod_lvrt_must_trip, b.op_mod_lvrt_must_trip)
    &&& a.op_mod_max_lim_w == b.op_mod_max_lim_w
    &&& a.op_mod_target_var == b.op_mod_target_var
    &&& a.op_mod_target_w == b.op_mod_target_w
    &&& same_link(a.op_mod_volt_var, b.op_mod_volt_var)
    &&& same_link(a.op_mod_volt_watt, b.op_mod_volt_watt)
    &&& same_link(a.op_mod_watt_pf, b.op_mod_watt_pf)
    &&& same_link(a.op_mod_watt_var, b.op_mod_watt_var)
    &&& a.ramp_tms == b.ramp_tms
    &&& a.op_mod_imp_lim_w == b.op_mod_imp_lim_w
    &&& a.op_mod_exp_lim_w == b.op_mod_exp_lim_w
    &&& a.op_mod_gen_lim_w == b.op_mod_gen_lim_w
    &&& a.op_mod_load_lim_w == b.op_mod_load_lim_w
}

/// Two default controls agree in every attribute.
pub open spec fn same_control(a: DefaultDERControl, b: DefaultDERControl) -> bool {
    &&& same_base(a.der_control_base, b.der_control_base)
    &&& a.set_es_delay == b.set_es_delay
    &&& a.set_es_high_freq == b.set_es_high_freq
    &&& a.set_es_high_volt == b.set_es_high_volt
    &&& a.set_es_low_freq == b.set_es_low_freq
    &&& a.set_es_low_volt == b.set_es_low_volt
    &&& a.set_es_ramp_tms == b.set_es_ramp_tms
    &&& a.set_es_random_delay == b.set_es_random_delay
    &&& a.set_grad_w == b.set_grad_w
    &&& a.set_soft_grad_w == b.set_soft_grad_w
    &&& same_text(a.href, b.href)
}

/// Two curves agree in every field, their points and href by value.
pub open spec fn curves_match(a: DERCurve, b: DERCurve) -> bool {
    &&& a.mrid == b.mrid
    &&& a.autonomous_v_ref_enable == b.autonomous_v_ref_enable
    &&& a.autonomous_v_ref_time_constant == b.autonomous_v_ref_time_constant
    &&& a.creation_time == b.creation_time
    &&& a.curve_data@ == b.curve_data@
    &&& a.open_loop_tms == b.open_loop_tms
    &&& a.v_ref == b.v_ref
    &&& a.x_multiplier == b.x_multiplier
    &&& a.y_multiplier == b.y_multiplier
    &&& a.y_ref_type == b.y_ref_type
    &&& same_text(a.href, b.href)
}

/// Parameters `p` are those with attributes `inner` and the curves `curves`
/// by href.
pub open spec fn parameters_are(p: ControlAttributes, inner: DefaultDERControl, curves: Seq<(Seq<char>, DERCurve)>) -> bool {
    &&& same_control(p.inner, inner)
    &&& p.curves@.len() == curves.len()
    &&& forall|i: int|
        0 <= i < curves.len() ==> (#[trigger] p.curves@[i]).0@ == curves[i].0 && curves_match(p.curves@[i].1, curves[i].1)
}

/// Two sets of parameters agree: their attributes, and their curves in order.
pub open spec fn same_parameters(a: ControlAttributes, b: ControlAttributes) -> bool {
    &&& same_control(a.inner, b.inner)
    &&& a.curves@.len() == b.curves@.len()
    &&& forall|i: int|
        0 <= i < a.curves@.len() ==> (#[trigger] a.curves@[i]).0@ == b.curves@[i].0@ && curves_match(
            a.curves@[i].1,
            b.curves@[i].1,
        )
}

/// Two events agree: the same kind of event with the same contents.
pub open spec fn same_event(a: Event, b: Event) -> bool {
    match (a, b) {
        (
            Event::LinkAddedOrUpdated { href: h1, kind: k1, poll_rate: p1 },
            Event::LinkAddedOrUpdated { href: h2, kind: k2, poll_rate: p2 },
        ) => h1@ == h2@ && k1 == k2 && p1 == p2,
        (Event::LinkRemoved { href: h1, kind: k1 }, Event::LinkRemoved { href: h2, kind: k2 }) => h1@ == h2@ && k1
            == k2,
        (Event::ParametersChanged(p1), Event::ParametersChanged(p2)) => same_parameters(*p1, *p2),
        (
            Event::DERControlStatusChanged { subject: s1, status: t1, reply_to: r1 },
            Event::DERControlStatusChanged { subject: s2, status: t2, reply_to: r2 },
        ) => s1 == s2 && t1 == t2 && r1@ == r2@,
        _ => false,
    }
}

/// Two lists of events agree, event by event.
pub open spec fn same_events(a: Seq<Event>, b: Seq<Event>) -> bool {
    &&& a.len() == b.len()
    &&& forall|i: int| 0 <= i < a.len() ==> same_event(#[trigger] a[i], b[i])
}

fn links_agree(a: &Option<DERCurveLink>, b: &Option<DERCurveLink>) -> (r: bool)
    ensures
        r == same_link(*a, *b),
{
    match (a, b) {
        (Some(x), Some(y)) => x.href.eq(&y.href),
        (None, None) => true,
        _ => false,
    }
}

fn texts_agree(a: &Option<String>, b: &Option<String>) -> (r: bool)
    ensures
        r == same_text(*a, *b),
{
    match (a, b) {
        (Some(x), Some(y)) => x.eq(y),
        (None, None) => true,
        _ => false,
    }
}

fn bases_agree(a: &DERControlBase, b: &DERControlBase) -> (r: bool)
    ensures
        r == same_base(*a, *b),
{
    a.op_mod_connect == b.op_mod_connect && a.op_mod_energize == b.op_mod_energize && a.op_mod_fixed_pf_absorb_w
        == b.op_mod_fixed_pf_absorb_w && a.op_mod_fixed_pf_inject_w == b.op_mod_fixed_pf_inject_w
        && a.op_mod_fixed_var == b.op_mod_fixed_var && a.op_mod_fixed_w == b.op_mod_fixed_w
        && a.op_mod_freq_droop == b.op_mod_freq_droop && links_agree(&a.op_mod_freq_watt, &b.op_mod_freq_watt)
        && links_agree(&a.op_mod_hfrt_may_trip, &b.op_mod_hfrt_may_trip) && links_agree(
        &a.op_mod_hfrt_must_trip,
        &b.op_mod_hfrt_must_trip,
    ) && links_agree(&a.op_mod_hvrt_may_trip, &b.op_mod_hvrt_may_trip) && links_agree(
        &a.op_mod_hvrt_momentary_cessation,
        &b.op_mod_hvrt_momentary_cessation,
    ) && links_agree(&a.op_mod_hvrt_must_trip, &b.op_mod_hvrt_must_trip) && links_agree(
        &a.op_mod_lfrt_may_trip,
        &b.op_mod_lfrt_may_trip,
    ) && links_agree(&a.op_mod_lfrt_must_trip, &b.op_mod_lfrt_must_trip) && links_agree(
        &a.op_mod_lvrt_may_trip,
        &b.op_mod_lvrt_may_trip,
    ) && links_agree(&a.op_mod_lvrt_momentary_cessation, &b.op_mod_lvrt_momentary_cessation)
        && links_agree(&a.op_mod_lvrt_must_trip, &b.op_mod_lvrt_must_trip) && a.op_mod_max_lim_w
        == b.op_mod_max_lim_w && a.op_mod_target_var == b.op_mod_target_var && a.op_mod_target_w
        == b.op_mod_target_w && links_agree(&a.op_mod_volt_var, &b.op_mod_volt_var) && links_agree(
        &a.op_mod_volt_watt,
        &b.op_mod_volt_watt,
    ) && links_agree(&a.op_mod_watt_pf, &b.op_mod_watt_pf) && links_agree(&a.op_mod_watt_var, &b.op_mod_watt_var)
        && a.ramp_tms == b.ramp_tms && a.op_mod_imp_lim_w == b.op_mod_imp_lim_w && a.op_mod_exp_lim_w
        == b.op_mod_exp_lim_w && a.op_mod_gen_lim_w == b.op_mod_gen_lim_w && a.op_mod_load_lim_w
        == b.op_mod_load_lim_w
}

fn controls_agree(a: &DefaultDERControl, b: &DefaultDERControl) -> (r: bool)
    ensures
        r == same_control(*a, *b),
{
    bases_agree(&a.der_control_base, &b.der_control_base) && a.set_es_delay == b.set_es_delay
        && a.set_es_high_freq == b.set_es_high_freq && a.set_es_high_volt == b.set_es_high_volt
        && a.set_es_low_freq == b.set_es_low_freq && a.set_es_low_volt == b.set_es_low_volt && a.set_es_ramp_tms
        == b.set_es_ramp_tms && a.set_es_random_delay == b.set_es_random_delay && a.set_grad_w == b.set_grad_w
        && a.set_soft_grad_w == b.set_soft_grad_w && texts_agree(&a.href, &b.href)
}

fn points_agree(a: &Vec<CurveData>, b: &Vec<CurveData>) -> (r: bool)
    ensures
        r == (a@ == b@),
{
    if a.len() != b.len() {
        return false;
    }
    let mut i: usize = 0;
    while i < a.len()
        invariant
            a@.len() == b@.len(),
            i <= a@.len(),
            forall|j: int| 0 <= j < i ==> a@[j] == b@[j],
        decreases a@.len() - i,
    {
        if a[i] != b[i] {
            return false;
        }
        i = i + 1;
    }
    assert(a@ =~= b@);
    true
}

fn curves_agree(a: &DERCurve, b: &DERCurve) -> (r: bool)
    ensures
        r == curves_match(*a, *b),
{
    a.mrid == b.mrid && a.autonomous_v_ref_enable == b.autonomous_v_ref_enable
        && a.autonomous_v_ref_time_constant == b.autonomous_v_ref_time_constant && a.creation_time
        == b.creation_time && points_agree(&a.curve_data, &b.curve_data) && a.open_loop_tms == b.open_loop_tms
        && a.v_ref == b.v_ref && a.x_multiplier == b.x_multiplier && a.y_multiplier == b.y_multiplier
        && a.y_ref_type == b.y_ref_type && texts_agree(&a.href, &b.href)
}

/// Whether two sets of parameters agree.
pub fn parameters_agree(a: &ControlAttributes, b: &ControlAttributes) -> (r: bool)
    ensures
        r == same_parameters(*a, *b),
{
    if !controls_agree(&a.inner, &b.inner) || a.curves.len() != b.curves.len() {
        return false;
    }
    let mut i: usize = 0;
    while i < a.curves.len()
        invariant
            a.curves@.len() == b.curves@.len(),
            i <= a.curves@.len(),
            forall|j: int|
                0 <= j < i ==> (#[trigger] a.curves@[j]).0@ == b.curves@[j].0@ && curves_match(
                    a.curves@[j].1,
                    b.curves@[j].1,
                ),
        decreases a.curves@.len() - i,
    {
        if !a.curves[i].0.eq(&b.curves[i].0) || !curves_agree(&a.curves[i].1, &b.curves[i].1) {
            return false;
        }
        i = i + 1;
    }
    true
}

fn events_agree(a: &Event, b: &Event) -> (r: bool)
    ensures
        r == same_event(*a, *b),
{
    match (a, b) {
        (
            Event::LinkAddedOrUpdated { href: h1, kind: k1, poll_rate: p1 },
            Event::LinkAddedOrUpdated { href: h2, kind: k2, poll_rate: p2 },
        ) => h1.eq(h2) && *k1 == *k2 && *p1 == *p2,
        (Event::LinkRemoved { href: h1, kind: k1 }, Event::LinkRemoved { href: h2, kind: k2 }) => h1.eq(h2) && *k1
            == *k2,
        (Event::ParametersChanged(p1), Event::ParametersChanged(p2)) => parameters_agree(&**p1, &**p2),
        (
            Event::DERControlStatusChanged { subject: s1, status: t1, reply_to: r1 },
            Event::DERControlStatusChanged { subject: s2, status: t2, reply_to: r2 },
        ) => *s1 == *s2 && *t1 == *t2 && r1.eq(r2),
        _ => false,
    }
}

/// Whether two lists of events agree.
pub fn event_lists_agree(a: &Vec<Event>, b: &Vec<Event>) -> (r: bool)
    ensures
        r == same_events(a@, b@),
{
    if a.len() != b.len() {
        return false;
    }
    let mut i: usize = 0;
    while i < a.len()
        invariant
            a@.len() == b@.len(),
            i <= a@.len(),
            forall|j: int| 0 <= j < i ==> same_event(#[trigger] a@[j], b@[j]),
        decreases a@.len() - i,
    {
        if !events_agree(&a[i], &b[i]) {
            return false;
        }
        i = i + 1;
    }
    true
}


/// A copy of parameters: the same attributes, and copies of the curves.
pub fn copy_parameters(p: &ControlAttributes) -> (r: ControlAttributes)
    ensures
        r.inner == p.inner,
        r.curves@.len() == p.curves@.len(),
        forall|i: int|
            0 <= i < p.curves@.len() ==> (#[trigger] r.curves@[i]).0 == p.curves@[i].0 && same_curve(
                r.curves@[i].1,
                p.curves@[i].1,
            ),
        same_parameters(r, *p),
{
    let mut curves: Vec<(String, DERCurve)> = Vec::new();
    let mut i: usize = 0;
    while i < p.curves.len()
        invariant
            i <= p.curves@.len(),
            curves@.len() == i,
            forall|j: int|
                0 <= j < i ==> (#[trigger] curves@[j]).0 == p.curves@[j].0 && same_curve(curves@[j].1, p.curves@[j].1),
        decreases p.curves@.len() - i,
    {
        let entry = (p.curves[i].0.clone(), p.curves[i].1.duplicate());
        curves.push(entry);
        i = i + 1;
    }
    ControlAttributes { inner: p.inner.duplicate(), curves }
}

/// A copy of an event.
pub fn copy_event(e: &Event) -> (r: Event)
    ensures
        same_event(r, *e),
{
    match e {
        Event::LinkAddedOrUpdated { href, kind, poll_rate } => Event::LinkAddedOrUpdated {
            href: href.clone(),
            kind: *kind,
            poll_rate: *poll_rate,
        },
        Event::LinkRemoved { href, kind } => Event::LinkRemoved { href: href.clone(), kind: *kind },
        Event::ParametersChanged(p) => Event::ParametersChanged(Arc::new(copy_parameters(&**p))),
        Event::DERControlStatusChanged { subject, status, reply_to } => Event::DERControlStatusChanged {
            subject: *subject,
            status: *status,
            reply_to: reply_to.clone(),
        },
    }
}

/// A copy of a list of events.
pub fn copy_events(v: &Vec<Event>) -> (r: Vec<Event>)
    ensures
        same_events(r@, v@),
{
    let mut out: Vec<Event> = Vec::new();
    let mut i: usize = 0;
    while i < v.len()
        invariant
            i <= v@.len(),
            out@.len() == i,
            forall|j: int| 0 <= j < i ==> same_event(#[trigger] out@[j], v@[j]),
        decreases v@.len() - i,
    {
        out.push(copy_event(&v[i]));
        i = i + 1;
    }
    out
}

/// What the scheduler last sent out and arranged.
pub struct SchedulerMemory {
    /// The parameters last sent out.
    pub parameters: ControlAttributes,
    /// The time of the wake-up last arranged.
    pub next_time: Option<i64>,
    /// The responses due at that wake-up.
    pub next_events: Vec<Event>,
}

/// What changed after a command.
pub struct Reschedule {
    /// The parameters, where they differ from those last sent out.
    pub parameters: Option<ControlAttributes>,
    /// The next wake-up, its time and the responses due then, where either
    /// differs from the last arranged.
    pub wake: Option<(Option<i64>, Vec<Event>)>,
}

/// The parameters of the device `lfdi` at `now`, without their curves.
pub open spec fn due_attributes(model: Sep2Model, lfdi: Lfdi, now: i64) -> DefaultDERControl {
    layered(model.device_controls(lfdi, now as int), now as int)
}

/// The curves that the parameters of the device `lfdi` at `now` link to.
pub open spec fn due_curves(model: Sep2Model, lfdi: Lfdi, now: i64) -> Seq<(Seq<char>, DERCurve)> {
    linked_curves(model.curves.entries@, curve_links(due_attributes(model, lfdi, now)))
}

/// The time of the next change of the schedule of the device after `now`.
pub open spec fn due_time(model: Sep2Model, lfdi: Lfdi, now: i64) -> Option<int> {
    earliest_after(candidates(model.device_controls(lfdi, now as int)), now as int)
}

/// The responses due at the next change of the schedule.
pub open spec fn due_events(model: Sep2Model, lfdi: Lfdi, now: i64) -> Seq<Event> {
    match due_time(model, lfdi, now) {
        Some(t) => events_at(candidates(model.device_controls(lfdi, now as int)), t),
        None => Seq::empty(),
    }
}

proof fn lemma_agreement_is_match(
    cur: ControlAttributes,
    prior: ControlAttributes,
    attrs: DefaultDERControl,
    curves: Seq<(Seq<char>, DERCurve)>,
)
    requires
        cur.inner == attrs,
        attached_as(cur.curves@, curves),
    ensures
        same_parameters(cur, prior) <==> parameters_are(prior, attrs, curves),
{
    if same_parameters(cur, prior) {
        assert forall|i: int| 0 <= i < curves.len() implies (#[trigger] prior.curves@[i]).0@ == curves[i].0
            && curves_match(prior.curves@[i].1, curves[i].1) by {
            assert(cur.curves@[i].0@ == prior.curves@[i].0@);
        }
    }
    if parameters_are(prior, attrs, curves) {
        assert forall|i: int| 0 <= i < cur.curves@.len() implies (#[trigger] cur.curves@[i]).0@
            == prior.curves@[i].0@ && curves_match(cur.curves@[i].1, prior.curves@[i].1) by {
            assert(cur.curves@[i].0@ == curves[i].0);
        }
    }
}

/// Keeps `cur` in `kept` where the two disagree, and returns it then.
fn keep_parameters(
    kept: &mut ControlAttributes,
    cur: ControlAttributes,
    Ghost(attrs): Ghost<DefaultDERControl>,
    Ghost(curves): Ghost<Seq<(Seq<char>, DERCurve)>>,
) -> (r: Option<ControlAttributes>)
    requires
        cur.inner == attrs,
        attached_as(cur.curves@, curves),
    ensures
        r is None <==> parameters_are(*old(kept), attrs, curves),
        r matches Some(p) ==> p == cur,
        r is None ==> *final(kept) == *old(kept),
        parameters_are(*final(kept), attrs, curves),
{
    proof {
        lemma_agreement_is_match(cur, *kept, attrs, curves);
    }
    if parameters_agree(&cur, kept) {
        return None;
    }
    let copy = copy_parameters(&cur);
    proof {
        lemma_agreement_is_match(cur, copy, attrs, curves);
    }
    *kept = copy;
    Some(cur)
}

/// Keeps the wake-up `time` with `events` where it differs from the kept one,
/// and returns it then.
fn keep_wake(
    kept_time: &mut Option<i64>,
    kept_events: &mut Vec<Event>,
    time: Option<i64>,
    events: Vec<Event>,
) -> (r: Option<(Option<i64>, Vec<Event>)>)
    ensures
        r is None <==> *old(kept_time) == time && same_events(old(kept_events)@, events@),
        r matches Some((t, e)) ==> t == time && e@ == events@,
        r is None ==> *final(kept_time) == *old(kept_time) && final(kept_events)@ == old(kept_events)@,
        *final(kept_time) == time,
        same_events(final(kept_events)@, events@),
{
    if time == *kept_time && event_lists_agree(&events, kept_events) {
        return None;
    }
    let copy = copy_events(&events);
    *kept_time = time;
    *kept_events = copy;
    Some((time, events))
}

/// The memory holds what the model gives for the device `lfdi` at `now`:
/// nothing is left to send out or to arrange.
pub open spec fn settled(m: SchedulerMemory, model: Sep2Model, lfdi: Lfdi, now: i64) -> bool {
    &&& parameters_are(m.parameters, due_attributes(model, lfdi, now), due_curves(model, lfdi, now))
    &&& opt_int(m.next_time) == due_time(model, lfdi, now)
    &&& same_events(m.next_events@, due_events(model, lfdi, now))
}

impl SchedulerMemory {
    /// Nothing sent out and nothing arranged yet.
    pub fn new() -> (r: SchedulerMemory)
        ensures
            r.parameters.inner == crate::sep2_types::empty_default_control(),
            r.parameters.curves@.len() == 0,
            r.next_time is None,
            r.next_events@.len() == 0,
    {
        SchedulerMemory { parameters: ControlAttributes::empty(), next_time: None, next_events: Vec::new() }
    }

    /// Works out the parameters of the device `lfdi` at `now` and its next
    /// wake-up, and keeps and returns those that changed.
    pub fn reschedule(&mut self, model: &Sep2Model, lfdi: Lfdi, now: i64) -> (r: Reschedule)
        requires
            model.wf(),
        ensures
            r.parameters is None <==> parameters_are(
                old(self).parameters,
                due_attributes(*model, lfdi, now),
                due_curves(*model, lfdi, now),
            ),
            r.parameters matches Some(p) ==> p.inner == due_attributes(*model, lfdi, now) && attached_as(
                p.curves@,
                due_curves(*model, lfdi, now),
            ),
            parameters_are(final(self).parameters, due_attributes(*model, lfdi, now), due_curves(*model, lfdi, now)),
            r.parameters is None ==> final(self).parameters == old(self).parameters,
            r.wake is None <==> opt_int(old(self).next_time) == due_time(*model, lfdi, now) && same_events(
                old(self).next_events@,
                due_events(*model, lfdi, now),
            ),
            r.wake matches Some((t, events)) ==> opt_int(t) == due_time(*model, lfdi, now) && events@ == due_events(
                *model,
                lfdi,
                now,
            ),
            r.wake is None ==> final(self).next_time == old(self).next_time && final(self).next_events@ == old(
                self,
            ).next_events@,
            opt_int(final(self).next_time) == due_time(*model, lfdi, now),
            same_events(final(self).next_events@, due_events(*model, lfdi, now)),
            settled(*final(self), *model, lfdi, now),
            r.parameters is None && r.wake is None <==> settled(*old(self), *model, lfdi, now),
    {
        let ghost attrs = due_attributes(*model, lfdi, now);
        let ghost curves = due_curves(*model, lfdi, now);
        let parameters = match calc_parameters(model, lfdi, now) {
            Ok(cur) => keep_parameters(&mut self.parameters, cur, Ghost(attrs), Ghost(curves)),
            Err(_) => {
                return Reschedule { parameters: None, wake: None };
            },
        };
        let wake = match calc_next_schedule_time(model, lfdi, now) {
            Ok((time, events)) => {
                proof {
                    if opt_int(self.next_time) == opt_int(time) {
                        assert(self.next_time == time);
                    }
                }
                keep_wake(&mut self.next_time, &mut self.next_events, time, events)
            },
            Err(_) => None,
        };
        Reschedule { parameters, wake }
    }
}

} // verus!
