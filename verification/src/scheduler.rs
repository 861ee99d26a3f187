//! The scheduling decisions: which parameters apply at an instant, and when
//! the schedule next changes.
use std::sync::Arc;

use vstd::prelude::*;

use crate::attributes::{ControlAttributes, overlay_associative, overlay_controls, overlay_identity, overlay_spec};
use crate::sep2_model::{ControlRef, Lfdi, ScheduledControl, Sep2Model, curve_with_href};
use crate::sep2_types::{
    DERControl, DERControlBase, DERCurve, DERCurveLink, same_curve, DefaultDERControl, ResponseStatus, RESPONSE_SPECIFIC_RESPONSE,
    copy_string, empty_default_control,
};
use crate::{Error, ResourceKind};

pub mod memory;

verus! {

/// Events emitted when changes made to the model require external effects.
#[derive(Clone, Debug, PartialEq, Eq)]
pub enum Event {
    /// A link has appeared in the model, or its poll rate has changed.
    LinkAddedOrUpdated { href: String, kind: ResourceKind, poll_rate: Option<u32> },
    /// A link has disappeared from the model.
    LinkRemoved { href: String, kind: ResourceKind },
    /// The parameters derived from the model have changed.
    ParametersChanged(Arc<ControlAttributes>),
    /// A control's status has changed.
    DERControlStatusChanged { subject: u128, status: ResponseStatus, reply_to: String },
}

/// The reply address of a control, where the control asks for the response
/// whose bit of `ResponseRequired` is `response_type`.
pub open spec fn reply_to_spec(der_control: DERControl, response_type: u8) -> Option<String> {
    match der_control.response_required {
        Some(rr) => if rr & response_type == response_type {
            der_control.reply_to
        } else {
            None
        },
        None => None,
    }
}

/// Return the reply_to address if it is given on the control and if the
/// response is stated as being required by the control.
pub fn reply_to_if_required(der_control: &DERControl, response_type: u8) -> (r: Option<String>)
    ensures
        r == reply_to_spec(*der_control, response_type),
{
    match der_control.response_required {
        Some(rr) => if rr & response_type == response_type {
            copy_string(&der_control.reply_to)
        } else {
            None
        },
        None => None,
    }
}

/// The status response for a control, where it asks for specific responses.
pub open spec fn status_event(der_control: DERControl, status: ResponseStatus) -> Option<Event> {
    match reply_to_spec(der_control, RESPONSE_SPECIFIC_RESPONSE) {
        Some(reply_to) => Some(
            Event::DERControlStatusChanged { subject: der_control.mrid, status, reply_to },
        ),
        None => None,
    }
}

pub(crate) fn make_status_event(der_control: &DERControl, status: ResponseStatus) -> (r: Option<Event>)
    ensures
        r == status_event(*der_control, status),
{
    match reply_to_if_required(der_control, RESPONSE_SPECIFIC_RESPONSE) {
        Some(reply_to) => Some(
            Event::DERControlStatusChanged { subject: der_control.mrid, status, reply_to },
        ),
        None => None,
    }
}

/// Every scheduled control in `controls` ends within the range of an `i64`.
pub open spec fn all_fit<'a>(controls: Seq<ControlRef<'a>>) -> bool {
    forall|i: int|
        0 <= i < controls.len() ==> match #[trigger] controls[i] {
            ControlRef::Scheduled(s) => s.fits(),
            ControlRef::Default(_) => true,
        }
}

/// A control applies at `now`: defaults always, scheduled controls within
/// their realised interval, start included and end excluded.
pub open spec fn is_active<'a>(control: ControlRef<'a>, now: int) -> bool {
    match control {
        ControlRef::Default(_) => true,
        ControlRef::Scheduled(s) => s.start_time <= now && now < s.spec_end_time(),
    }
}

/// A control with the given base attributes and nothing else set.
pub open spec fn with_base(base: DERControlBase) -> DefaultDERControl {
    DefaultDERControl { der_control_base: base, ..empty_default_control() }
}

/// The attributes that a control carries.
pub open spec fn control_attributes<'a>(control: ControlRef<'a>) -> DefaultDERControl {
    match control {
        ControlRef::Default(d) => *d,
        ControlRef::Scheduled(s) => with_base(s.der_control.der_control_base),
    }
}

/// The attributes of the controls active at `now`, the earlier control
/// taking precedence for each attribute.
pub open spec fn layered<'a>(controls: Seq<ControlRef<'a>>, now: int) -> DefaultDERControl
    decreases controls.len(),
{
    if controls.len() == 0 {
        empty_default_control()
    } else {
        let below = layered(controls.drop_last(), now);
        if is_active(controls.last(), now) {
            overlay_spec(below, control_attributes(controls.last()))
        } else {
            below
        }
    }
}

proof fn lemma_layered_href<'a>(controls: Seq<ControlRef<'a>>, now: int)
    ensures
        layered(controls, now).href is None,
    decreases controls.len(),
{
    if controls.len() > 0 {
        lemma_layered_href(controls.drop_last(), now);
    }
}

/// Layering a list of controls is layering its first part over its second:
/// every control keeps its precedence over those after it.
pub proof fn layered_concat<'a>(s: Seq<ControlRef<'a>>, t: Seq<ControlRef<'a>>, now: int)
    ensures
        layered(s + t, now) == overlay_spec(layered(s, now), layered(t, now)),
    decreases t.len(),
{
    lemma_layered_href(s, now);
    if t.len() == 0 {
        assert(s + t =~= s);
        overlay_identity(layered(s, now));
    } else {
        assert((s + t).drop_last() =~= s + t.drop_last());
        assert((s + t).last() == t.last());
        layered_concat(s, t.drop_last(), now);
        if is_active(t.last(), now) {
            overlay_associative(layered(s, now), layered(t.drop_last(), now), control_attributes(t.last()));
        }
    }
}

fn attributes_of(control: &ControlRef) -> (r: DefaultDERControl)
    ensures
        r == control_attributes(*control),
{
    match control {
        ControlRef::Default(d) => d.duplicate(),
        ControlRef::Scheduled(s) => {
            let mut r = DefaultDERControl::empty();
            r.der_control_base = s.der_control.der_control_base.duplicate();
            r
        },
    }
}

/// The parameters at `now`: the attributes of the active controls, projected
/// down in the order given so that earlier controls take precedence.
pub fn calc_parameters_for_controls(controls: Vec<ControlRef>, now: i64) -> (r: Result<ControlAttributes, Error>)
    requires
        all_fit(controls@),
    ensures
        r matches Ok(attrs) && attrs.inner == layered(controls@, now as int) && attrs.curves@.len() == 0,
{
    let mut acc = DefaultDERControl::empty();
    let mut i: usize = 0;
    while i < controls.len()
        invariant
            i <= controls@.len(),
            all_fit(controls@),
            acc == layered(controls@.take(i as int), now as int),
        decreases controls@.len() - i,
    {
        let control = &controls[i];
        assert(controls@.take(i as int + 1).drop_last() =~= controls@.take(i as int));
        let active = match control {
            ControlRef::Default(_) => true,
            ControlRef::Scheduled(s) => {
                assert(s.fits()) by {
                    assert(match controls@[i as int] {
                        ControlRef::Scheduled(s) => s.fits(),
                        ControlRef::Default(_) => true,
                    });
                }
                s.start_time <= now && now < s.end_time()
            },
        };
        if active {
            let attrs = attributes_of(control);
            acc = overlay_controls(acc, attrs);
        }
        i = i + 1;
    }
    assert(controls@.take(controls@.len() as int) =~= controls@);
    Ok(ControlAttributes::new(acc))
}

/// The times at which each scheduled control starts and ends, with the
/// response that each asks for then.
pub open spec fn candidates<'a>(controls: Seq<ControlRef<'a>>) -> Seq<(int, Option<Event>)>
    decreases controls.len(),
{
    if controls.len() == 0 {
        Seq::empty()
    } else {
        candidates(controls.drop_last()) + match controls.last() {
            ControlRef::Scheduled(s) => seq![
                (s.start_time as int, status_event(s.der_control, ResponseStatus::EventStarted)),
                (s.spec_end_time(), status_event(s.der_control, ResponseStatus::EventCompleted)),
            ],
            ControlRef::Default(_) => Seq::empty(),
        }
    }
}

/// The earliest time in `times` after `now`.
pub open spec fn earliest_after(times: Seq<(int, Option<Event>)>, now: int) -> Option<int>
    decreases times.len(),
{
    if times.len() == 0 {
        None
    } else {
        let rest = earliest_after(times.drop_last(), now);
        let t = times.last().0;
        if t > now {
            match rest {
                Some(r) => Some(if r <= t { r } else { t }),
                None => Some(t),
            }
        } else {
            rest
        }
    }
}

/// The earliest time after `now` is after `now`, one of the times, and no
/// later than any other time after `now`; where there is none, every time is
/// at or before `now`.
pub proof fn earliest_after_is_least(times: Seq<(int, Option<Event>)>, now: int)
    ensures
        match earliest_after(times, now) {
            Some(t) => {
                &&& t > now
                &&& exists|i: int| 0 <= i < times.len() && #[trigger] times[i].0 == t
                &&& forall|i: int| 0 <= i < times.len() && #[trigger] times[i].0 > now ==> times[i].0 >= t
            },
            None => forall|i: int| 0 <= i < times.len() ==> #[trigger] times[i].0 <= now,
        },
    decreases times.len(),
{
    if times.len() > 0 {
        let rest = times.drop_last();
        earliest_after_is_least(rest, now);
        let last = times.len() - 1;
        let x = times[last].0;
        assert forall|i: int| 0 <= i < rest.len() implies #[trigger] rest[i] == times[i] by {}
        match earliest_after(rest, now) {
            Some(a) => {
                let wa = choose|i: int| 0 <= i < rest.len() && #[trigger] rest[i].0 == a;
                assert(times[wa].0 == a);
                if x > now {
                    let t = if a <= x { a } else { x };
                    assert(earliest_after(times, now) == Some(t));
                    assert forall|i: int| 0 <= i < times.len() && #[trigger] times[i].0 > now implies times[i].0 >= t by {
                        if i < last {
                            assert(rest[i].0 > now);
                        }
                    }
                    if t == x {
                        assert(times[last].0 == t);
                    }
                } else {
                    assert(earliest_after(times, now) == Some(a));
                    assert forall|i: int| 0 <= i < times.len() && #[trigger] times[i].0 > now implies times[i].0 >= a by {
                        if i < last {
                            assert(rest[i].0 > now);
                        }
                    }
                }
            },
            None => {
                if x > now {
                    assert(earliest_after(times, now) == Some(x));
                    assert forall|i: int| 0 <= i < times.len() && #[trigger] times[i].0 > now implies times[i].0 >= x by {
                        if i < last {
                            assert(rest[i].0 <= now);
                        }
                    }
                    assert(times[last].0 == x);
                } else {
                    assert forall|i: int| 0 <= i < times.len() implies #[trigger] times[i].0 <= now by {
                        if i < last {
                            assert(rest[i].0 <= now);
                        }
                    }
                }
            },
        }
    }
}

/// The responses in `times` due at `t`, in order.
pub open spec fn events_at(times: Seq<(int, Option<Event>)>, t: int) -> Seq<Event>
    decreases times.len(),
{
    if times.len() == 0 {
        Seq::empty()
    } else {
        events_at(times.drop_last(), t) + if times.last().0 == t && times.last().1 is Some {
            seq![times.last().1->0]
        } else {
            Seq::empty()
        }
    }
}

proof fn lemma_candidates_step<'a>(controls: Seq<ControlRef<'a>>, i: int)
    requires
        0 <= i < controls.len(),
    ensures
        candidates(controls.take(i + 1)) == candidates(controls.take(i)) + match controls[i] {
            ControlRef::Scheduled(s) => seq![
                (s.start_time as int, status_event(s.der_control, ResponseStatus::EventStarted)),
                (s.spec_end_time(), status_event(s.der_control, ResponseStatus::EventCompleted)),
            ],
            ControlRef::Default(_) => Seq::empty(),
        },
{
    assert(controls.take(i + 1).drop_last() =~= controls.take(i));
}

/// A time as an integer.
pub open spec fn opt_int(o: Option<i64>) -> Option<int> {
    match o {
        Some(t) => Some(t as int),
        None => None,
    }
}

fn step_earliest(earliest: Option<i64>, t: i64, now: i64) -> (r: Option<i64>)
    ensures
        opt_int(r) == (if t > now {
            match opt_int(earliest) {
                Some(e) => Some(if e <= t { e } else { t as int }),
                None => Some(t as int),
            }
        } else {
            opt_int(earliest)
        }),
{
    if t > now {
        match earliest {
            Some(e) => Some(if e <= t { e } else { t }),
            None => Some(t),
        }
    } else {
        earliest
    }
}

/// The next time at which the schedule may change, after `now`: the earliest
/// start or end of a scheduled control, with the responses due then.
/// Defaults never change the schedule.
pub fn calc_next_schedule_time_for_controls(controls: Vec<ControlRef>, now: i64) -> (r: Result<(Option<i64>, Vec<Event>), Error>)
    requires
        all_fit(controls@),
    ensures
        r matches Ok((time, events)) && opt_int(time) == earliest_after(candidates(controls@), now as int)
            && events@ == match time {
            Some(t) => events_at(candidates(controls@), t as int),
            None => Seq::empty(),
        },
{
    let mut earliest: Option<i64> = None;
    let mut i: usize = 0;
    while i < controls.len()
        invariant
            i <= controls@.len(),
            all_fit(controls@),
            opt_int(earliest) == earliest_after(candidates(controls@.take(i as int)), now as int),
        decreases controls@.len() - i,
    {
        proof {
            lemma_candidates_step(controls@, i as int);
        }
        match &controls[i] {
            ControlRef::Scheduled(s) => {
                assert(s.fits()) by {
                    assert(match controls@[i as int] {
                        ControlRef::Scheduled(s) => s.fits(),
                        ControlRef::Default(_) => true,
                    });
                }
                let ghost before = candidates(controls@.take(i as int));
                let ghost x = (s.start_time as int, status_event(s.der_control, ResponseStatus::EventStarted));
                let ghost y = (s.spec_end_time(), status_event(s.der_control, ResponseStatus::EventCompleted));
                assert((before + seq![x, y]).drop_last() =~= before + seq![x]);
                assert((before + seq![x]).drop_last() =~= before);
                earliest = step_earliest(earliest, s.start_time, now);
                assert((before + seq![x]).last() == x);
                assert(opt_int(earliest) == earliest_after(before + seq![x], now as int));
                let end = s.end_time();
                earliest = step_earliest(earliest, end, now);
                assert((before + seq![x, y]).last() == y);
                assert(opt_int(earliest) == earliest_after(before + seq![x, y], now as int));
            },
            ControlRef::Default(_) => {
                assert(candidates(controls@.take(i as int)) + Seq::<(int, Option<Event>)>::empty()
                    =~= candidates(controls@.take(i as int)));
            },
        }
        i = i + 1;
    }
    assert(controls@.take(controls@.len() as int) =~= controls@);
    let mut events: Vec<Event> = Vec::new();
    match earliest {
        None => {},
        Some(t) => {
            let mut j: usize = 0;
            while j < controls.len()
                invariant
                    j <= controls@.len(),
                    all_fit(controls@),
                    events@ == events_at(candidates(controls@.take(j as int)), t as int),
                decreases controls@.len() - j,
            {
                proof {
                    lemma_candidates_step(controls@, j as int);
                }
                match &controls[j] {
                    ControlRef::Scheduled(s) => {
                        assert(s.fits()) by {
                            assert(match controls@[j as int] {
                                ControlRef::Scheduled(s) => s.fits(),
                                ControlRef::Default(_) => true,
                            });
                        }
                        let ghost before = candidates(controls@.take(j as int));
                        let ghost x = (s.start_time as int, status_event(s.der_control, ResponseStatus::EventStarted));
                        let ghost y = (s.spec_end_time(), status_event(s.der_control, ResponseStatus::EventCompleted));
                        assert((before + seq![x, y]).drop_last() =~= before + seq![x]);
                        assert((before + seq![x]).drop_last() =~= before);
                        if s.start_time == t {
                            match make_status_event(&s.der_control, ResponseStatus::EventStarted) {
                                Some(e) => events.push(e),
                                None => {},
                            }
                        }
                        assert(events@ == events_at(before + seq![x], t as int));
                        if s.end_time() == t {
                            match make_status_event(&s.der_control, ResponseStatus::EventCompleted) {
                                Some(e) => events.push(e),
                                None => {},
                            }
                        }
                    },
                    ControlRef::Default(_) => {
                        assert(candidates(controls@.take(j as int)) + Seq::<(int, Option<Event>)>::empty()
                            =~= candidates(controls@.take(j as int)));
                    },
                }
                j = j + 1;
            }
        },
    }
    Ok((earliest, events))
}

/// The curve links among a control's attributes, in a fixed order.
pub open spec fn curve_links(c: DefaultDERControl) -> Seq<Option<DERCurveLink>> {
    let b = c.der_control_base;
    seq![
        b.op_mod_freq_watt,
        b.op_mod_hfrt_may_trip,
        b.op_mod_hfrt_must_trip,
        b.op_mod_hvrt_may_trip,
        b.op_mod_hvrt_momentary_cessation,
        b.op_mod_hvrt_must_trip,
        b.op_mod_lfrt_may_trip,
        b.op_mod_lfrt_must_trip,
        b.op_mod_lvrt_may_trip,
        b.op_mod_lvrt_momentary_cessation,
        b.op_mod_lvrt_must_trip,
        b.op_mod_volt_var,
        b.op_mod_volt_watt,
        b.op_mod_watt_pf,
        b.op_mod_watt_var,
    ]
}

/// The curves that `links` refer to, by href, among the stored `curves`;
/// links to curves not yet received are left out.
pub open spec fn linked_curves(curves: Seq<(u128, DERCurve)>, links: Seq<Option<DERCurveLink>>) -> Seq<(Seq<char>, DERCurve)>
    decreases links.len(),
{
    if links.len() == 0 {
        Seq::empty()
    } else {
        linked_curves(curves, links.drop_last()) + match links.last() {
            Some(l) => match curve_with_href(curves, l.href@) {
                Some(c) => seq![(l.href@, c)],
                None => Seq::empty(),
            },
            None => Seq::empty(),
        }
    }
}

/// `v` holds the curves of `e`, by href, copied.
pub open spec fn attached_as(v: Seq<(String, DERCurve)>, e: Seq<(Seq<char>, DERCurve)>) -> bool {
    &&& v.len() == e.len()
    &&& forall|i: int| 0 <= i < v.len() ==> (#[trigger] v[i]).0@ == e[i].0 && same_curve(v[i].1, e[i].1)
}

/// The parameters of a device at `now`: the layered attributes of its
/// controls, with the curves that they link to.
pub fn calc_parameters(model: &Sep2Model, device_lfdi: Lfdi, now: i64) -> (r: Result<ControlAttributes, Error>)
    requires
        model.wf(),
    ensures
        r matches Ok(a) && a.inner == layered(model.device_controls(device_lfdi, now as int), now as int)
            && attached_as(a.curves@, linked_curves(model.curves.entries@, curve_links(a.inner))),
{
    let controls = match model.all_controls_for_device(device_lfdi, now) {
        Ok(c) => c,
        Err(e) => {
            return Err(e);
        },
    };
    let attrs = match calc_parameters_for_controls(controls, now) {
        Ok(a) => a,
        Err(e) => {
            return Err(e);
        },
    };
    let ControlAttributes { inner, curves: _ } = attrs;
    let b = &inner.der_control_base;
    let links: Vec<&Option<DERCurveLink>> = vec![
        &b.op_mod_freq_watt,
        &b.op_mod_hfrt_may_trip,
        &b.op_mod_hfrt_must_trip,
        &b.op_mod_hvrt_may_trip,
        &b.op_mod_hvrt_momentary_cessation,
        &b.op_mod_hvrt_must_trip,
        &b.op_mod_lfrt_may_trip,
        &b.op_mod_lfrt_must_trip,
        &b.op_mod_lvrt_may_trip,
        &b.op_mod_lvrt_momentary_cessation,
        &b.op_mod_lvrt_must_trip,
        &b.op_mod_volt_var,
        &b.op_mod_volt_watt,
        &b.op_mod_watt_pf,
        &b.op_mod_watt_var,
    ];
    let ghost all = curve_links(inner);
    assert(links@.len() == all.len());
    assert(forall|j: int| 0 <= j < all.len() ==> *links@[j] == all[j]);
    let ghost stored = model.curves.entries@;
    let mut curves: Vec<(String, DERCurve)> = Vec::new();
    let mut i: usize = 0;
    while i < links.len()
        invariant
            i <= links@.len(),
            links@.len() == all.len(),
            forall|j: int| 0 <= j < all.len() ==> *links@[j] == all[j],
            stored == model.curves.entries@,
            attached_as(curves@, linked_curves(stored, all.take(i as int))),
        decreases links@.len() - i,
    {
        assert(all.take(i as int + 1).drop_last() =~= all.take(i as int));
        let ghost prior = linked_curves(stored, all.take(i as int));
        match links[i] {
            Some(l) => match model.get_curve_by_href(&l.href) {
                Some(c) => {
                    let copy = c.duplicate();
                    curves.push((l.href.clone(), copy));
                    let ghost e = prior + seq![(l.href@, *c)];
                    assert(attached_as(curves@, e)) by {
                        assert forall|j: int| 0 <= j < curves@.len() implies (#[trigger] curves@[j]).0@ == e[j].0
                            && same_curve(curves@[j].1, e[j].1) by {
                            if j < prior.len() {
                                assert(e[j] == prior[j]);
                            }
                        }
                    }
                },
                None => {
                    assert(prior + Seq::<(Seq<char>, DERCurve)>::empty() =~= prior);
                },
            },
            None => {
                assert(prior + Seq::<(Seq<char>, DERCurve)>::empty() =~= prior);
            },
        }
        i = i + 1;
    }
    assert(all.take(all.len() as int) =~= all);
    Ok(ControlAttributes { inner, curves })
}

/// The next time at which the schedule of a device may change after `now`,
/// with the responses due then.
pub fn calc_next_schedule_time(model: &Sep2Model, device_lfdi: Lfdi, now: i64) -> (r: Result<(Option<i64>, Vec<Event>), Error>)
    requires
        model.wf(),
    ensures
        r matches Ok((time, events)) && ({
            let controls = model.device_controls(device_lfdi, now as int);
            &&& opt_int(time) == earliest_after(candidates(controls), now as int)
            &&& events@ == match time {
                Some(t) => events_at(candidates(controls), t as int),
                None => Seq::empty(),
            }
        }),
{
    let controls = match model.all_controls_for_device(device_lfdi, now) {
        Ok(c) => c,
        Err(e) => {
            return Err(e);
        },
    };
    calc_next_schedule_time_for_controls(controls, now)
}

} // verus!
