//! The model of the upstream state communicated over SEP2: the resources
//! received from the server, kept up to date by the updates it sends.
use rand::RngExt;
use vstd::prelude::*;

use crate::ResourceKind;
use crate::scheduler::{Event, reply_to_if_required};
use crate::sep2_types::{
    DERControl, DERCurve, DefaultDERControl, EventStatusType, PrimacyType, ResponseStatus,
    RESPONSE_MESSAGE_RECEIVED, RESPONSE_SPECIFIC_RESPONSE,
};
use crate::links::{
    LinkMap, ResourceLink, added_events, map_of, removed_events, resource_link_events, same_links_announce_nothing,
    sorted,
};
use crate::store::{Store, StoreKey};


verus! {

/// A DERControl with its realised interval. The interval includes the
/// randomisation asked for by the server, drawn once to avoid statistical
/// bias.
#[derive(Debug, PartialEq, Eq)]
pub struct ScheduledControl {
    pub der_control: DERControl,
    /// Realised start of the interval, in seconds since the epoch.
    pub start_time: i64,
    /// Realised duration of the interval, in seconds.
    pub duration: u32,
}

impl ScheduledControl {
    /// The realised interval ends within the range of an `i64`.
    pub open spec fn fits(&self) -> bool {
        self.start_time + self.duration <= i64::MAX
    }

    pub open spec fn spec_end_time(&self) -> int {
        self.start_time + self.duration
    }

    /// The end of the realised interval.
    pub fn end_time(&self) -> (r: i64)
        requires
            self.fits(),
        ensures
            r == self.spec_end_time(),
    {
        self.start_time + self.duration as i64
    }
}

/// A reference to a scheduled control or a default control.
#[derive(Debug)]
pub enum ControlRef<'a> {
    Scheduled(&'a ScheduledControl),
    Default(&'a DefaultDERControl),
}

/// The LFDI of a device: the 160 bits of the identifier, most significant
/// first.
#[derive(Clone, Copy, Debug, PartialEq, Eq, Structural, Hash)]
pub struct Lfdi {
    pub high: u128,
    pub low: u32,
}

impl StoreKey for Lfdi {
    type Id = Lfdi;

    open spec fn id(&self) -> Lfdi {
        *self
    }

    fn same_key(&self, other: &Self) -> (r: bool) {
        *self == *other
    }

    fn copy_key(&self) -> (r: Self) {
        *self
    }
}

/// The server's time resource.
#[derive(Debug, PartialEq, Eq)]
pub struct Time {
    pub href: Option<String>,
    pub poll_rate: Option<u32>,
    pub current_time: i64,
    pub tz_offset: i32,
}

/// An end device as given by the server.
#[derive(Debug, PartialEq, Eq)]
pub struct EndDevice {
    pub href: Option<String>,
    pub lfdi: Option<Lfdi>,
    pub sfdi: u64,
    /// The href of its FunctionSetAssignmentsList.
    pub function_set_assignments_list_link: Option<String>,
}

/// The list of end devices.
#[derive(Debug, PartialEq, Eq)]
pub struct EndDeviceList {
    pub href: Option<String>,
    pub end_device: Vec<EndDevice>,
    pub poll_rate: Option<u32>,
    pub all: u32,
    pub results: u32,
}

/// A set of function set assignments.
#[derive(Debug, PartialEq, Eq)]
pub struct FunctionSetAssignments {
    pub href: Option<String>,
    pub mrid: u128,
    /// The href of its DERProgramList.
    pub der_program_list_link: Option<String>,
}

#[derive(Debug, PartialEq, Eq)]
pub struct FunctionSetAssignmentsList {
    pub href: Option<String>,
    pub function_set_assignments: Vec<FunctionSetAssignments>,
    pub poll_rate: Option<u32>,
    pub all: u32,
    pub results: u32,
}

/// A DER program.
#[derive(Debug, PartialEq, Eq)]
pub struct DERProgram {
    pub href: Option<String>,
    pub mrid: u128,
    pub primacy: PrimacyType,
    /// The href of its DefaultDERControl.
    pub default_der_control_link: Option<String>,
    /// The href of its DERControlList.
    pub der_control_list_link: Option<String>,
    /// The href of its DERCurveList.
    pub der_curve_list_link: Option<String>,
}

#[derive(Debug, PartialEq, Eq)]
pub struct DERProgramList {
    pub href: Option<String>,
    pub der_program: Vec<DERProgram>,
    pub poll_rate: Option<u32>,
    pub all: u32,
    pub results: u32,
}

#[derive(Debug, PartialEq, Eq)]
pub struct DERControlList {
    pub href: Option<String>,
    pub der_control: Vec<DERControl>,
    pub all: u32,
    pub results: u32,
}

#[derive(Debug, PartialEq, Eq)]
pub struct DERCurveList {
    pub href: Option<String>,
    pub der_curve: Vec<DERCurve>,
    pub all: u32,
    pub results: u32,
}

/// An incoming resource from the SEP2 server.
#[derive(Debug)]
pub enum Sep2ResourceEvent {
    Time(Time),
    EndDeviceList(EndDeviceList),
    FunctionSetAssignmentsList(FunctionSetAssignmentsList),
    DERProgramList(DERProgramList),
    DefaultDERControl(DefaultDERControl),
    DERControlList(DERControlList),
    DERCurveList(DERCurveList),
}

/// The ids of the items of a list, without the rest of their details.
#[derive(Debug)]
pub struct IdList<T> {
    pub href: String,
    pub items: Vec<T>,
    pub poll_rate: Option<u32>,
}


/// The data model built up from the resources received from the server.
#[derive(Debug)]
pub struct Sep2Model {
    pub time: Option<Time>,
    // Lists for which only their items' ids are kept, by href.
    pub function_set_assignments_lists: Store<String, IdList<u128>>,
    pub program_lists: Store<String, IdList<u128>>,
    pub control_lists: Store<String, IdList<u128>>,
    pub curve_lists: Store<String, IdList<u128>>,
    // The end device list is unique and holds LFDIs in place of MRIDs.
    pub end_device_list: Option<IdList<Lfdi>>,
    // End devices are keyed by LFDI, as a href may refer to another device
    // over time.
    pub end_devices: Store<Lfdi, EndDevice>,
    pub function_set_assignments: Store<u128, FunctionSetAssignments>,
    pub programs: Store<u128, DERProgram>,
    pub controls: Store<u128, ScheduledControl>,
    pub curves: Store<u128, DERCurve>,
    // Default controls are linked by href, not by MRID.
    pub default_controls: Store<String, DefaultDERControl>,
}

/// The range by which a control's start may be randomised.
pub open spec fn randomize_start_of(c: DERControl) -> int {
    match c.randomize_start {
        Some(r) => r as int,
        None => 0,
    }
}

/// The range by which a control's duration may be randomised.
pub open spec fn randomize_duration_of(c: DERControl) -> int {
    match c.randomize_duration {
        Some(r) => r as int,
        None => 0,
    }
}

/// The longest realised duration a control can be given: its duration
/// shifted by the whole of its randomisation range, and at most what 32 bits
/// hold (a shift that takes it past that wraps, to a shorter duration).
pub open spec fn longest_duration(c: DERControl) -> int {
    clamp_duration(c.interval_duration + randomize_duration_of(c))
}

/// A new control whose interval can be randomised and realised: its
/// randomisation ranges are not negative (else there is no range to draw
/// from), its start stays within an `i64` however it is shifted, and its
/// realised interval, however randomised, ends within an `i64`.
pub open spec fn acceptable(c: DERControl) -> bool {
    &&& randomize_start_of(c) >= 0
    &&& randomize_duration_of(c) >= 0
    &&& i64::MIN <= c.interval_start - randomize_start_of(c)
    &&& c.interval_start + randomize_start_of(c) + longest_duration(c) <= i64::MAX
}

/// The shifts of start and duration lie within the control's ranges.
pub open spec fn shift_ok(c: DERControl, shift: (i16, i16)) -> bool {
    &&& -randomize_start_of(c) <= shift.0 <= randomize_start_of(c)
    &&& -randomize_duration_of(c) <= shift.1 <= randomize_duration_of(c)
}

/// The realised start of a new control.
pub open spec fn realised_start(c: DERControl, shift: (i16, i16)) -> int {
    c.interval_start + shift.0
}

/// A duration held within what 32 bits store.
pub open spec fn clamp_duration(d: int) -> int {
    if d < 0 {
        0
    } else if d > u32::MAX {
        u32::MAX as int
    } else {
        d
    }
}

/// The realised duration of a new control: the shifted duration, not below
/// zero, and kept in 32 bits as a cast to `u32` keeps it: a duration that a
/// shift takes past `u32::MAX` wraps round to its remainder modulo 2^32.
pub open spec fn realised_duration(c: DERControl, shift: (i16, i16)) -> int {
    let d = c.interval_duration + shift.1;
    if d < 0 {
        0
    } else if d > u32::MAX {
        d - 0x1_0000_0000
    } else {
        d
    }
}

/// An optional event as a sequence of none or one.
pub open spec fn opt_seq(e: Option<Event>) -> Seq<Event> {
    match e {
        Some(e) => seq![e],
        None => Seq::empty(),
    }
}

/// The responses due when a known control changes status.
pub open spec fn change_events(prior: EventStatusType, c: DERControl) -> Seq<Event> {
    if prior == c.current_status {
        Seq::empty()
    } else if c.current_status == EventStatusType::Cancelled {
        opt_seq(crate::scheduler::status_event(c, ResponseStatus::EventCancelled))
    } else if c.current_status == EventStatusType::Superseded {
        opt_seq(crate::scheduler::status_event(c, ResponseStatus::EventSuperseded))
    } else {
        Seq::empty()
    }
}

/// The responses due when a new control arrives: its acknowledgement, then
/// its start if it is active and its realised interval holds `now`.
pub open spec fn arrival_events(c: DERControl, now: int, start: int, duration: int) -> Seq<Event> {
    let received = match crate::scheduler::reply_to_spec(c, RESPONSE_MESSAGE_RECEIVED) {
        Some(reply_to) => seq![
            Event::DERControlStatusChanged {
                subject: c.mrid,
                status: ResponseStatus::EventReceived,
                reply_to,
            },
        ],
        None => Seq::empty(),
    };
    let started = if c.current_status == EventStatusType::Active && start <= now && start
        + duration > now {
        opt_seq(crate::scheduler::status_event(c, ResponseStatus::EventStarted))
    } else {
        Seq::empty()
    };
    received + started
}

/// The controls after a control arrives: a known control keeps its realised
/// interval, a new one has its interval realised with the given shifts.
pub open spec fn control_step(
    m: Map<u128, ScheduledControl>,
    c: DERControl,
    shift: (i16, i16),
) -> Map<u128, ScheduledControl> {
    if m.contains_key(c.mrid) {
        m.insert(
            c.mrid,
            ScheduledControl {
                der_control: c,
                start_time: m[c.mrid].start_time,
                duration: m[c.mrid].duration,
            },
        )
    } else {
        m.insert(
            c.mrid,
            ScheduledControl {
                der_control: c,
                start_time: realised_start(c, shift) as i64,
                duration: realised_duration(c, shift) as u32,
            },
        )
    }
}

/// The responses due when a control arrives.
pub open spec fn control_step_events(
    m: Map<u128, ScheduledControl>,
    c: DERControl,
    now: int,
    shift: (i16, i16),
) -> Seq<Event> {
    if m.contains_key(c.mrid) {
        change_events(m[c.mrid].der_control.current_status, c)
    } else {
        arrival_events(c, now, realised_start(c, shift), realised_duration(c, shift))
    }
}

/// The controls after a list of them arrives, in order.
pub open spec fn controls_after(
    m: Map<u128, ScheduledControl>,
    cs: Seq<DERControl>,
    shifts: Seq<(i16, i16)>,
) -> Map<u128, ScheduledControl>
    decreases cs.len(),
{
    if cs.len() == 0 {
        m
    } else {
        control_step(controls_after(m, cs.drop_last(), shifts.drop_last()), cs.last(), shifts.last())
    }
}

/// The responses due when a list of controls arrives, in order.
pub open spec fn controls_events(
    m: Map<u128, ScheduledControl>,
    cs: Seq<DERControl>,
    now: int,
    shifts: Seq<(i16, i16)>,
) -> Seq<Event>
    decreases cs.len(),
{
    if cs.len() == 0 {
        Seq::empty()
    } else {
        controls_events(m, cs.drop_last(), now, shifts.drop_last()) + control_step_events(
            controls_after(m, cs.drop_last(), shifts.drop_last()),
            cs.last(),
            now,
            shifts.last(),
        )
    }
}

/// The controls after a list arrives are those known before and those of
/// the list.
proof fn lemma_controls_after_keys(m: Map<u128, ScheduledControl>, cs: Seq<DERControl>, shifts: Seq<(i16, i16)>, x: u128)
    ensures
        controls_after(m, cs, shifts).contains_key(x) <==> m.contains_key(x) || exists|j: int|
            0 <= j < cs.len() && #[trigger] cs[j].mrid == x,
    decreases cs.len(),
{
    if cs.len() > 0 {
        lemma_controls_after_keys(m, cs.drop_last(), shifts.drop_last(), x);
        if controls_after(m, cs, shifts).contains_key(x) && !m.contains_key(x) {
            if x == cs.last().mrid {
                assert(cs[cs.len() - 1].mrid == x);
            } else {
                let j = choose|j: int| 0 <= j < cs.drop_last().len() && #[trigger] cs.drop_last()[j].mrid == x;
                assert(cs[j] == cs.drop_last()[j]);
            }
        }
        if exists|j: int| 0 <= j < cs.len() && #[trigger] cs[j].mrid == x {
            let j = choose|j: int| 0 <= j < cs.len() && #[trigger] cs[j].mrid == x;
            if j < cs.len() - 1 {
                assert(cs.drop_last()[j] == cs[j]);
            }
        }
    }
}

/// The control at `i` in `cs` is new when it arrives: neither stored in `m`
/// nor earlier in the list.
pub open spec fn arrives_new(m: Map<u128, ScheduledControl>, cs: Seq<DERControl>, i: int) -> bool {
    &&& !m.contains_key(cs[i].mrid)
    &&& forall|j: int| 0 <= j < i ==> #[trigger] cs[j].mrid != cs[i].mrid
}

/// Every control of a list that is new when it arrives can be realised.
pub open spec fn news_acceptable(m: Map<u128, ScheduledControl>, cs: Seq<DERControl>) -> bool {
    forall|i: int| 0 <= i < cs.len() && arrives_new(m, cs, i) ==> acceptable(#[trigger] cs[i])
}

/// A shift for each control of a list; that of a control that is new when
/// it arrives lies within its ranges. (A known control keeps its interval,
/// so its shift is not used.)
pub open spec fn shifts_fit(m: Map<u128, ScheduledControl>, cs: Seq<DERControl>, shifts: Seq<(i16, i16)>) -> bool {
    &&& shifts.len() == cs.len()
    &&& forall|i: int| 0 <= i < cs.len() && arrives_new(m, cs, i) ==> shift_ok(#[trigger] cs[i], shifts[i])
}

/// The end devices after a list of them arrives: each with an LFDI is stored
/// under it, a later one replacing an earlier.
pub open spec fn devices_after(m: Map<Lfdi, EndDevice>, ds: Seq<EndDevice>) -> Map<Lfdi, EndDevice>
    decreases ds.len(),
{
    if ds.len() == 0 {
        m
    } else {
        let prior = devices_after(m, ds.drop_last());
        match ds.last().lfdi {
            Some(l) => prior.insert(l, ds.last()),
            None => prior,
        }
    }
}

/// The LFDIs of a list of devices, skipping those without one.
pub open spec fn lfdis_of(ds: Seq<EndDevice>) -> Seq<Lfdi>
    decreases ds.len(),
{
    if ds.len() == 0 {
        Seq::empty()
    } else {
        lfdis_of(ds.drop_last()) + match ds.last().lfdi {
            Some(l) => seq![l],
            None => Seq::empty(),
        }
    }
}

/// The items of a list after they arrive, each stored under its MRID.
pub open spec fn fsas_after(m: Map<u128, FunctionSetAssignments>, s: Seq<FunctionSetAssignments>) -> Map<u128, FunctionSetAssignments>
    decreases s.len(),
{
    if s.len() == 0 {
        m
    } else {
        fsas_after(m, s.drop_last()).insert(s.last().mrid, s.last())
    }
}

pub open spec fn programs_after(m: Map<u128, DERProgram>, s: Seq<DERProgram>) -> Map<u128, DERProgram>
    decreases s.len(),
{
    if s.len() == 0 {
        m
    } else {
        programs_after(m, s.drop_last()).insert(s.last().mrid, s.last())
    }
}

pub open spec fn curves_after(m: Map<u128, DERCurve>, s: Seq<DERCurve>) -> Map<u128, DERCurve>
    decreases s.len(),
{
    if s.len() == 0 {
        m
    } else {
        curves_after(m, s.drop_last()).insert(s.last().mrid, s.last())
    }
}

pub open spec fn fsa_mrids(s: Seq<FunctionSetAssignments>) -> Seq<u128> {
    s.map_values(|f: FunctionSetAssignments| f.mrid)
}

pub open spec fn program_mrids(s: Seq<DERProgram>) -> Seq<u128> {
    s.map_values(|p: DERProgram| p.mrid)
}

pub open spec fn control_mrids(s: Seq<DERControl>) -> Seq<u128> {
    s.map_values(|c: DERControl| c.mrid)
}

pub open spec fn curve_mrids(s: Seq<DERCurve>) -> Seq<u128> {
    s.map_values(|c: DERCurve| c.mrid)
}

/// A stored list: its href, its items' ids and its poll rate.
pub open spec fn list_is<T>(l: IdList<T>, href: Seq<char>, items: Seq<T>, poll_rate: Option<u32>) -> bool {
    &&& l.href@ == href
    &&& l.items@ == items
    &&& l.poll_rate == poll_rate
}

/// The model `n` is `o` after an EndDeviceList arrives: a list without a
/// href is ignored; else the list is stored with the LFDIs of its devices,
/// and each device with an LFDI is stored under it.
pub open spec fn edl_applied(o: Sep2Model, n: Sep2Model, incoming: EndDeviceList) -> bool {
    match incoming.href {
        None => n == o,
        Some(href) => {
            &&& n == (Sep2Model { end_device_list: n.end_device_list, end_devices: n.end_devices, ..o })
            &&& n.end_device_list matches Some(l) && list_is(l, href@, lfdis_of(incoming.end_device@), incoming.poll_rate)
            &&& n.end_devices@ == devices_after(o.end_devices@, incoming.end_device@)
        },
    }
}

/// `n` is `o` after a FunctionSetAssignmentsList arrives.
pub open spec fn fsal_applied(o: Sep2Model, n: Sep2Model, incoming: FunctionSetAssignmentsList) -> bool {
    match incoming.href {
        None => n == o,
        Some(href) => {
            &&& n == (Sep2Model {
                function_set_assignments_lists: n.function_set_assignments_lists,
                function_set_assignments: n.function_set_assignments,
                ..o
            })
            &&& n.function_set_assignments_lists@ == o.function_set_assignments_lists@.insert(
                href@,
                n.function_set_assignments_lists@[href@],
            )
            &&& list_is(
                n.function_set_assignments_lists@[href@],
                href@,
                fsa_mrids(incoming.function_set_assignments@),
                incoming.poll_rate,
            )
            &&& n.function_set_assignments@ == fsas_after(o.function_set_assignments@, incoming.function_set_assignments@)
        },
    }
}

/// `n` is `o` after a DERProgramList arrives.
pub open spec fn derpl_applied(o: Sep2Model, n: Sep2Model, incoming: DERProgramList) -> bool {
    match incoming.href {
        None => n == o,
        Some(href) => {
            &&& n == (Sep2Model { program_lists: n.program_lists, programs: n.programs, ..o })
            &&& n.program_lists@ == o.program_lists@.insert(href@, n.program_lists@[href@])
            &&& list_is(n.program_lists@[href@], href@, program_mrids(incoming.der_program@), incoming.poll_rate)
            &&& n.programs@ == programs_after(o.programs@, incoming.der_program@)
        },
    }
}

/// `n` is `o` after a DERCurveList arrives.
pub open spec fn curvel_applied(o: Sep2Model, n: Sep2Model, incoming: DERCurveList) -> bool {
    match incoming.href {
        None => n == o,
        Some(href) => {
            &&& n == (Sep2Model { curve_lists: n.curve_lists, curves: n.curves, ..o })
            &&& n.curve_lists@ == o.curve_lists@.insert(href@, n.curve_lists@[href@])
            &&& list_is(n.curve_lists@[href@], href@, curve_mrids(incoming.der_curve@), None)
            &&& n.curves@ == curves_after(o.curves@, incoming.der_curve@)
        },
    }
}

/// `n` is `o` after a DefaultDERControl arrives.
pub open spec fn dderc_applied(o: Sep2Model, n: Sep2Model, incoming: DefaultDERControl) -> bool {
    match incoming.href {
        None => n == o,
        Some(href) => {
            &&& n == (Sep2Model { default_controls: n.default_controls, ..o })
            &&& n.default_controls@ == o.default_controls@.insert(href@, incoming)
        },
    }
}

/// `n` is `o` after a DERControlList arrives at `now`, with `shifts` drawn
/// for its controls, answered by `events`.
pub open spec fn dercl_applied(
    o: Sep2Model,
    n: Sep2Model,
    incoming: DERControlList,
    now: int,
    shifts: Seq<(i16, i16)>,
    events: Seq<Event>,
) -> bool {
    match incoming.href {
        None => n == o && events.len() == 0,
        Some(href) => {
            &&& n == (Sep2Model { control_lists: n.control_lists, controls: n.controls, ..o })
            &&& n.control_lists@ == o.control_lists@.insert(href@, n.control_lists@[href@])
            &&& list_is(n.control_lists@[href@], href@, control_mrids(incoming.der_control@), None)
            &&& n.controls@ == controls_after(o.controls@, incoming.der_control@, shifts)
            &&& events == controls_events(o.controls@, incoming.der_control@, now, shifts)
        },
    }
}

/// The first curve of `s` with the href `href`.
pub open spec fn curve_with_href(s: Seq<(u128, DERCurve)>, href: Seq<char>) -> Option<DERCurve>
    decreases s.len(),
{
    if s.len() == 0 {
        None
    } else if s[0].1.href matches Some(h) && h@ == href {
        Some(s[0].1)
    } else {
        curve_with_href(s.drop_first(), href)
    }
}

/// An update that can be applied to `m`: every control of a control list
/// that is new when it arrives can be realised.
pub open spec fn update_acceptable(m: Sep2Model, u: Sep2ResourceEvent) -> bool {
    match u {
        Sep2ResourceEvent::DERControlList(l) => news_acceptable(m.controls@, l.der_control@),
        _ => true,
    }
}

/// A duration held within what 32 bits store.
fn clamp_duration_exec(d: i64) -> (r: u32)
    ensures
        r == clamp_duration(d as int),
{
    if d < 0 {
        0
    } else if d > 4294967295i64 {
        4294967295u32
    } else {
        d as u32
    }
}

/// Whether a new control can be randomised and realised.
pub fn control_is_acceptable(c: &DERControl) -> (r: bool)
    ensures
        r == acceptable(*c),
{
    let rs: i64 = match c.randomize_start {
        Some(x) => x as i64,
        None => 0,
    };
    let rd: i64 = match c.randomize_duration {
        Some(x) => x as i64,
        None => 0,
    };
    if rs < 0 || rd < 0 {
        return false;
    }
    let longest: u32 = clamp_duration_exec(c.interval_duration as i64 + rd);
    c.interval_start >= i64::MIN + rs && c.interval_start <= i64::MAX - rs - longest as i64
}

/// Whether the control at `i` of `cs` is known when it arrives: stored in
/// `known`, or earlier in the list.
fn known_on_arrival(known: &Store<u128, ScheduledControl>, cs: &Vec<DERControl>, i: usize) -> (r: bool)
    requires
        i < cs@.len(),
    ensures
        r == !arrives_new(known@, cs@, i as int),
{
    let mrid = cs[i].mrid;
    if known.get(&mrid).is_some() {
        return true;
    }
    let mut j: usize = 0;
    while j < i
        invariant
            j <= i < cs@.len(),
            mrid == cs@[i as int].mrid,
            !known@.contains_key(mrid),
            forall|k: int| 0 <= k < j ==> #[trigger] cs@[k].mrid != mrid,
        decreases i - j,
    {
        if cs[j].mrid == mrid {
            return true;
        }
        j = j + 1;
    }
    false
}

/// Whether an update can be applied to the model: every control it brings
/// that is new when it arrives can be randomised and realised.
pub fn update_is_acceptable(model: &Sep2Model, u: &Sep2ResourceEvent) -> (r: bool)
    ensures
        r == update_acceptable(*model, *u),
{
    match u {
        Sep2ResourceEvent::DERControlList(l) => {
            let mut i: usize = 0;
            while i < l.der_control.len()
                invariant
                    *u == Sep2ResourceEvent::DERControlList(*l),
                    i <= l.der_control@.len(),
                    forall|j: int| 0 <= j < i && arrives_new(model.controls@, l.der_control@, j) ==> acceptable(
                        #[trigger] l.der_control@[j],
                    ),
                decreases l.der_control@.len() - i,
            {
                if !known_on_arrival(&model.controls, &l.der_control, i) && !control_is_acceptable(&l.der_control[i]) {
                    assert(!acceptable(l.der_control@[i as int]));
                    return false;
                }
                i = i + 1;
            }
            true
        },
        _ => true,
    }
}

/// `n` is `o` after `update` arrives, answered by `answered`.
pub open spec fn update_effect(o: Sep2Model, n: Sep2Model, update: Sep2ResourceEvent, answered: Seq<Event>) -> bool {
    match update {
        Sep2ResourceEvent::Time(t) => n == (Sep2Model { time: Some(t), ..o }) && answered.len() == 0,
        Sep2ResourceEvent::EndDeviceList(l) => edl_applied(o, n, l) && answered.len() == 0,
        Sep2ResourceEvent::FunctionSetAssignmentsList(l) => fsal_applied(o, n, l) && answered.len() == 0,
        Sep2ResourceEvent::DERProgramList(l) => derpl_applied(o, n, l) && answered.len() == 0,
        Sep2ResourceEvent::DefaultDERControl(d) => dderc_applied(o, n, d) && answered.len() == 0,
        Sep2ResourceEvent::DERCurveList(l) => curvel_applied(o, n, l) && answered.len() == 0,
        Sep2ResourceEvent::DERControlList(l) => exists|now: i64, shifts: Seq<(i16, i16)>|
            #![trigger dercl_applied(o, n, l, now as int, shifts, answered)]
            shifts_fit(o.controls@, l.der_control@, shifts) && dercl_applied(o, n, l, now as int, shifts, answered),
    }
}

/// `n` is `o` after `update` arrives, and `reported` is what the arrival
/// reports: the links that are no longer needed, in the order in which they
/// were known; then those that are new or changed, in order; then the
/// responses that the update calls for.
pub open spec fn update_reported(o: Sep2Model, n: Sep2Model, update: Sep2ResourceEvent, reported: Seq<Event>) -> bool {
    exists|before: Seq<(String, ResourceLink)>, after: Seq<(String, ResourceLink)>, answered: Seq<Event>|
        #[trigger] reported_through(o, n, update, reported, before, after, answered)
}

/// `update_reported`, with the links known before and after the update, in
/// order, and the responses that the update calls for.
pub open spec fn reported_through(
    o: Sep2Model,
    n: Sep2Model,
    update: Sep2ResourceEvent,
    reported: Seq<Event>,
    before: Seq<(String, ResourceLink)>,
    after: Seq<(String, ResourceLink)>,
    answered: Seq<Event>,
) -> bool {
    &&& sorted(before)
    &&& sorted(after)
    &&& map_of(before) == o.links_spec()
    &&& map_of(after) == n.links_spec()
    &&& update_effect(o, n, update, answered)
    &&& reported == removed_events(before, map_of(after)) + added_events(after, map_of(before)) + answered
}

impl Sep2Model {
    /// Every stored control's realised interval ends within range.
    pub open spec fn wf(&self) -> bool {
        forall|k: u128| #[trigger] self.controls@.contains_key(k) ==> self.controls@[k].fits()
    }

    /// A model with nothing in it.
    pub fn new() -> (r: Sep2Model)
        ensures
            r.wf(),
            r.time is None,
            r.end_device_list is None,
            r.function_set_assignments_lists@ == Map::<Seq<char>, IdList<u128>>::empty(),
            r.program_lists@ == Map::<Seq<char>, IdList<u128>>::empty(),
            r.control_lists@ == Map::<Seq<char>, IdList<u128>>::empty(),
            r.curve_lists@ == Map::<Seq<char>, IdList<u128>>::empty(),
            r.end_devices@ == Map::<Lfdi, EndDevice>::empty(),
            r.function_set_assignments@ == Map::<u128, FunctionSetAssignments>::empty(),
            r.programs@ == Map::<u128, DERProgram>::empty(),
            r.controls@ == Map::<u128, ScheduledControl>::empty(),
            r.curves@ == Map::<u128, DERCurve>::empty(),
            r.default_controls@ == Map::<Seq<char>, DefaultDERControl>::empty(),
    {
        Sep2Model {
            time: None,
            function_set_assignments_lists: Store::new(),
            program_lists: Store::new(),
            control_lists: Store::new(),
            curve_lists: Store::new(),
            end_device_list: None,
            end_devices: Store::new(),
            function_set_assignments: Store::new(),
            programs: Store::new(),
            controls: Store::new(),
            curves: Store::new(),
            default_controls: Store::new(),
        }
    }

    /// Upsert the Time.
    pub fn set_time(&mut self, time: Time) -> (r: Vec<Event>)
        ensures
            *final(self) == (Sep2Model { time: Some(time), ..*old(self) }),
            r@.len() == 0,
    {
        self.time = Some(time);
        Vec::new()
    }

    /// Insert or replace a single end device, if it has an LFDI.
    pub fn set_end_device(&mut self, incoming: EndDevice)
        ensures
            *final(self) == (Sep2Model { end_devices: final(self).end_devices, ..*old(self) }),
            final(self).end_devices@ == match incoming.lfdi {
                Some(l) => old(self).end_devices@.insert(l, incoming),
                None => old(self).end_devices@,
            },
    {
        match incoming.lfdi {
            Some(l) => self.end_devices.upsert(l, incoming),
            None => {},
        }
    }

    /// Upsert an EndDeviceList, and the end devices in it.
    pub fn set_end_device_list(&mut self, incoming: EndDeviceList) -> (r: Vec<Event>)
        ensures
            r@.len() == 0,
            edl_applied(*old(self), *final(self), incoming),
    {
        let EndDeviceList { href, end_device, poll_rate, all: _, results: _ } = incoming;
        let href = match href {
            Some(h) => h,
            None => {
                return Vec::new();
            },
        };
        let ghost ds = end_device@;
        let mut items: Vec<Lfdi> = Vec::new();
        let mut i: usize = 0;
        while i < end_device.len()
            invariant
                i <= ds.len(),
                end_device@ == ds,
                items@ == lfdis_of(ds.take(i as int)),
            decreases ds.len() - i,
        {
            assert(ds.take(i as int + 1).drop_last() =~= ds.take(i as int));
            match end_device[i].lfdi {
                Some(l) => items.push(l),
                None => {
                    assert(items@ + Seq::<Lfdi>::empty() =~= items@);
                },
            }
            i = i + 1;
        }
        assert(ds.take(ds.len() as int) =~= ds);
        self.end_device_list = Some(IdList { href, items, poll_rate });
        let ghost before = *self;
        let mut rest = end_device;
        let mut k: usize = 0;
        while rest.len() > 0
            invariant
                k <= ds.len(),
                ds.len() <= usize::MAX,
                rest@ == ds.skip(k as int),
                *self == (Sep2Model { end_devices: self.end_devices, ..before }),
                self.end_devices@ == devices_after(before.end_devices@, ds.take(k as int)),
            decreases rest@.len(),
        {
            let d = rest.remove(0);
            assert(d == ds[k as int]);
            assert(ds.take(k as int + 1).drop_last() =~= ds.take(k as int));
            assert(rest@ =~= ds.skip(k as int + 1));
            self.set_end_device(d);
            k = k + 1;
        }
        assert(ds.take(k as int) =~= ds);
        Vec::new()
    }

    /// Upsert a FunctionSetAssignments.
    pub fn set_function_set_assignments(&mut self, incoming: FunctionSetAssignments)
        ensures
            *final(self) == (Sep2Model {
                function_set_assignments: final(self).function_set_assignments,
                ..*old(self)
            }),
            final(self).function_set_assignments@ == old(self).function_set_assignments@.insert(
                incoming.mrid,
                incoming,
            ),
    {
        let mrid = incoming.mrid;
        self.function_set_assignments.upsert(mrid, incoming);
    }

    /// Upsert a FunctionSetAssignmentsList, and the items in it.
    pub fn set_function_set_assignments_list(&mut self, incoming: FunctionSetAssignmentsList) -> (r: Vec<Event>)
        ensures
            r@.len() == 0,
            fsal_applied(*old(self), *final(self), incoming),
    {
        let FunctionSetAssignmentsList { href, function_set_assignments: items, poll_rate, all: _, results: _ } = incoming;
        let href = match href {
            Some(h) => h,
            None => {
                return Vec::new();
            },
        };
        let ghost s = items@;
        let mut ids: Vec<u128> = Vec::new();
        let mut i: usize = 0;
        while i < items.len()
            invariant
                i <= s.len(),
                items@ == s,
                ids@ == fsa_mrids(s.take(i as int)),
            decreases s.len() - i,
        {
            assert(fsa_mrids(s.take(i as int + 1)) =~= fsa_mrids(s.take(i as int)).push(s[i as int].mrid));
            ids.push(items[i].mrid);
            i = i + 1;
        }
        assert(s.take(s.len() as int) =~= s);
        let key = href.clone();
        self.function_set_assignments_lists.upsert(key, IdList { href, items: ids, poll_rate });
        let ghost before = *self;
        let mut rest = items;
        let mut k: usize = 0;
        while rest.len() > 0
            invariant
                k <= s.len(),
                s.len() <= usize::MAX,
                rest@ == s.skip(k as int),
                *self == (Sep2Model { function_set_assignments: self.function_set_assignments, ..before }),
                self.function_set_assignments@ == fsas_after(before.function_set_assignments@, s.take(k as int)),
            decreases rest@.len(),
        {
            let item = rest.remove(0);
            assert(item == s[k as int]);
            assert(s.take(k as int + 1).drop_last() =~= s.take(k as int));
            assert(rest@ =~= s.skip(k as int + 1));
            self.set_function_set_assignments(item);
            k = k + 1;
        }
        assert(s.take(k as int) =~= s);
        Vec::new()
    }

    /// Upsert a DERProgram.
    pub fn set_der_program(&mut self, incoming: DERProgram)
        ensures
            *final(self) == (Sep2Model { programs: final(self).programs, ..*old(self) }),
            final(self).programs@ == old(self).programs@.insert(incoming.mrid, incoming),
    {
        let mrid = incoming.mrid;
        self.programs.upsert(mrid, incoming);
    }

    /// Upsert a DERProgramList, and the programs in it.
    pub fn set_der_program_list(&mut self, incoming: DERProgramList) -> (r: Vec<Event>)
        ensures
            r@.len() == 0,
            derpl_applied(*old(self), *final(self), incoming),
    {
        let DERProgramList { href, der_program: items, poll_rate, all: _, results: _ } = incoming;
        let href = match href {
            Some(h) => h,
            None => {
                return Vec::new();
            },
        };
        let ghost s = items@;
        let mut ids: Vec<u128> = Vec::new();
        let mut i: usize = 0;
        while i < items.len()
            invariant
                i <= s.len(),
                items@ == s,
                ids@ == program_mrids(s.take(i as int)),
            decreases s.len() - i,
        {
            assert(program_mrids(s.take(i as int + 1)) =~= program_mrids(s.take(i as int)).push(s[i as int].mrid));
            ids.push(items[i].mrid);
            i = i + 1;
        }
        assert(s.take(s.len() as int) =~= s);
        let key = href.clone();
        self.program_lists.upsert(key, IdList { href, items: ids, poll_rate });
        let ghost before = *self;
        let mut rest = items;
        let mut k: usize = 0;
        while rest.len() > 0
            invariant
                k <= s.len(),
                s.len() <= usize::MAX,
                rest@ == s.skip(k as int),
                *self == (Sep2Model { programs: self.programs, ..before }),
                self.programs@ == programs_after(before.programs@, s.take(k as int)),
            decreases rest@.len(),
        {
            let item = rest.remove(0);
            assert(item == s[k as int]);
            assert(s.take(k as int + 1).drop_last() =~= s.take(k as int));
            assert(rest@ =~= s.skip(k as int + 1));
            self.set_der_program(item);
            k = k + 1;
        }
        assert(s.take(k as int) =~= s);
        Vec::new()
    }

    /// Upsert a DERCurve.
    pub fn set_der_curve(&mut self, incoming: DERCurve)
        ensures
            *final(self) == (Sep2Model { curves: final(self).curves, ..*old(self) }),
            final(self).curves@ == old(self).curves@.insert(incoming.mrid, incoming),
    {
        let mrid = incoming.mrid;
        self.curves.upsert(mrid, incoming);
    }

    /// Upsert a DERCurveList, and the curves in it. Its poll rate is that of
    /// the program list above it, so none is stored with it.
    pub fn set_der_curve_list(&mut self, incoming: DERCurveList) -> (r: Vec<Event>)
        ensures
            r@.len() == 0,
            curvel_applied(*old(self), *final(self), incoming),
    {
        let DERCurveList { href, der_curve: items, all: _, results: _ } = incoming;
        let href = match href {
            Some(h) => h,
            None => {
                return Vec::new();
            },
        };
        let ghost s = items@;
        let mut ids: Vec<u128> = Vec::new();
        let mut i: usize = 0;
        while i < items.len()
            invariant
                i <= s.len(),
                items@ == s,
                ids@ == curve_mrids(s.take(i as int)),
            decreases s.len() - i,
        {
            assert(curve_mrids(s.take(i as int + 1)) =~= curve_mrids(s.take(i as int)).push(s[i as int].mrid));
            ids.push(items[i].mrid);
            i = i + 1;
        }
        assert(s.take(s.len() as int) =~= s);
        let key = href.clone();
        self.curve_lists.upsert(key, IdList { href, items: ids, poll_rate: None });
        let ghost before = *self;
        let mut rest = items;
        let mut k: usize = 0;
        while rest.len() > 0
            invariant
                k <= s.len(),
                s.len() <= usize::MAX,
                rest@ == s.skip(k as int),
                *self == (Sep2Model { curves: self.curves, ..before }),
                self.curves@ == curves_after(before.curves@, s.take(k as int)),
            decreases rest@.len(),
        {
            let item = rest.remove(0);
            assert(item == s[k as int]);
            assert(s.take(k as int + 1).drop_last() =~= s.take(k as int));
            assert(rest@ =~= s.skip(k as int + 1));
            self.set_der_curve(item);
            k = k + 1;
        }
        assert(s.take(k as int) =~= s);
        Vec::new()
    }

    /// Upsert a DefaultDERControl, stored under its href.
    pub fn set_default_der_control(&mut self, incoming: DefaultDERControl) -> (r: Vec<Event>)
        ensures
            r@.len() == 0,
            dderc_applied(*old(self), *final(self), incoming),
    {
        match &incoming.href {
            Some(h) => {
                let key = h.clone();
                self.default_controls.upsert(key, incoming);
            },
            None => {},
        }
        Vec::new()
    }

    /// Upsert a DERControl, with the time `now` and the shifts of its
    /// interval drawn for it, should it be new. A known control keeps its
    /// realised interval, and the shifts are not used.
    pub fn set_der_control_at(&mut self, incoming: DERControl, now: i64, shift: (i16, i16)) -> (r: Vec<Event>)
        requires
            old(self).wf(),
            !old(self).controls@.contains_key(incoming.mrid) ==> acceptable(incoming) && shift_ok(incoming, shift),
        ensures
            final(self).wf(),
            *final(self) == (Sep2Model { controls: final(self).controls, ..*old(self) }),
            final(self).controls@ == control_step(old(self).controls@, incoming, shift),
            r@ == control_step_events(old(self).controls@, incoming, now as int, shift),
    {
        let mrid = incoming.mrid;
        let known = match self.controls.get(&mrid) {
            Some(prior) => Some((prior.der_control.current_status, prior.start_time, prior.duration)),
            None => None,
        };
        let mut events: Vec<Event> = Vec::new();
        match known {
            Some((prior_status, start_time, duration)) => {
                if prior_status != incoming.current_status {
                    if incoming.current_status == EventStatusType::Cancelled {
                        match crate::scheduler::make_status_event(&incoming, ResponseStatus::EventCancelled) {
                            Some(e) => events.push(e),
                            None => {},
                        }
                    } else if incoming.current_status == EventStatusType::Superseded {
                        match crate::scheduler::make_status_event(&incoming, ResponseStatus::EventSuperseded) {
                            Some(e) => events.push(e),
                            None => {},
                        }
                    }
                }
                let ghost sc = ScheduledControl { der_control: incoming, start_time, duration };
                self.controls.upsert(mrid, ScheduledControl { der_control: incoming, start_time, duration });
                proof {
                    assert(sc.fits());
                    assert forall|k: u128| #[trigger] self.controls@.contains_key(k) implies self.controls@[k].fits() by {
                        if k != mrid {
                            assert(old(self).controls@.contains_key(k));
                        }
                    }
                }
            },
            None => {
                let start_time: i64 = incoming.interval_start + shift.0 as i64;
                let shifted: i64 = incoming.interval_duration as i64 + shift.1 as i64;
                let duration: u32 = if shifted < 0 {
                    0
                } else if shifted > 4294967295i64 {
                    (shifted - 4294967296i64) as u32
                } else {
                    shifted as u32
                };
                let end_time: i64 = start_time + duration as i64;
                match reply_to_if_required(&incoming, RESPONSE_MESSAGE_RECEIVED) {
                    Some(reply_to) => events.push(
                        Event::DERControlStatusChanged {
                            subject: mrid,
                            status: ResponseStatus::EventReceived,
                            reply_to,
                        },
                    ),
                    None => {},
                }
                if incoming.current_status == EventStatusType::Active && start_time <= now && end_time > now {
                    match crate::scheduler::make_status_event(&incoming, ResponseStatus::EventStarted) {
                        Some(e) => events.push(e),
                        None => {},
                    }
                }
                self.controls.upsert(mrid, ScheduledControl { der_control: incoming, start_time, duration });
                proof {
                    assert forall|k: u128| #[trigger] self.controls@.contains_key(k) implies self.controls@[k].fits() by {
                        if k != mrid {
                            assert(old(self).controls@.contains_key(k));
                        }
                    }
                }
            },
        }
        events
    }

    /// Upsert a DERControlList, and the controls in it, with the time `now`
    /// and the shifts drawn for each control. Its poll rate is that of the
    /// program list above it, so none is stored with it.
    pub fn set_der_control_list_at(&mut self, incoming: DERControlList, now: i64, shifts: Vec<(i16, i16)>) -> (r: Vec<Event>)
        requires
            old(self).wf(),
            news_acceptable(old(self).controls@, incoming.der_control@),
            shifts_fit(old(self).controls@, incoming.der_control@, shifts@),
        ensures
            final(self).wf(),
            dercl_applied(*old(self), *final(self), incoming, now as int, shifts@, r@),
    {
        let DERControlList { href, der_control: items, all: _, results: _ } = incoming;
        let href = match href {
            Some(h) => h,
            None => {
                return Vec::new();
            },
        };
        let ghost s = items@;
        let mut ids: Vec<u128> = Vec::new();
        let mut i: usize = 0;
        while i < items.len()
            invariant
                i <= s.len(),
                items@ == s,
                ids@ == control_mrids(s.take(i as int)),
            decreases s.len() - i,
        {
            assert(control_mrids(s.take(i as int + 1)) =~= control_mrids(s.take(i as int)).push(s[i as int].mrid));
            ids.push(items[i].mrid);
            i = i + 1;
        }
        assert(s.take(s.len() as int) =~= s);
        let key = href.clone();
        self.control_lists.upsert(key, IdList { href, items: ids, poll_rate: None });
        let ghost before = *self;
        let ghost sh = shifts@;
        let mut events: Vec<Event> = Vec::new();
        let mut rest = items;
        let mut k: usize = 0;
        while rest.len() > 0
            invariant
                k <= s.len(),
                s.len() <= usize::MAX,
                rest@ == s.skip(k as int),
                shifts@ == sh,
                news_acceptable(before.controls@, s),
                shifts_fit(before.controls@, s, sh),
                self.wf(),
                *self == (Sep2Model { controls: self.controls, ..before }),
                self.controls@ == controls_after(before.controls@, s.take(k as int), sh.take(k as int)),
                events@ == controls_events(before.controls@, s.take(k as int), now as int, sh.take(k as int)),
            decreases rest@.len(),
        {
            let item = rest.remove(0);
            assert(item == s[k as int]);
            assert(s.take(k as int + 1).drop_last() =~= s.take(k as int));
            assert(sh.take(k as int + 1).drop_last() =~= sh.take(k as int));
            assert(rest@ =~= s.skip(k as int + 1));
            proof {
                lemma_controls_after_keys(before.controls@, s.take(k as int), sh.take(k as int), item.mrid);
                if !self.controls@.contains_key(item.mrid) {
                    assert forall|j: int| 0 <= j < k implies #[trigger] s[j].mrid != s[k as int].mrid by {
                        assert(s.take(k as int)[j] == s[j]);
                        if s[j].mrid == item.mrid {
                            assert(s.take(k as int)[j].mrid == item.mrid);
                        }
                    }
                    assert(arrives_new(before.controls@, s, k as int));
                }
            }
            let shift = shifts[k];
            let mut more = self.set_der_control_at(item, now, shift);
            events.append(&mut more);
            k = k + 1;
        }
        assert(s.take(k as int) =~= s);
        assert(sh.take(k as int) =~= sh);
        events
    }
}

/// A value chosen at random in `low..=high`.
///
/// Calls `rand::rng().random_range(low..=high)` on the thread's generator,
/// which panics on an empty range and otherwise returns a value within it.
/// Which value comes back is not stated.
#[verifier::external_body]
fn random_in_range(low: i16, high: i16) -> (r: i16)
    requires
        low <= high,
    ensures
        low <= r <= high,
{
    rand::rng().random_range(low..=high)
}

/// Draws the shifts of a control's interval within its randomisation ranges.
pub fn draw_shift(c: &DERControl) -> (r: (i16, i16))
    requires
        acceptable(*c),
    ensures
        shift_ok(*c, r),
{
    let rs: i16 = match c.randomize_start {
        Some(v) => v,
        None => 0,
    };
    let rd: i16 = match c.randomize_duration {
        Some(v) => v,
        None => 0,
    };
    (random_in_range(-rs, rs), random_in_range(-rd, rd))
}

/// Draws the shifts for each control of a list that is new when it
/// arrives, given the controls already `known`; a known control keeps its
/// interval, and its shifts are left at zero.
pub fn draw_shifts(known: &Store<u128, ScheduledControl>, cs: &Vec<DERControl>) -> (r: Vec<(i16, i16)>)
    requires
        news_acceptable(known@, cs@),
    ensures
        shifts_fit(known@, cs@, r@),
{
    let mut shifts: Vec<(i16, i16)> = Vec::new();
    let mut i: usize = 0;
    while i < cs.len()
        invariant
            i <= cs@.len(),
            news_acceptable(known@, cs@),
            shifts@.len() == i,
            forall|j: int| 0 <= j < i && arrives_new(known@, cs@, j) ==> shift_ok(#[trigger] cs@[j], shifts@[j]),
        decreases cs@.len() - i,
    {
        let shift = if known_on_arrival(known, cs, i) {
            (0i16, 0i16)
        } else {
            draw_shift(&cs[i])
        };
        shifts.push(shift);
        i = i + 1;
    }
    shifts
}

} // verus!

verus! {

/// A single link.
pub open spec fn link_to(href: Seq<char>, kind: ResourceKind, poll_rate: Option<u32>) -> Map<Seq<char>, ResourceLink> {
    Map::<Seq<char>, ResourceLink>::empty().insert(href, ResourceLink { kind, poll_rate })
}

/// `acc` with the link to an item, where it has a href.
pub open spec fn with_item(
    acc: Map<Seq<char>, ResourceLink>,
    href: Option<String>,
    kind: ResourceKind,
    poll_rate: Option<u32>,
) -> Map<Seq<char>, ResourceLink> {
    match href {
        Some(h) => acc.insert(h@, ResourceLink { kind, poll_rate }),
        None => acc,
    }
}

fn add_item(acc: &mut LinkMap, href: &Option<String>, kind: ResourceKind, poll_rate: Option<u32>)
    requires
        old(acc).wf(),
    ensures
        final(acc).wf(),
        final(acc)@ == with_item(old(acc)@, *href, kind, poll_rate),
{
    match href {
        Some(h) => acc.insert(h.clone(), ResourceLink { kind, poll_rate }),
        None => {},
    }
}

fn single_link(href: &String, kind: ResourceKind, poll_rate: Option<u32>) -> (r: LinkMap)
    ensures
        r.wf(),
        r@ == link_to(href@, kind, poll_rate),
{
    let mut r = LinkMap::new();
    r.insert(href.clone(), ResourceLink { kind, poll_rate });
    r
}

impl Sep2Model {
    /// The links of the stored controls among `ids`, after `acc`.
    pub open spec fn control_items_links(
        &self,
        acc: Map<Seq<char>, ResourceLink>,
        ids: Seq<u128>,
        poll_rate: Option<u32>,
    ) -> Map<Seq<char>, ResourceLink>
        decreases ids.len(),
    {
        if ids.len() == 0 {
            acc
        } else {
            let prior = self.control_items_links(acc, ids.drop_last(), poll_rate);
            if self.controls@.contains_key(ids.last()) {
                with_item(prior, self.controls@[ids.last()].der_control.href, ResourceKind::DERControl, poll_rate)
            } else {
                prior
            }
        }
    }

    /// The links of a DERControlList and of its stored controls.
    pub open spec fn control_list_links(&self, href: Seq<char>, poll_rate: Option<u32>) -> Map<Seq<char>, ResourceLink> {
        let base = link_to(href, ResourceKind::DERControlList, poll_rate);
        if self.control_lists@.contains_key(href) {
            self.control_items_links(base, self.control_lists@[href].items@, poll_rate)
        } else {
            base
        }
    }

    /// The links of the stored curves among `ids`, after `acc`.
    pub open spec fn curve_items_links(
        &self,
        acc: Map<Seq<char>, ResourceLink>,
        ids: Seq<u128>,
        poll_rate: Option<u32>,
    ) -> Map<Seq<char>, ResourceLink>
        decreases ids.len(),
    {
        if ids.len() == 0 {
            acc
        } else {
            let prior = self.curve_items_links(acc, ids.drop_last(), poll_rate);
            if self.curves@.contains_key(ids.last()) {
                with_item(prior, self.curves@[ids.last()].href, ResourceKind::DERCurve, poll_rate)
            } else {
                prior
            }
        }
    }

    /// The links of a DERCurveList and of its stored curves.
    pub open spec fn curve_list_links(&self, href: Seq<char>, poll_rate: Option<u32>) -> Map<Seq<char>, ResourceLink> {
        let base = link_to(href, ResourceKind::DERCurveList, poll_rate);
        if self.curve_lists@.contains_key(href) {
            self.curve_items_links(base, self.curve_lists@[href].items@, poll_rate)
        } else {
            base
        }
    }

    /// The links below a program: its default control, then its control
    /// list, then its curve list, all at the poll rate of its list.
    pub open spec fn program_children(&self, p: DERProgram, poll_rate: Option<u32>) -> Map<Seq<char>, ResourceLink> {
        let d = match p.default_der_control_link {
            Some(h) => link_to(h@, ResourceKind::DefaultDERControl, poll_rate),
            None => Map::empty(),
        };
        let c = match p.der_control_list_link {
            Some(h) => self.control_list_links(h@, poll_rate),
            None => Map::empty(),
        };
        let v = match p.der_curve_list_link {
            Some(h) => self.curve_list_links(h@, poll_rate),
            None => Map::empty(),
        };
        d.union_prefer_right(c).union_prefer_right(v)
    }

    /// The links of the stored programs among `ids` and below them, after
    /// `acc`.
    pub open spec fn program_items_links(
        &self,
        acc: Map<Seq<char>, ResourceLink>,
        ids: Seq<u128>,
        poll_rate: Option<u32>,
    ) -> Map<Seq<char>, ResourceLink>
        decreases ids.len(),
    {
        if ids.len() == 0 {
            acc
        } else {
            let prior = self.program_items_links(acc, ids.drop_last(), poll_rate);
            if self.programs@.contains_key(ids.last()) {
                let p = self.programs@[ids.last()];
                with_item(prior, p.href, ResourceKind::DERProgram, poll_rate).union_prefer_right(
                    self.program_children(p, poll_rate),
                )
            } else {
                prior
            }
        }
    }

    /// The poll rate of a stored list, unknown until the list arrives.
    pub open spec fn list_poll_rate(lists: Map<Seq<char>, IdList<u128>>, href: Seq<char>) -> Option<u32> {
        if lists.contains_key(href) {
            lists[href].poll_rate
        } else {
            None
        }
    }

    /// The links of a DERProgramList and everything below it. Everything
    /// below it uses its poll rate.
    pub open spec fn program_list_links(&self, href: Seq<char>) -> Map<Seq<char>, ResourceLink> {
        let poll_rate = Self::list_poll_rate(self.program_lists@, href);
        let base = link_to(href, ResourceKind::DERProgramList, poll_rate);
        if self.program_lists@.contains_key(href) {
            self.program_items_links(base, self.program_lists@[href].items@, poll_rate)
        } else {
            base
        }
    }

    /// The links of the stored function set assignments among `ids` and
    /// below them, after `acc`.
    pub open spec fn fsa_items_links(
        &self,
        acc: Map<Seq<char>, ResourceLink>,
        ids: Seq<u128>,
        poll_rate: Option<u32>,
    ) -> Map<Seq<char>, ResourceLink>
        decreases ids.len(),
    {
        if ids.len() == 0 {
            acc
        } else {
            let prior = self.fsa_items_links(acc, ids.drop_last(), poll_rate);
            if self.function_set_assignments@.contains_key(ids.last()) {
                let f = self.function_set_assignments@[ids.last()];
                with_item(prior, f.href, ResourceKind::FunctionSetAssignments, poll_rate).union_prefer_right(
                    match f.der_program_list_link {
                        Some(h) => self.program_list_links(h@),
                        None => Map::empty(),
                    },
                )
            } else {
                prior
            }
        }
    }

    /// The links of a FunctionSetAssignmentsList and everything below it.
    pub open spec fn fsa_list_links(&self, href: Seq<char>) -> Map<Seq<char>, ResourceLink> {
        let poll_rate = Self::list_poll_rate(self.function_set_assignments_lists@, href);
        let base = link_to(href, ResourceKind::FunctionSetAssignmentsList, poll_rate);
        if self.function_set_assignments_lists@.contains_key(href) {
            self.fsa_items_links(base, self.function_set_assignments_lists@[href].items@, poll_rate)
        } else {
            base
        }
    }

    /// The links of the stored end devices among `ids` and below them, after
    /// `acc`.
    pub open spec fn device_items_links(
        &self,
        acc: Map<Seq<char>, ResourceLink>,
        ids: Seq<Lfdi>,
        poll_rate: Option<u32>,
    ) -> Map<Seq<char>, ResourceLink>
        decreases ids.len(),
    {
        if ids.len() == 0 {
            acc
        } else {
            let prior = self.device_items_links(acc, ids.drop_last(), poll_rate);
            if self.end_devices@.contains_key(ids.last()) {
                let d = self.end_devices@[ids.last()];
                with_item(prior, d.href, ResourceKind::EndDevice, poll_rate).union_prefer_right(
                    match d.function_set_assignments_list_link {
                        Some(h) => self.fsa_list_links(h@),
                        None => Map::empty(),
                    },
                )
            } else {
                prior
            }
        }
    }

    /// All resources that the model needs to be kept up to date with: the
    /// Time, once its href is known, and everything reached by following
    /// links from the EndDeviceList. Most lists use their own poll rate;
    /// every other resource uses that of its closest list above.
    pub open spec fn links_spec(&self) -> Map<Seq<char>, ResourceLink> {
        let time = match self.time {
            Some(t) => match t.href {
                Some(h) => link_to(h@, ResourceKind::Time, t.poll_rate),
                None => Map::empty(),
            },
            None => Map::empty(),
        };
        let devices = match self.end_device_list {
            Some(l) => self.device_items_links(
                link_to(l.href@, ResourceKind::EndDeviceList, l.poll_rate),
                l.items@,
                l.poll_rate,
            ),
            None => Map::empty(),
        };
        time.union_prefer_right(devices)
    }

    fn control_list_links_exec(&self, href: &String, poll_rate: Option<u32>) -> (r: LinkMap)
        ensures
            r.wf(),
            r@ == self.control_list_links(href@, poll_rate),
    {
        let mut acc = single_link(href, ResourceKind::DERControlList, poll_rate);
        match self.control_lists.get(href) {
            None => {},
            Some(list) => {
                let ghost base = acc@;
                let ids = &list.items;
                let mut i: usize = 0;
                while i < ids.len()
                    invariant
                        i <= ids@.len(),
                        acc.wf(),
                        acc@ == self.control_items_links(base, ids@.take(i as int), poll_rate),
                    decreases ids@.len() - i,
                {
                    assert(ids@.take(i as int + 1).drop_last() =~= ids@.take(i as int));
                    match self.controls.get(&ids[i]) {
                        Some(c) => add_item(&mut acc, &c.der_control.href, ResourceKind::DERControl, poll_rate),
                        None => {},
                    }
                    i = i + 1;
                }
                assert(ids@.take(ids@.len() as int) =~= ids@);
            },
        }
        acc
    }

    fn curve_list_links_exec(&self, href: &String, poll_rate: Option<u32>) -> (r: LinkMap)
        ensures
            r.wf(),
            r@ == self.curve_list_links(href@, poll_rate),
    {
        let mut acc = single_link(href, ResourceKind::DERCurveList, poll_rate);
        match self.curve_lists.get(href) {
            None => {},
            Some(list) => {
                let ghost base = acc@;
                let ids = &list.items;
                let mut i: usize = 0;
                while i < ids.len()
                    invariant
                        i <= ids@.len(),
                        acc.wf(),
                        acc@ == self.curve_items_links(base, ids@.take(i as int), poll_rate),
                    decreases ids@.len() - i,
                {
                    assert(ids@.take(i as int + 1).drop_last() =~= ids@.take(i as int));
                    match self.curves.get(&ids[i]) {
                        Some(c) => add_item(&mut acc, &c.href, ResourceKind::DERCurve, poll_rate),
                        None => {},
                    }
                    i = i + 1;
                }
                assert(ids@.take(ids@.len() as int) =~= ids@);
            },
        }
        acc
    }

    fn program_children_exec(&self, p: &DERProgram, poll_rate: Option<u32>) -> (r: LinkMap)
        ensures
            r.wf(),
            r@ == self.program_children(*p, poll_rate),
    {
        let mut acc = match &p.default_der_control_link {
            Some(h) => single_link(h, ResourceKind::DefaultDERControl, poll_rate),
            None => LinkMap::new(),
        };
        let ghost d = acc@;
        match &p.der_control_list_link {
            Some(h) => {
                let c = self.control_list_links_exec(h, poll_rate);
                acc.extend(c);
            },
            None => {
                assert(d.union_prefer_right(Map::empty()) =~= d);
            },
        }
        let ghost dc = acc@;
        match &p.der_curve_list_link {
            Some(h) => {
                let v = self.curve_list_links_exec(h, poll_rate);
                acc.extend(v);
            },
            None => {
                assert(dc.union_prefer_right(Map::empty()) =~= dc);
            },
        }
        acc
    }

    fn program_list_links_exec(&self, href: &String) -> (r: LinkMap)
        ensures
            r.wf(),
            r@ == self.program_list_links(href@),
    {
        match self.program_lists.get(href) {
            None => single_link(href, ResourceKind::DERProgramList, None),
            Some(list) => {
                let poll_rate = list.poll_rate;
                let mut acc = single_link(href, ResourceKind::DERProgramList, poll_rate);
                let ghost base = acc@;
                let ids = &list.items;
                let mut i: usize = 0;
                while i < ids.len()
                    invariant
                        i <= ids@.len(),
                        acc.wf(),
                        acc@ == self.program_items_links(base, ids@.take(i as int), poll_rate),
                    decreases ids@.len() - i,
                {
                    assert(ids@.take(i as int + 1).drop_last() =~= ids@.take(i as int));
                    match self.programs.get(&ids[i]) {
                        Some(p) => {
                            add_item(&mut acc, &p.href, ResourceKind::DERProgram, poll_rate);
                            let children = self.program_children_exec(p, poll_rate);
                            acc.extend(children);
                        },
                        None => {},
                    }
                    i = i + 1;
                }
                assert(ids@.take(ids@.len() as int) =~= ids@);
                acc
            },
        }
    }

    fn fsa_list_links_exec(&self, href: &String) -> (r: LinkMap)
        ensures
            r.wf(),
            r@ == self.fsa_list_links(href@),
    {
        match self.function_set_assignments_lists.get(href) {
            None => single_link(href, ResourceKind::FunctionSetAssignmentsList, None),
            Some(list) => {
                let poll_rate = list.poll_rate;
                let mut acc = single_link(href, ResourceKind::FunctionSetAssignmentsList, poll_rate);
                let ghost base = acc@;
                let ids = &list.items;
                let mut i: usize = 0;
                while i < ids.len()
                    invariant
                        i <= ids@.len(),
                        acc.wf(),
                        acc@ == self.fsa_items_links(base, ids@.take(i as int), poll_rate),
                    decreases ids@.len() - i,
                {
                    assert(ids@.take(i as int + 1).drop_last() =~= ids@.take(i as int));
                    match self.function_set_assignments.get(&ids[i]) {
                        Some(f) => {
                            add_item(&mut acc, &f.href, ResourceKind::FunctionSetAssignments, poll_rate);
                            let ghost mid = acc@;
                            match &f.der_program_list_link {
                                Some(h) => {
                                    let below = self.program_list_links_exec(h);
                                    acc.extend(below);
                                },
                                None => {
                                    assert(mid.union_prefer_right(Map::empty()) =~= mid);
                                },
                            }
                        },
                        None => {},
                    }
                    i = i + 1;
                }
                assert(ids@.take(ids@.len() as int) =~= ids@);
                acc
            },
        }
    }

    /// Identify all resources which the model needs to be kept up to date
    /// with, including those it has and those it is yet to receive.
    pub fn resource_links(&self) -> (r: LinkMap)
        ensures
            r.wf(),
            r@ == self.links_spec(),
    {
        let mut acc = match &self.time {
            Some(t) => match &t.href {
                Some(h) => single_link(h, ResourceKind::Time, t.poll_rate),
                None => LinkMap::new(),
            },
            None => LinkMap::new(),
        };
        let ghost time = acc@;
        match &self.end_device_list {
            None => {
                assert(time.union_prefer_right(Map::empty()) =~= time);
            },
            Some(edl) => {
                let poll_rate = edl.poll_rate;
                let mut devices = single_link(&edl.href, ResourceKind::EndDeviceList, poll_rate);
                let ghost base = devices@;
                let ids = &edl.items;
                let mut i: usize = 0;
                while i < ids.len()
                    invariant
                        i <= ids@.len(),
                        devices.wf(),
                        devices@ == self.device_items_links(base, ids@.take(i as int), poll_rate),
                    decreases ids@.len() - i,
                {
                    assert(ids@.take(i as int + 1).drop_last() =~= ids@.take(i as int));
                    match self.end_devices.get(&ids[i]) {
                        Some(d) => {
                            add_item(&mut devices, &d.href, ResourceKind::EndDevice, poll_rate);
                            let ghost mid = devices@;
                            match &d.function_set_assignments_list_link {
                                Some(h) => {
                                    let below = self.fsa_list_links_exec(h);
                                    devices.extend(below);
                                },
                                None => {
                                    assert(mid.union_prefer_right(Map::empty()) =~= mid);
                                },
                            }
                        },
                        None => {},
                    }
                    i = i + 1;
                }
                assert(ids@.take(ids@.len() as int) =~= ids@);
                acc.extend(devices);
            },
        }
        acc
    }
}

} // verus!

verus! {

/// The order of precedence of primacies: lower values take precedence.
pub open spec fn primacy_rank(p: PrimacyType) -> int {
    match p {
        PrimacyType::InHomeEnergyManagementSystem => 0,
        PrimacyType::ContractedPremisesServiceProvider => 1,
        PrimacyType::NonContractualServiceProvider => 2,
    }
}

fn primacy_rank_exec(p: PrimacyType) -> (r: u8)
    ensures
        r == primacy_rank(p),
{
    match p {
        PrimacyType::InHomeEnergyManagementSystem => 0,
        PrimacyType::ContractedPremisesServiceProvider => 1,
        PrimacyType::NonContractualServiceProvider => 2,
    }
}

/// `a` goes strictly before `b`: by primacy first; within a primacy,
/// scheduled controls before defaults, and later created controls before
/// earlier ones.
pub open spec fn precedes<'a>(a: (PrimacyType, ControlRef<'a>), b: (PrimacyType, ControlRef<'a>)) -> bool {
    if primacy_rank(a.0) != primacy_rank(b.0) {
        primacy_rank(a.0) < primacy_rank(b.0)
    } else {
        match (a.1, b.1) {
            (ControlRef::Default(_), _) => false,
            (ControlRef::Scheduled(_), ControlRef::Default(_)) => true,
            (ControlRef::Scheduled(x), ControlRef::Scheduled(y)) => x.der_control.creation_time
                > y.der_control.creation_time,
        }
    }
}

fn precedes_exec(a: &(PrimacyType, ControlRef), b: &(PrimacyType, ControlRef)) -> (r: bool)
    ensures
        r == precedes(*a, *b),
{
    let ra = primacy_rank_exec(a.0);
    let rb = primacy_rank_exec(b.0);
    if ra != rb {
        ra < rb
    } else {
        match (&a.1, &b.1) {
            (ControlRef::Default(_), _) => false,
            (ControlRef::Scheduled(_), ControlRef::Default(_)) => true,
            (ControlRef::Scheduled(x), ControlRef::Scheduled(y)) => x.der_control.creation_time
                > y.der_control.creation_time,
        }
    }
}

/// Every scheduled control among annotated entries ends within range.
pub open spec fn annotated_fit<'a>(s: Seq<(PrimacyType, ControlRef<'a>)>) -> bool {
    forall|i: int|
        0 <= i < s.len() ==> match #[trigger] s[i].1 {
            ControlRef::Scheduled(c) => c.fits(),
            ControlRef::Default(_) => true,
        }
}

/// `x` placed in `s` after every entry that it does not precede, from the
/// end: the step of a stable insertion sort.
pub open spec fn insert_sorted<'a>(s: Seq<(PrimacyType, ControlRef<'a>)>, x: (PrimacyType, ControlRef<'a>)) -> Seq<(PrimacyType, ControlRef<'a>)>
    decreases s.len(),
{
    if s.len() == 0 {
        seq![x]
    } else if !precedes(x, s.last()) {
        s.push(x)
    } else {
        insert_sorted(s.drop_last(), x).push(s.last())
    }
}

/// `s` in order of precedence, entries that neither precedes keeping their
/// order.
pub open spec fn sort_by_precedence<'a>(s: Seq<(PrimacyType, ControlRef<'a>)>) -> Seq<(PrimacyType, ControlRef<'a>)>
    decreases s.len(),
{
    if s.len() == 0 {
        Seq::empty()
    } else {
        insert_sorted(sort_by_precedence(s.drop_last()), s.last())
    }
}

proof fn lemma_insert_sorted<'a>(s: Seq<(PrimacyType, ControlRef<'a>)>, x: (PrimacyType, ControlRef<'a>), j: int)
    requires
        0 <= j <= s.len(),
        forall|k: int| j <= k < s.len() ==> precedes(x, #[trigger] s[k]),
        j > 0 ==> !precedes(x, s[j - 1]),
    ensures
        insert_sorted(s, x) == s.insert(j, x),
    decreases s.len(),
{
    if s.len() == 0 {
        assert(s.insert(0, x) =~= seq![x]);
    } else if j == s.len() {
        assert(s.insert(j, x) =~= s.push(x));
    } else {
        assert(precedes(x, s[s.len() - 1]));
        lemma_insert_sorted(s.drop_last(), x, j);
        assert(s.drop_last().insert(j, x).push(s.last()) =~= s.insert(j, x));
    }
}

/// No entry of `s` precedes one before it.
pub open spec fn in_precedence_order<'a>(s: Seq<(PrimacyType, ControlRef<'a>)>) -> bool {
    forall|i: int, j: int| 0 <= i < j < s.len() ==> !precedes(#[trigger] s[j], #[trigger] s[i])
}

proof fn lemma_precedes_order<'a>(
    a: (PrimacyType, ControlRef<'a>),
    b: (PrimacyType, ControlRef<'a>),
    c: (PrimacyType, ControlRef<'a>),
)
    ensures
        !precedes(a, a),
        precedes(a, b) ==> !precedes(b, a),
        !precedes(a, b) && !precedes(b, c) ==> !precedes(a, c),
{
}

proof fn lemma_insert_sorted_members<'a>(s: Seq<(PrimacyType, ControlRef<'a>)>, x: (PrimacyType, ControlRef<'a>))
    ensures
        insert_sorted(s, x).len() == s.len() + 1,
        forall|k: int|
            0 <= k < insert_sorted(s, x).len() ==> #[trigger] insert_sorted(s, x)[k] == x || s.contains(
                insert_sorted(s, x)[k],
            ),
    decreases s.len(),
{
    if s.len() > 0 && precedes(x, s.last()) {
        let inner = insert_sorted(s.drop_last(), x);
        lemma_insert_sorted_members(s.drop_last(), x);
        assert forall|k: int| 0 <= k < insert_sorted(s, x).len() implies #[trigger] insert_sorted(s, x)[k] == x
            || s.contains(insert_sorted(s, x)[k]) by {
            if k < inner.len() {
                assert(insert_sorted(s, x)[k] == inner[k]);
                if inner[k] != x {
                    let w = choose|m: int| 0 <= m < s.drop_last().len() && s.drop_last()[m] == inner[k];
                    assert(s[w] == inner[k]);
                }
            } else {
                assert(insert_sorted(s, x)[k] == s[s.len() - 1]);
            }
        }
    } else if s.len() > 0 {
        assert forall|k: int| 0 <= k < insert_sorted(s, x).len() implies #[trigger] insert_sorted(s, x)[k] == x
            || s.contains(insert_sorted(s, x)[k]) by {
            if k < s.len() {
                assert(insert_sorted(s, x)[k] == s[k]);
            }
        }
    }
}

proof fn lemma_insert_sorted_order<'a>(s: Seq<(PrimacyType, ControlRef<'a>)>, x: (PrimacyType, ControlRef<'a>))
    requires
        in_precedence_order(s),
    ensures
        in_precedence_order(insert_sorted(s, x)),
    decreases s.len(),
{
    let r = insert_sorted(s, x);
    if s.len() == 0 {
    } else if !precedes(x, s.last()) {
        assert forall|i: int, j: int| 0 <= i < j < r.len() implies !precedes(#[trigger] r[j], #[trigger] r[i]) by {
            if j == s.len() {
                lemma_precedes_order(x, s.last(), s[i]);
                if i < s.len() - 1 {
                    assert(!precedes(s[s.len() - 1], s[i]));
                }
                lemma_precedes_order(s[i], s[i], s[i]);
            }
        }
    } else {
        let t = s.drop_last();
        let inner = insert_sorted(t, x);
        assert(in_precedence_order(t)) by {
            assert forall|i: int, j: int| 0 <= i < j < t.len() implies !precedes(#[trigger] t[j], #[trigger] t[i]) by {
                assert(t[i] == s[i] && t[j] == s[j]);
            }
        }
        lemma_insert_sorted_order(t, x);
        lemma_insert_sorted_members(t, x);
        assert forall|i: int, j: int| 0 <= i < j < r.len() implies !precedes(#[trigger] r[j], #[trigger] r[i]) by {
            if j == r.len() - 1 {
                assert(r[j] == s.last());
                assert(r[i] == inner[i]);
                if inner[i] == x {
                    lemma_precedes_order(x, s.last(), x);
                } else {
                    let w = choose|m: int| 0 <= m < t.len() && t[m] == inner[i];
                    assert(s[w] == inner[i]);
                }
            } else {
                assert(r[i] == inner[i] && r[j] == inner[j]);
            }
        }
    }
}

/// Sorting by precedence leaves no entry before one that it precedes.
pub proof fn sorted_in_precedence_order<'a>(s: Seq<(PrimacyType, ControlRef<'a>)>)
    ensures
        in_precedence_order(sort_by_precedence(s)),
    decreases s.len(),
{
    if s.len() > 0 {
        sorted_in_precedence_order(s.drop_last());
        lemma_insert_sorted_order(sort_by_precedence(s.drop_last()), s.last());
    }
}

/// Primacy decides the order first: in any sequence in precedence order, a
/// control of an in-home energy management system's program comes before
/// every control of a contracted premises provider's program, and a control
/// of a contracted provider's program before every control of a
/// non-contractual provider's. (A lower primacy value wins.)
pub proof fn precedence_follows_primacy<'a>(s: Seq<(PrimacyType, ControlRef<'a>)>)
    requires
        in_precedence_order(s),
    ensures
        forall|i: int, j: int|
            0 <= i < j < s.len() ==> {
                &&& (#[trigger] s[j]).0 == PrimacyType::InHomeEnergyManagementSystem ==> (#[trigger] s[i]).0
                    == PrimacyType::InHomeEnergyManagementSystem
                &&& s[j].0 == PrimacyType::ContractedPremisesServiceProvider ==> s[i].0
                    != PrimacyType::NonContractualServiceProvider
            },
{
    assert forall|i: int, j: int| 0 <= i < j < s.len() implies {
        &&& (#[trigger] s[j]).0 == PrimacyType::InHomeEnergyManagementSystem ==> (#[trigger] s[i]).0
            == PrimacyType::InHomeEnergyManagementSystem
        &&& s[j].0 == PrimacyType::ContractedPremisesServiceProvider ==> s[i].0
            != PrimacyType::NonContractualServiceProvider
    } by {
        assert(!precedes(s[j], s[i]));
    }
}

/// The controls handed to the layering are in primacy order: sorting any
/// controls puts those of in-home programs first, then those of contracted
/// providers, then those of non-contractual providers.
pub proof fn sorted_controls_follow_primacy<'a>(s: Seq<(PrimacyType, ControlRef<'a>)>)
    ensures
        forall|i: int, j: int|
            0 <= i < j < sort_by_precedence(s).len() ==> {
                &&& (#[trigger] sort_by_precedence(s)[j]).0 == PrimacyType::InHomeEnergyManagementSystem
                    ==> (#[trigger] sort_by_precedence(s)[i]).0 == PrimacyType::InHomeEnergyManagementSystem
                &&& sort_by_precedence(s)[j].0 == PrimacyType::ContractedPremisesServiceProvider
                    ==> sort_by_precedence(s)[i].0 != PrimacyType::NonContractualServiceProvider
            },
{
    sorted_in_precedence_order(s);
    precedence_follows_primacy(sort_by_precedence(s));
}

proof fn lemma_insert_sorted_multiset<'a>(s: Seq<(PrimacyType, ControlRef<'a>)>, x: (PrimacyType, ControlRef<'a>))
    ensures
        insert_sorted(s, x).to_multiset() == s.to_multiset().insert(x),
    decreases s.len(),
{
    broadcast use vstd::seq_lib::to_multiset_build;
    broadcast use vstd::multiset::group_multiset_axioms;

    if s.len() == 0 {
        assert(insert_sorted(s, x) =~= s.push(x));
    } else if precedes(x, s.last()) {
        lemma_insert_sorted_multiset(s.drop_last(), x);
        assert(s =~= s.drop_last().push(s.last()));
        assert(insert_sorted(s, x).to_multiset() =~= s.to_multiset().insert(x));
    }
}

/// Sorting by precedence keeps every entry, as many times as it occurs.
pub proof fn sorted_is_permutation<'a>(s: Seq<(PrimacyType, ControlRef<'a>)>)
    ensures
        sort_by_precedence(s).to_multiset() == s.to_multiset(),
    decreases s.len(),
{
    broadcast use vstd::seq_lib::to_multiset_build;

    if s.len() > 0 {
        sorted_is_permutation(s.drop_last());
        lemma_insert_sorted_multiset(sort_by_precedence(s.drop_last()), s.last());
        assert(s =~= s.drop_last().push(s.last()));
        assert(s.drop_last().push(s.last()).to_multiset() == s.drop_last().to_multiset().insert(s.last()));
    } else {
        assert(s =~= Seq::<(PrimacyType, ControlRef<'a>)>::empty());
    }
}

/// Sorts `v` by precedence, stably.
fn sort_controls<'a>(v: Vec<(PrimacyType, ControlRef<'a>)>) -> (r: Vec<(PrimacyType, ControlRef<'a>)>)
    requires
        annotated_fit(v@),
    ensures
        r@ == sort_by_precedence(v@),
        annotated_fit(r@),
{
    let ghost s = v@;
    let mut sorted: Vec<(PrimacyType, ControlRef<'a>)> = Vec::new();
    let mut rest = v;
    let mut k: usize = 0;
    assert(rest@.len() == rest.len());
    while rest.len() > 0
        invariant
            k <= s.len(),
            s.len() <= usize::MAX,
            rest@ == s.skip(k as int),
            sorted@ == sort_by_precedence(s.take(k as int)),
            annotated_fit(s),
            annotated_fit(sorted@),
        decreases rest@.len(),
    {
        let x = rest.remove(0);
        assert(x == s[k as int]);
        assert(rest@ =~= s.skip(k as int + 1));
        assert(s.take(k as int + 1).drop_last() =~= s.take(k as int));
        let ghost before = sorted@;
        let mut j: usize = sorted.len();
        while j > 0 && precedes_exec(&x, &sorted[j - 1])
            invariant
                sorted@ == before,
                j <= before.len(),
                forall|m: int| j <= m < before.len() ==> precedes(x, #[trigger] before[m]),
            decreases j,
        {
            j = j - 1;
        }
        proof {
            lemma_insert_sorted(before, x, j as int);
        }
        sorted.insert(j, x);
        assert(annotated_fit(sorted@)) by {
            assert forall|m: int| 0 <= m < sorted@.len() implies match #[trigger] sorted@[m].1 {
                ControlRef::Scheduled(c) => c.fits(),
                ControlRef::Default(_) => true,
            } by {
                if m < j {
                    assert(sorted@[m] == before[m]);
                } else if m > j {
                    assert(sorted@[m] == before[m - 1]);
                } else {
                    assert(sorted@[m] == s[k as int]);
                }
            }
        }
        k = k + 1;
    }
    assert(s.take(k as int) =~= s);
    sorted
}

/// A scheduled control is kept for scheduling: scheduled or active, and not
/// yet over.
pub open spec fn kept(c: ScheduledControl, now: int) -> bool {
    &&& (c.der_control.current_status == EventStatusType::Scheduled || c.der_control.current_status
        == EventStatusType::Active)
    &&& c.spec_end_time() > now
}

/// Each control of `cs` with the primacy of its program.
pub open spec fn annotate<'a>(primacy: PrimacyType, cs: Seq<ControlRef<'a>>) -> Seq<(PrimacyType, ControlRef<'a>)>
    decreases cs.len(),
{
    if cs.len() == 0 {
        Seq::empty()
    } else {
        annotate(primacy, cs.drop_last()).push((primacy, cs.last()))
    }
}

/// The controls of annotated entries, without their primacies.
pub open spec fn strip<'a>(s: Seq<(PrimacyType, ControlRef<'a>)>) -> Seq<ControlRef<'a>>
    decreases s.len(),
{
    if s.len() == 0 {
        Seq::empty()
    } else {
        strip(s.drop_last()).push(s.last().1)
    }
}

proof fn lemma_annotate_concat<'a>(primacy: PrimacyType, a: Seq<ControlRef<'a>>, b: Seq<ControlRef<'a>>)
    ensures
        annotate(primacy, a + b) == annotate(primacy, a) + annotate(primacy, b),
    decreases b.len(),
{
    if b.len() == 0 {
        assert(a + b =~= a);
        assert(annotate(primacy, a) + annotate(primacy, b) =~= annotate(primacy, a));
    } else {
        assert((a + b).drop_last() =~= a + b.drop_last());
        lemma_annotate_concat(primacy, a, b.drop_last());
        assert(annotate(primacy, a) + annotate(primacy, b) =~= (annotate(primacy, a) + annotate(
            primacy,
            b.drop_last(),
        )).push((primacy, b.last())));
    }
}

impl Sep2Model {
    /// The stored programs among `ids`.
    pub open spec fn list_programs(&self, ids: Seq<u128>) -> Seq<DERProgram>
        decreases ids.len(),
    {
        if ids.len() == 0 {
            Seq::empty()
        } else {
            self.list_programs(ids.drop_last()) + if self.programs@.contains_key(ids.last()) {
                seq![self.programs@[ids.last()]]
            } else {
                Seq::empty()
            }
        }
    }

    /// The programs reached from the stored function set assignments among
    /// `ids`, through their program lists.
    pub open spec fn fsa_programs(&self, ids: Seq<u128>) -> Seq<DERProgram>
        decreases ids.len(),
    {
        if ids.len() == 0 {
            Seq::empty()
        } else {
            self.fsa_programs(ids.drop_last()) + if self.function_set_assignments@.contains_key(
                ids.last(),
            ) {
                match self.function_set_assignments@[ids.last()].der_program_list_link {
                    Some(h) => if self.program_lists@.contains_key(h@) {
                        self.list_programs(self.program_lists@[h@].items@)
                    } else {
                        Seq::empty()
                    },
                    None => Seq::empty(),
                }
            } else {
                Seq::empty()
            }
        }
    }

    /// The programs of a device: EndDevice, FSA list, FSA, program list,
    /// program, skipping what has not been received.
    pub open spec fn device_programs(&self, lfdi: Lfdi) -> Seq<DERProgram> {
        if self.end_devices@.contains_key(lfdi) {
            match self.end_devices@[lfdi].function_set_assignments_list_link {
                Some(h) => if self.function_set_assignments_lists@.contains_key(h@) {
                    self.fsa_programs(self.function_set_assignments_lists@[h@].items@)
                } else {
                    Seq::empty()
                },
                None => Seq::empty(),
            }
        } else {
            Seq::empty()
        }
    }

    /// The stored controls among `ids` kept for scheduling at `now`.
    pub open spec fn kept_controls(&self, ids: Seq<u128>, now: int) -> Seq<ControlRef<'_>>
        decreases ids.len(),
    {
        if ids.len() == 0 {
            Seq::empty()
        } else {
            self.kept_controls(ids.drop_last(), now) + if self.controls@.contains_key(ids.last())
                && kept(self.controls@[ids.last()], now) {
                seq![ControlRef::Scheduled(&self.controls@[ids.last()])]
            } else {
                Seq::empty()
            }
        }
    }

    /// A program's kept controls.
    pub open spec fn program_scheduled(&self, p: DERProgram, now: int) -> Seq<ControlRef<'_>> {
        match p.der_control_list_link {
            Some(h) => if self.control_lists@.contains_key(h@) {
                self.kept_controls(self.control_lists@[h@].items@, now)
            } else {
                Seq::empty()
            },
            None => Seq::empty(),
        }
    }

    /// A program's default control, where it has been received.
    pub open spec fn program_default(&self, p: DERProgram) -> Seq<ControlRef<'_>> {
        match p.default_der_control_link {
            Some(h) => if self.default_controls@.contains_key(h@) {
                seq![ControlRef::Default(&self.default_controls@[h@])]
            } else {
                Seq::empty()
            },
            None => Seq::empty(),
        }
    }

    /// A program's kept controls, then its default control.
    pub open spec fn program_controls(&self, p: DERProgram, now: int) -> Seq<ControlRef<'_>> {
        self.program_scheduled(p, now) + self.program_default(p)
    }

    /// The controls of `ps`, each with the primacy of its program.
    pub open spec fn programs_controls(&self, ps: Seq<DERProgram>, now: int) -> Seq<(PrimacyType, ControlRef<'_>)>
        decreases ps.len(),
    {
        if ps.len() == 0 {
            Seq::empty()
        } else {
            self.programs_controls(ps.drop_last(), now) + annotate(
                ps.last().primacy,
                self.program_controls(ps.last(), now),
            )
        }
    }

    /// The controls that apply to a device at `now`, in order of precedence.
    pub open spec fn device_controls(&self, lfdi: Lfdi, now: int) -> Seq<ControlRef<'_>> {
        strip(sort_by_precedence(self.programs_controls(self.device_programs(lfdi), now)))
    }

    proof fn lemma_programs_controls_concat(&self, a: Seq<DERProgram>, b: Seq<DERProgram>, now: int)
        ensures
            self.programs_controls(a + b, now) == self.programs_controls(a, now) + self.programs_controls(b, now),
        decreases b.len(),
    {
        if b.len() == 0 {
            assert(a + b =~= a);
        } else {
            assert((a + b).drop_last() =~= a + b.drop_last());
            self.lemma_programs_controls_concat(a, b.drop_last(), now);
        }
    }

    fn program_controls_exec<'a>(&'a self, p: &DERProgram, now: i64, out: &mut Vec<(PrimacyType, ControlRef<'a>)>)
        requires
            self.wf(),
            annotated_fit(old(out)@),
        ensures
            final(out)@ == old(out)@ + annotate(p.primacy, self.program_controls(*p, now as int)),
            annotated_fit(final(out)@),
    {
        let ghost start = out@;
        let ghost scheduled = self.program_scheduled(*p, now as int);
        match &p.der_control_list_link {
            Some(h) => match self.control_lists.get(h) {
                Some(list) => {
                    let ids = &list.items;
                    let mut i: usize = 0;
                    while i < ids.len()
                        invariant
                            i <= ids@.len(),
                            self.wf(),
                            out@ == start + annotate(p.primacy, self.kept_controls(ids@.take(i as int), now as int)),
                            annotated_fit(out@),
                        decreases ids@.len() - i,
                    {
                        assert(ids@.take(i as int + 1).drop_last() =~= ids@.take(i as int));
                        let ghost prior = self.kept_controls(ids@.take(i as int), now as int);
                        match self.controls.get(&ids[i]) {
                            Some(c) => {
                                assert(c.fits());
                                let status = c.der_control.current_status;
                                if (status == EventStatusType::Scheduled || status == EventStatusType::Active)
                                    && c.end_time() > now {
                                    out.push((p.primacy, ControlRef::Scheduled(c)));
                                    assert(annotated_fit(out@)) by {
                                        assert forall|m: int| 0 <= m < out@.len() implies match #[trigger] out@[m].1 {
                                            ControlRef::Scheduled(c) => c.fits(),
                                            ControlRef::Default(_) => true,
                                        } by {
                                        }
                                    }
                                    let ghost x = ControlRef::Scheduled(&self.controls@[ids@[i as int]]);
                                    assert(prior + seq![x] =~= prior.push(x));
                                    assert((prior + seq![x]).drop_last() =~= prior);
                                    assert(out@ =~= start + annotate(p.primacy, prior + seq![x]));
                                } else {
                                    assert(prior + Seq::<ControlRef>::empty() =~= prior);
                                }
                            },
                            None => {
                                assert(prior + Seq::<ControlRef>::empty() =~= prior);
                            },
                        }
                        i = i + 1;
                    }
                    assert(ids@.take(ids@.len() as int) =~= ids@);
                },
                None => {
                    assert(start + annotate(p.primacy, Seq::<ControlRef>::empty()) =~= start);
                },
            },
            None => {
                assert(start + annotate(p.primacy, Seq::<ControlRef>::empty()) =~= start);
            },
        }
        assert(out@ == start + annotate(p.primacy, scheduled));
        let ghost mid = out@;
        let ghost default = self.program_default(*p);
        match &p.default_der_control_link {
            Some(h) => match self.default_controls.get(h) {
                Some(d) => {
                    let ghost pre = out@;
                    out.push((p.primacy, ControlRef::Default(d)));
                    assert(annotated_fit(out@)) by {
                        assert forall|m: int| 0 <= m < out@.len() implies match #[trigger] out@[m].1 {
                            ControlRef::Scheduled(c) => c.fits(),
                            ControlRef::Default(_) => true,
                        } by {
                            if m < pre.len() {
                                assert(out@[m] == pre[m]);
                            }
                        }
                    }
                    assert(default == seq![ControlRef::Default(d)]);
                    assert(default.drop_last() =~= Seq::<ControlRef>::empty());
                    assert(annotate(p.primacy, default) == seq![(p.primacy, ControlRef::Default(d))]) by {
                        reveal_with_fuel(annotate, 2);
                        assert(annotate(p.primacy, Seq::<ControlRef>::empty()) =~= Seq::empty());
                        assert(Seq::<(PrimacyType, ControlRef)>::empty().push((p.primacy, ControlRef::Default(d)))
                            =~= seq![(p.primacy, ControlRef::Default(d))]);
                    }
                    assert(out@ =~= mid + annotate(p.primacy, default));
                },
                None => {
                    assert(out@ =~= mid + annotate(p.primacy, default));
                },
            },
            None => {
                assert(out@ =~= mid + annotate(p.primacy, default));
            },
        }
        proof {
            lemma_annotate_concat(p.primacy, scheduled, default);
        }
        assert(out@ =~= start + annotate(p.primacy, scheduled + default));
    }

    fn list_controls_exec<'a>(&'a self, ids: &Vec<u128>, now: i64, out: &mut Vec<(PrimacyType, ControlRef<'a>)>)
        requires
            self.wf(),
            annotated_fit(old(out)@),
        ensures
            final(out)@ == old(out)@ + self.programs_controls(self.list_programs(ids@), now as int),
            annotated_fit(final(out)@),
    {
        let ghost start = out@;
        let mut i: usize = 0;
        assert(self.programs_controls(self.list_programs(ids@.take(0)), now as int) =~= Seq::empty());
        while i < ids.len()
            invariant
                i <= ids@.len(),
                self.wf(),
                out@ == start + self.programs_controls(self.list_programs(ids@.take(i as int)), now as int),
                annotated_fit(out@),
            decreases ids@.len() - i,
        {
            assert(ids@.take(i as int + 1).drop_last() =~= ids@.take(i as int));
            let ghost prior = self.list_programs(ids@.take(i as int));
            match self.programs.get(&ids[i]) {
                Some(p) => {
                    proof {
                        assert((prior + seq![*p]).drop_last() =~= prior);
                        assert((prior + seq![*p]).last() == *p);
                    }
                    self.program_controls_exec(p, now, out);
                    assert(out@ =~= start + self.programs_controls(prior + seq![*p], now as int));
                },
                None => {
                    assert(prior + Seq::<DERProgram>::empty() =~= prior);
                },
            }
            i = i + 1;
        }
        assert(ids@.take(ids@.len() as int) =~= ids@);
    }

    /// Finds all controls and default controls for an end device from the
    /// programs it is part of, leaving out past, cancelled and superseded
    /// controls, in order of precedence.
    pub fn all_controls_for_device<'a>(&'a self, lfdi: Lfdi, now: i64) -> (r: Result<Vec<ControlRef<'a>>, crate::Error>)
        requires
            self.wf(),
        ensures
            r matches Ok(v) && v@ == self.device_controls(lfdi, now as int) && crate::scheduler::all_fit(v@),
    {
        let mut annotated: Vec<(PrimacyType, ControlRef<'a>)> = Vec::new();
        let ghost programs = self.device_programs(lfdi);
        match self.end_devices.get(&lfdi) {
            None => {},
            Some(device) => match &device.function_set_assignments_list_link {
                None => {},
                Some(h) => match self.function_set_assignments_lists.get(h) {
                    None => {},
                    Some(fsal) => {
                        let ids = &fsal.items;
                        let mut i: usize = 0;
                        assert(self.programs_controls(self.fsa_programs(ids@.take(0)), now as int) =~= Seq::empty());
                        while i < ids.len()
                            invariant
                                i <= ids@.len(),
                                self.wf(),
                                annotated@ == self.programs_controls(self.fsa_programs(ids@.take(i as int)), now as int),
                                annotated_fit(annotated@),
                            decreases ids@.len() - i,
                        {
                            assert(ids@.take(i as int + 1).drop_last() =~= ids@.take(i as int));
                            let ghost prior = self.fsa_programs(ids@.take(i as int));
                            match self.function_set_assignments.get(&ids[i]) {
                                Some(f) => match &f.der_program_list_link {
                                    Some(ph) => match self.program_lists.get(ph) {
                                        Some(derpl) => {
                                            proof {
                                                self.lemma_programs_controls_concat(prior, self.list_programs(derpl.items@), now as int);
                                            }
                                            self.list_controls_exec(&derpl.items, now, &mut annotated);
                                        },
                                        None => {
                                            assert(prior + Seq::<DERProgram>::empty() =~= prior);
                                        },
                                    },
                                    None => {
                                        assert(prior + Seq::<DERProgram>::empty() =~= prior);
                                    },
                                },
                                None => {
                                    assert(prior + Seq::<DERProgram>::empty() =~= prior);
                                },
                            }
                            i = i + 1;
                        }
                        assert(ids@.take(ids@.len() as int) =~= ids@);
                    },
                },
            },
        }
        assert(annotated@ == self.programs_controls(programs, now as int));
        let sorted = sort_controls(annotated);
        let mut controls: Vec<ControlRef<'a>> = Vec::new();
        let mut rest = sorted;
        let ghost s = rest@;
        let mut k: usize = 0;
        assert(rest@.len() == rest.len());
        while rest.len() > 0
            invariant
                k <= s.len(),
                s.len() <= usize::MAX,
                rest@ == s.skip(k as int),
                controls@ == strip(s.take(k as int)),
                annotated_fit(s),
                crate::scheduler::all_fit(controls@),
            decreases rest@.len(),
        {
            let (_, c) = rest.remove(0);
            assert(rest@ =~= s.skip(k as int + 1));
            assert(s.take(k as int + 1).drop_last() =~= s.take(k as int));
            let ghost pre = controls@;
            assert(c == s[k as int].1);
            controls.push(c);
            assert(crate::scheduler::all_fit(controls@)) by {
                assert forall|m: int| 0 <= m < controls@.len() implies match #[trigger] controls@[m] {
                    ControlRef::Scheduled(c) => c.fits(),
                    ControlRef::Default(_) => true,
                } by {
                    if m < pre.len() {
                        assert(controls@[m] == pre[m]);
                    }
                }
            }
            k = k + 1;
        }
        assert(s.take(k as int) =~= s);
        Ok(controls)
    }

    /// Upsert a DERControl, drawing `now` from the clock and, for a new
    /// control, the shifts of its interval at random. A known control keeps
    /// its realised interval, so nothing is drawn for it.
    pub fn set_der_control(&mut self, incoming: DERControl) -> (r: Vec<Event>)
        requires
            old(self).wf(),
            !old(self).controls@.contains_key(incoming.mrid) ==> acceptable(incoming),
        ensures
            final(self).wf(),
            *final(self) == (Sep2Model { controls: final(self).controls, ..*old(self) }),
            exists|now: i64, shift: (i16, i16)|
                #![trigger control_step_events(old(self).controls@, incoming, now as int, shift)]
                (!old(self).controls@.contains_key(incoming.mrid) ==> shift_ok(incoming, shift))
                    && final(self).controls@ == control_step(
                    old(self).controls@,
                    incoming,
                    shift,
                ) && r@ == control_step_events(old(self).controls@, incoming, now as int, shift),
    {
        let now = crate::clock::now_timestamp();
        let shift = if self.controls.get(&incoming.mrid).is_some() {
            (0i16, 0i16)
        } else {
            draw_shift(&incoming)
        };
        let ghost o = *self;
        let r = self.set_der_control_at(incoming, now, shift);
        assert(r@ == control_step_events(o.controls@, incoming, now as int, shift));
        r
    }

    /// Upsert a DERControlList, drawing `now` from the clock and the shifts
    /// of new controls' intervals at random.
    pub fn set_der_control_list(&mut self, incoming: DERControlList) -> (r: Vec<Event>)
        requires
            old(self).wf(),
            news_acceptable(old(self).controls@, incoming.der_control@),
        ensures
            final(self).wf(),
            exists|now: i64, shifts: Seq<(i16, i16)>|
                #![trigger dercl_applied(*old(self), *final(self), incoming, now as int, shifts, r@)]
                shifts_fit(old(self).controls@, incoming.der_control@, shifts) && dercl_applied(
                    *old(self),
                    *final(self),
                    incoming,
                    now as int,
                    shifts,
                    r@,
                ),
    {
        let now = crate::clock::now_timestamp();
        let shifts = draw_shifts(&self.controls, &incoming.der_control);
        let ghost sh = shifts@;
        let ghost o = *self;
        let ghost inc = incoming;
        let r = self.set_der_control_list_at(incoming, now, shifts);
        assert(dercl_applied(o, *self, inc, now as int, sh, r@));
        r
    }

    /// Takes a resource update from the SEP2 server and merges it into the
    /// model. Changes to the set of resources to poll are announced first,
    /// then the responses that the update calls for.
    ///
    /// Updates that arrive again report nothing: one update repeated at once
    /// (`repeated_update_reports_nothing`), a whole sequence of them
    /// repeated after all of it (`repeated_sequence_reports_nothing`), and
    /// any update that the model already holds
    /// (`held_update_reports_nothing`). These laws are proved below, as
    /// public proof functions.
    pub fn apply_update(&mut self, update: Sep2ResourceEvent) -> (r: Vec<Event>)
        requires
            old(self).wf(),
            update_acceptable(*old(self), update),
        ensures
            final(self).wf(),
            update_reported(*old(self), *final(self), update, r@),
    {
        let ghost o = *self;
        let ghost u = update;
        let before = self.resource_links();
        let mut answered = match update {
            Sep2ResourceEvent::Time(t) => self.set_time(t),
            Sep2ResourceEvent::EndDeviceList(l) => self.set_end_device_list(l),
            Sep2ResourceEvent::FunctionSetAssignmentsList(l) => self.set_function_set_assignments_list(l),
            Sep2ResourceEvent::DERProgramList(l) => self.set_der_program_list(l),
            Sep2ResourceEvent::DefaultDERControl(d) => self.set_default_der_control(d),
            Sep2ResourceEvent::DERControlList(l) => self.set_der_control_list(l),
            Sep2ResourceEvent::DERCurveList(l) => self.set_der_curve_list(l),
        };
        let ghost ans = answered@;
        assert(update_effect(o, *self, u, ans));
        let after = self.resource_links();
        let mut events = resource_link_events(&before, &after);
        events.append(&mut answered);
        assert(map_of(before.entries@) == o.links_spec());
        assert(map_of(after.entries@) == self.links_spec());
        assert(reported_through(o, *self, u, events@, before.entries@, after.entries@, ans));
        events
    }

    /// Find an EndDevice: the entry point to the model, from which links are
    /// followed.
    pub fn get_end_device(&self, lfdi: Lfdi) -> (r: Option<&EndDevice>)
        ensures
            match r {
                Some(d) => self.end_devices@.contains_key(lfdi) && self.end_devices@[lfdi] == *d,
                None => !self.end_devices@.contains_key(lfdi),
            },
    {
        self.end_devices.get(&lfdi)
    }

    /// Find a curve by href rather than MRID: the first stored curve with it.
    pub fn get_curve_by_href(&self, href: &String) -> (r: Option<&DERCurve>)
        ensures
            match r {
                Some(c) => curve_with_href(self.curves.entries@, href@) == Some(*c),
                None => curve_with_href(self.curves.entries@, href@) is None,
            },
    {
        let ghost s = self.curves.entries@;
        assert(s.skip(0) =~= s);
        let mut i: usize = 0;
        while i < self.curves.entries.len()
            invariant
                i <= s.len(),
                s == self.curves.entries@,
                curve_with_href(s, href@) == curve_with_href(s.skip(i as int), href@),
            decreases s.len() - i,
        {
            assert(s.skip(i as int).drop_first() =~= s.skip(i as int + 1));
            assert(s.skip(i as int)[0] == s[i as int]);
            let c = &self.curves.entries[i].1;
            let found = match &c.href {
                Some(h) => h.eq(href),
                None => false,
            };
            if found {
                return Some(c);
            }
            i = i + 1;
        }
        None
    }
}

} // verus!

// What an update that arrives again changes: nothing, and it is answered by
// nothing.
verus! {

/// Two stores of lists hold lists under the same hrefs, with the same items
/// and poll rates.
pub open spec fn lists_agree(x: Map<Seq<char>, IdList<u128>>, y: Map<Seq<char>, IdList<u128>>) -> bool {
    &&& x.dom() == y.dom()
    &&& forall|h: Seq<char>| #[trigger] x.contains_key(h) ==> x[h].items@ == y[h].items@ && x[h].poll_rate == y[h].poll_rate
}

/// Two models agree on everything that decides the links they need.
pub open spec fn links_agree(a: Sep2Model, b: Sep2Model) -> bool {
    &&& a.time == b.time
    &&& (a.end_device_list is Some <==> b.end_device_list is Some)
    &&& (a.end_device_list matches Some(x) ==> b.end_device_list matches Some(y) && x.href@ == y.href@
        && x.items@ == y.items@ && x.poll_rate == y.poll_rate)
    &&& a.end_devices@ == b.end_devices@
    &&& a.function_set_assignments@ == b.function_set_assignments@
    &&& a.programs@ == b.programs@
    &&& a.controls@ == b.controls@
    &&& a.curves@ == b.curves@
    &&& lists_agree(a.function_set_assignments_lists@, b.function_set_assignments_lists@)
    &&& lists_agree(a.program_lists@, b.program_lists@)
    &&& lists_agree(a.control_lists@, b.control_lists@)
    &&& lists_agree(a.curve_lists@, b.curve_lists@)
}

proof fn lemma_control_items(
    a: Sep2Model,
    b: Sep2Model,
    acc: Map<Seq<char>, ResourceLink>,
    ids: Seq<u128>,
    poll_rate: Option<u32>,
)
    requires
        links_agree(a, b),
    ensures
        a.control_items_links(acc, ids, poll_rate) == b.control_items_links(acc, ids, poll_rate),
    decreases ids.len(),
{
    if ids.len() > 0 {
        lemma_control_items(a, b, acc, ids.drop_last(), poll_rate);
    }
}

proof fn lemma_curve_items(
    a: Sep2Model,
    b: Sep2Model,
    acc: Map<Seq<char>, ResourceLink>,
    ids: Seq<u128>,
    poll_rate: Option<u32>,
)
    requires
        links_agree(a, b),
    ensures
        a.curve_items_links(acc, ids, poll_rate) == b.curve_items_links(acc, ids, poll_rate),
    decreases ids.len(),
{
    if ids.len() > 0 {
        lemma_curve_items(a, b, acc, ids.drop_last(), poll_rate);
    }
}

proof fn lemma_program_children(a: Sep2Model, b: Sep2Model, p: DERProgram, poll_rate: Option<u32>)
    requires
        links_agree(a, b),
    ensures
        a.program_children(p, poll_rate) == b.program_children(p, poll_rate),
{
    if let Some(h) = p.der_control_list_link {
        if a.control_lists@.contains_key(h@) {
            let base = link_to(h@, ResourceKind::DERControlList, poll_rate);
            lemma_control_items(a, b, base, a.control_lists@[h@].items@, poll_rate);
        }
        assert(a.control_list_links(h@, poll_rate) == b.control_list_links(h@, poll_rate));
    }
    if let Some(h) = p.der_curve_list_link {
        if a.curve_lists@.contains_key(h@) {
            let base = link_to(h@, ResourceKind::DERCurveList, poll_rate);
            lemma_curve_items(a, b, base, a.curve_lists@[h@].items@, poll_rate);
        }
        assert(a.curve_list_links(h@, poll_rate) == b.curve_list_links(h@, poll_rate));
    }
}

proof fn lemma_program_items(
    a: Sep2Model,
    b: Sep2Model,
    acc: Map<Seq<char>, ResourceLink>,
    ids: Seq<u128>,
    poll_rate: Option<u32>,
)
    requires
        links_agree(a, b),
    ensures
        a.program_items_links(acc, ids, poll_rate) == b.program_items_links(acc, ids, poll_rate),
    decreases ids.len(),
{
    if ids.len() > 0 {
        lemma_program_items(a, b, acc, ids.drop_last(), poll_rate);
        if a.programs@.contains_key(ids.last()) {
            lemma_program_children(a, b, a.programs@[ids.last()], poll_rate);
        }
    }
}

proof fn lemma_program_list(a: Sep2Model, b: Sep2Model, href: Seq<char>)
    requires
        links_agree(a, b),
    ensures
        a.program_list_links(href) == b.program_list_links(href),
{
    let poll_rate = Sep2Model::list_poll_rate(a.program_lists@, href);
    assert(poll_rate == Sep2Model::list_poll_rate(b.program_lists@, href));
    if a.program_lists@.contains_key(href) {
        let base = link_to(href, ResourceKind::DERProgramList, poll_rate);
        lemma_program_items(a, b, base, a.program_lists@[href].items@, poll_rate);
    }
}

proof fn lemma_fsa_items(
    a: Sep2Model,
    b: Sep2Model,
    acc: Map<Seq<char>, ResourceLink>,
    ids: Seq<u128>,
    poll_rate: Option<u32>,
)
    requires
        links_agree(a, b),
    ensures
        a.fsa_items_links(acc, ids, poll_rate) == b.fsa_items_links(acc, ids, poll_rate),
    decreases ids.len(),
{
    if ids.len() > 0 {
        lemma_fsa_items(a, b, acc, ids.drop_last(), poll_rate);
        if a.function_set_assignments@.contains_key(ids.last()) {
            if let Some(h) = a.function_set_assignments@[ids.last()].der_program_list_link {
                lemma_program_list(a, b, h@);
            }
        }
    }
}

proof fn lemma_fsa_list(a: Sep2Model, b: Sep2Model, href: Seq<char>)
    requires
        links_agree(a, b),
    ensures
        a.fsa_list_links(href) == b.fsa_list_links(href),
{
    let poll_rate = Sep2Model::list_poll_rate(a.function_set_assignments_lists@, href);
    assert(poll_rate == Sep2Model::list_poll_rate(b.function_set_assignments_lists@, href));
    if a.function_set_assignments_lists@.contains_key(href) {
        let base = link_to(href, ResourceKind::FunctionSetAssignmentsList, poll_rate);
        lemma_fsa_items(a, b, base, a.function_set_assignments_lists@[href].items@, poll_rate);
    }
}

proof fn lemma_device_items(
    a: Sep2Model,
    b: Sep2Model,
    acc: Map<Seq<char>, ResourceLink>,
    ids: Seq<Lfdi>,
    poll_rate: Option<u32>,
)
    requires
        links_agree(a, b),
    ensures
        a.device_items_links(acc, ids, poll_rate) == b.device_items_links(acc, ids, poll_rate),
    decreases ids.len(),
{
    if ids.len() > 0 {
        lemma_device_items(a, b, acc, ids.drop_last(), poll_rate);
        if a.end_devices@.contains_key(ids.last()) {
            if let Some(h) = a.end_devices@[ids.last()].function_set_assignments_list_link {
                lemma_fsa_list(a, b, h@);
            }
        }
    }
}

/// Models that agree on what decides their links need the same links.
proof fn lemma_links_agree(a: Sep2Model, b: Sep2Model)
    requires
        links_agree(a, b),
    ensures
        a.links_spec() == b.links_spec(),
{
    if let Some(l) = a.end_device_list {
        let base = link_to(l.href@, ResourceKind::EndDeviceList, l.poll_rate);
        lemma_device_items(a, b, base, l.items@, l.poll_rate);
    }
}

proof fn lemma_devices_split(m: Map<Lfdi, EndDevice>, ds: Seq<EndDevice>)
    ensures
        devices_after(m, ds) == m.union_prefer_right(devices_after(Map::empty(), ds)),
    decreases ds.len(),
{
    if ds.len() > 0 {
        lemma_devices_split(m, ds.drop_last());
        let a = devices_after(Map::empty(), ds.drop_last());
        if let Some(l) = ds.last().lfdi {
            assert(m.union_prefer_right(a).insert(l, ds.last()) =~= m.union_prefer_right(a.insert(l, ds.last())));
        }
    }
}

/// End devices that arrive again change nothing.
proof fn lemma_devices_twice(m: Map<Lfdi, EndDevice>, ds: Seq<EndDevice>)
    ensures
        devices_after(devices_after(m, ds), ds) == devices_after(m, ds),
{
    lemma_devices_split(m, ds);
    lemma_devices_split(devices_after(m, ds), ds);
    let a = devices_after(Map::empty(), ds);
    assert(m.union_prefer_right(a).union_prefer_right(a) =~= m.union_prefer_right(a));
}

proof fn lemma_fsas_split(m: Map<u128, FunctionSetAssignments>, s: Seq<FunctionSetAssignments>)
    ensures
        fsas_after(m, s) == m.union_prefer_right(fsas_after(Map::empty(), s)),
    decreases s.len(),
{
    if s.len() > 0 {
        lemma_fsas_split(m, s.drop_last());
        let a = fsas_after(Map::empty(), s.drop_last());
        let (k, v) = (s.last().mrid, s.last());
        assert(m.union_prefer_right(a).insert(k, v) =~= m.union_prefer_right(a.insert(k, v)));
    }
}

proof fn lemma_fsas_twice(m: Map<u128, FunctionSetAssignments>, s: Seq<FunctionSetAssignments>)
    ensures
        fsas_after(fsas_after(m, s), s) == fsas_after(m, s),
{
    lemma_fsas_split(m, s);
    lemma_fsas_split(fsas_after(m, s), s);
    let a = fsas_after(Map::empty(), s);
    assert(m.union_prefer_right(a).union_prefer_right(a) =~= m.union_prefer_right(a));
}

proof fn lemma_programs_split(m: Map<u128, DERProgram>, s: Seq<DERProgram>)
    ensures
        programs_after(m, s) == m.union_prefer_right(programs_after(Map::empty(), s)),
    decreases s.len(),
{
    if s.len() > 0 {
        lemma_programs_split(m, s.drop_last());
        let a = programs_after(Map::empty(), s.drop_last());
        let (k, v) = (s.last().mrid, s.last());
        assert(m.union_prefer_right(a).insert(k, v) =~= m.union_prefer_right(a.insert(k, v)));
    }
}

proof fn lemma_programs_twice(m: Map<u128, DERProgram>, s: Seq<DERProgram>)
    ensures
        programs_after(programs_after(m, s), s) == programs_after(m, s),
{
    lemma_programs_split(m, s);
    lemma_programs_split(programs_after(m, s), s);
    let a = programs_after(Map::empty(), s);
    assert(m.union_prefer_right(a).union_prefer_right(a) =~= m.union_prefer_right(a));
}

proof fn lemma_curves_split(m: Map<u128, DERCurve>, s: Seq<DERCurve>)
    ensures
        curves_after(m, s) == m.union_prefer_right(curves_after(Map::empty(), s)),
    decreases s.len(),
{
    if s.len() > 0 {
        lemma_curves_split(m, s.drop_last());
        let a = curves_after(Map::empty(), s.drop_last());
        let (k, v) = (s.last().mrid, s.last());
        assert(m.union_prefer_right(a).insert(k, v) =~= m.union_prefer_right(a.insert(k, v)));
    }
}

proof fn lemma_curves_twice(m: Map<u128, DERCurve>, s: Seq<DERCurve>)
    ensures
        curves_after(curves_after(m, s), s) == curves_after(m, s),
{
    lemma_curves_split(m, s);
    lemma_curves_split(curves_after(m, s), s);
    let a = curves_after(Map::empty(), s);
    assert(m.union_prefer_right(a).union_prefer_right(a) =~= m.union_prefer_right(a));
}

/// Each control of `cs` is stored as it is in `cs`.
pub open spec fn holds_controls(m: Map<u128, ScheduledControl>, cs: Seq<DERControl>) -> bool {
    forall|i: int| 0 <= i < cs.len() ==> m.contains_key(#[trigger] cs[i].mrid) && m[cs[i].mrid].der_control == cs[i]
}

/// Once controls with distinct MRIDs arrive, each is stored as it arrived.
proof fn lemma_controls_held(m: Map<u128, ScheduledControl>, cs: Seq<DERControl>, shifts: Seq<(i16, i16)>)
    requires
        control_mrids(cs).no_duplicates(),
    ensures
        holds_controls(controls_after(m, cs, shifts), cs),
    decreases cs.len(),
{
    if cs.len() > 0 {
        let dl = cs.drop_last();
        assert(control_mrids(dl) =~= control_mrids(cs).drop_last());
        lemma_controls_held(m, dl, shifts.drop_last());
        let n = cs.len() - 1;
        assert forall|i: int| 0 <= i < cs.len() implies {
            let r = controls_after(m, cs, shifts);
            r.contains_key(#[trigger] cs[i].mrid) && r[cs[i].mrid].der_control == cs[i]
        } by {
            if i < n {
                assert(dl[i] == cs[i]);
                assert(control_mrids(cs)[i] == cs[i].mrid);
                assert(control_mrids(cs)[n] == cs[n].mrid);
            }
        }
    }
}

/// Controls that are stored as they arrive again are left as they are and
/// answered by nothing.
proof fn lemma_controls_again(m: Map<u128, ScheduledControl>, cs: Seq<DERControl>, now: int, shifts: Seq<(i16, i16)>)
    requires
        holds_controls(m, cs),
    ensures
        controls_after(m, cs, shifts) == m,
        controls_events(m, cs, now, shifts) == Seq::<Event>::empty(),
    decreases cs.len(),
{
    if cs.len() > 0 {
        let dl = cs.drop_last();
        assert forall|i: int| 0 <= i < dl.len() implies m.contains_key(#[trigger] dl[i].mrid) && m[dl[i].mrid].der_control
            == dl[i] by {
            assert(dl[i] == cs[i]);
        }
        lemma_controls_again(m, dl, now, shifts.drop_last());
        let c = cs.last();
        assert(m.contains_key(cs[cs.len() - 1].mrid));
        let kept = ScheduledControl { der_control: c, start_time: m[c.mrid].start_time, duration: m[c.mrid].duration };
        assert(kept == m[c.mrid]);
        assert(m.insert(c.mrid, kept) =~= m);
        assert(change_events(m[c.mrid].der_control.current_status, c) =~= Seq::<Event>::empty());
        assert(Seq::<Event>::empty() + Seq::<Event>::empty() =~= Seq::<Event>::empty());
    }
}

/// A control list holds no MRID twice.
pub open spec fn distinct_controls(update: Sep2ResourceEvent) -> bool {
    update matches Sep2ResourceEvent::DERControlList(l) ==> control_mrids(l.der_control@).no_duplicates()
}

/// An update that arrives a second time leaves what decides the links as it
/// was, and calls for no response.
proof fn lemma_update_again(
    o: Sep2Model,
    n1: Sep2Model,
    n2: Sep2Model,
    update: Sep2ResourceEvent,
    first: Seq<Event>,
    second: Seq<Event>,
)
    requires
        distinct_controls(update),
        update_effect(o, n1, update, first),
        update_effect(n1, n2, update, second),
    ensures
        links_agree(n1, n2),
        second == Seq::<Event>::empty(),
{
    match update {
        Sep2ResourceEvent::Time(t) => {},
        Sep2ResourceEvent::EndDeviceList(l) => {
            if l.href is Some {
                lemma_devices_twice(o.end_devices@, l.end_device@);
            }
        },
        Sep2ResourceEvent::FunctionSetAssignmentsList(l) => {
            if let Some(h) = l.href {
                lemma_fsas_twice(o.function_set_assignments@, l.function_set_assignments@);
                assert(n1.function_set_assignments_lists@.dom() =~= n2.function_set_assignments_lists@.dom());
            }
        },
        Sep2ResourceEvent::DERProgramList(l) => {
            if let Some(h) = l.href {
                lemma_programs_twice(o.programs@, l.der_program@);
                assert(n1.program_lists@.dom() =~= n2.program_lists@.dom());
            }
        },
        Sep2ResourceEvent::DefaultDERControl(d) => {},
        Sep2ResourceEvent::DERCurveList(l) => {
            if let Some(h) = l.href {
                lemma_curves_twice(o.curves@, l.der_curve@);
                assert(n1.curve_lists@.dom() =~= n2.curve_lists@.dom());
            }
        },
        Sep2ResourceEvent::DERControlList(l) => {
            let (now1, shifts1): (i64, Seq<(i16, i16)>) = choose|now: i64, shifts: Seq<(i16, i16)>|
                #![trigger crate::sep2_model::dercl_applied(o, n1, l, now as int, shifts, first)]
                crate::sep2_model::shifts_fit(o.controls@, l.der_control@, shifts)
                    && crate::sep2_model::dercl_applied(o, n1, l, now as int, shifts, first);
            let (now2, shifts2): (i64, Seq<(i16, i16)>) = choose|now: i64, shifts: Seq<(i16, i16)>|
                #![trigger crate::sep2_model::dercl_applied(n1, n2, l, now as int, shifts, second)]
                crate::sep2_model::shifts_fit(n1.controls@, l.der_control@, shifts)
                    && crate::sep2_model::dercl_applied(n1, n2, l, now as int, shifts, second);
            if let Some(h) = l.href {
                lemma_controls_held(o.controls@, l.der_control@, shifts1);
                lemma_controls_again(n1.controls@, l.der_control@, now2 as int, shifts2);
                assert(n1.control_lists@.dom() =~= n2.control_lists@.dom());
            }
        },
    }
}

/// An update that arrives again, once it has been applied, is reported by
/// nothing: no link is announced as removed, added or changed, and no
/// response is called for; and the model needs the same links as after the
/// first arrival. A control list that holds one MRID twice is left out: a
/// status that a later entry overrides comes back each time the list
/// arrives.
pub proof fn repeated_update_reports_nothing(
    o: Sep2Model,
    n1: Sep2Model,
    n2: Sep2Model,
    update: Sep2ResourceEvent,
    first: Seq<Event>,
    second: Seq<Event>,
)
    requires
        distinct_controls(update),
        update_reported(o, n1, update, first),
        update_reported(n1, n2, update, second),
    ensures
        second == Seq::<Event>::empty(),
        n2.links_spec() == n1.links_spec(),
{
    let (b1, a1, ans1): (Seq<(String, ResourceLink)>, Seq<(String, ResourceLink)>, Seq<Event>) = choose|
        before: Seq<(String, ResourceLink)>,
        after: Seq<(String, ResourceLink)>,
        answered: Seq<Event>,
    | #[trigger] reported_through(o, n1, update, first, before, after, answered);
    let (b2, a2, ans2): (Seq<(String, ResourceLink)>, Seq<(String, ResourceLink)>, Seq<Event>) = choose|
        before: Seq<(String, ResourceLink)>,
        after: Seq<(String, ResourceLink)>,
        answered: Seq<Event>,
    | #[trigger] reported_through(n1, n2, update, second, before, after, answered);
    lemma_update_again(o, n1, n2, update, ans1, ans2);
    lemma_links_agree(n1, n2);
    same_links_announce_nothing(b2, a2);
    assert(second =~= Seq::<Event>::empty());
}

/// Two models agree on everything that updates set: what decides their
/// links, and their default controls.
pub open spec fn models_agree(a: Sep2Model, b: Sep2Model) -> bool {
    &&& links_agree(a, b)
    &&& a.default_controls@ == b.default_controls@
}

/// The list under `href` in `lists` has the items `items` and the poll rate
/// `poll_rate`.
pub open spec fn list_held(lists: Map<Seq<char>, IdList<u128>>, href: Seq<char>, items: Seq<u128>, poll_rate: Option<u32>) -> bool {
    &&& lists.contains_key(href)
    &&& lists[href].items@ == items
    &&& lists[href].poll_rate == poll_rate
}

/// The model already holds what `update` brings: applying it would store
/// nothing new.
pub open spec fn holds_update(n: Sep2Model, update: Sep2ResourceEvent) -> bool {
    match update {
        Sep2ResourceEvent::Time(t) => n.time == Some(t),
        Sep2ResourceEvent::EndDeviceList(l) => match l.href {
            None => true,
            Some(h) => {
                &&& n.end_device_list matches Some(x) && x.href@ == h@ && x.items@ == lfdis_of(l.end_device@)
                    && x.poll_rate == l.poll_rate
                &&& devices_after(n.end_devices@, l.end_device@) == n.end_devices@
            },
        },
        Sep2ResourceEvent::FunctionSetAssignmentsList(l) => match l.href {
            None => true,
            Some(h) => {
                &&& list_held(n.function_set_assignments_lists@, h@, fsa_mrids(l.function_set_assignments@), l.poll_rate)
                &&& fsas_after(n.function_set_assignments@, l.function_set_assignments@) == n.function_set_assignments@
            },
        },
        Sep2ResourceEvent::DERProgramList(l) => match l.href {
            None => true,
            Some(h) => {
                &&& list_held(n.program_lists@, h@, program_mrids(l.der_program@), l.poll_rate)
                &&& programs_after(n.programs@, l.der_program@) == n.programs@
            },
        },
        Sep2ResourceEvent::DERCurveList(l) => match l.href {
            None => true,
            Some(h) => {
                &&& list_held(n.curve_lists@, h@, curve_mrids(l.der_curve@), None)
                &&& curves_after(n.curves@, l.der_curve@) == n.curves@
            },
        },
        Sep2ResourceEvent::DefaultDERControl(d) => match d.href {
            None => true,
            Some(h) => n.default_controls@.contains_key(h@) && n.default_controls@[h@] == d,
        },
        Sep2ResourceEvent::DERControlList(l) => match l.href {
            None => true,
            Some(h) => {
                &&& list_held(n.control_lists@, h@, control_mrids(l.der_control@), None)
                &&& control_mrids(l.der_control@).no_duplicates()
                &&& holds_controls(n.controls@, l.der_control@)
            },
        },
    }
}

proof fn lemma_agree_trans(a: Sep2Model, b: Sep2Model, c: Sep2Model)
    requires
        models_agree(a, b),
        models_agree(b, c),
    ensures
        models_agree(a, c),
{
    assert forall|h: Seq<char>| #[trigger] a.function_set_assignments_lists@.contains_key(h) implies
        a.function_set_assignments_lists@[h].items@ == c.function_set_assignments_lists@[h].items@
        && a.function_set_assignments_lists@[h].poll_rate == c.function_set_assignments_lists@[h].poll_rate by {
        assert(b.function_set_assignments_lists@.contains_key(h));
    }
    assert forall|h: Seq<char>| #[trigger] a.program_lists@.contains_key(h) implies a.program_lists@[h].items@
        == c.program_lists@[h].items@ && a.program_lists@[h].poll_rate == c.program_lists@[h].poll_rate by {
        assert(b.program_lists@.contains_key(h));
    }
    assert forall|h: Seq<char>| #[trigger] a.control_lists@.contains_key(h) implies a.control_lists@[h].items@
        == c.control_lists@[h].items@ && a.control_lists@[h].poll_rate == c.control_lists@[h].poll_rate by {
        assert(b.control_lists@.contains_key(h));
    }
    assert forall|h: Seq<char>| #[trigger] a.curve_lists@.contains_key(h) implies a.curve_lists@[h].items@
        == c.curve_lists@[h].items@ && a.curve_lists@[h].poll_rate == c.curve_lists@[h].poll_rate by {
        assert(b.curve_lists@.contains_key(h));
    }
}

/// What one model holds, a model that agrees with it holds too.
proof fn lemma_held_in_agreeing(a: Sep2Model, b: Sep2Model, update: Sep2ResourceEvent)
    requires
        models_agree(a, b),
        holds_update(a, update),
    ensures
        holds_update(b, update),
{
    match update {
        Sep2ResourceEvent::FunctionSetAssignmentsList(l) => {
            if let Some(h) = l.href {
                assert(a.function_set_assignments_lists@.contains_key(h@));
            }
        },
        Sep2ResourceEvent::DERProgramList(l) => {
            if let Some(h) = l.href {
                assert(a.program_lists@.contains_key(h@));
            }
        },
        Sep2ResourceEvent::DERCurveList(l) => {
            if let Some(h) = l.href {
                assert(a.curve_lists@.contains_key(h@));
            }
        },
        Sep2ResourceEvent::DERControlList(l) => {
            if let Some(h) = l.href {
                assert(a.control_lists@.contains_key(h@));
            }
        },
        _ => {},
    }
}

/// An update that a model already holds leaves it agreeing with what it
/// was, and calls for no response.
proof fn lemma_update_held(n: Sep2Model, n2: Sep2Model, update: Sep2ResourceEvent, answered: Seq<Event>)
    requires
        holds_update(n, update),
        update_effect(n, n2, update, answered),
    ensures
        models_agree(n, n2),
        answered == Seq::<Event>::empty(),
{
    match update {
        Sep2ResourceEvent::Time(t) => {
            assert(n2 == n);
        },
        Sep2ResourceEvent::FunctionSetAssignmentsList(l) => {
            if let Some(h) = l.href {
                assert(n.function_set_assignments_lists@.dom() =~= n2.function_set_assignments_lists@.dom());
            }
        },
        Sep2ResourceEvent::DERProgramList(l) => {
            if let Some(h) = l.href {
                assert(n.program_lists@.dom() =~= n2.program_lists@.dom());
            }
        },
        Sep2ResourceEvent::DERCurveList(l) => {
            if let Some(h) = l.href {
                assert(n.curve_lists@.dom() =~= n2.curve_lists@.dom());
            }
        },
        Sep2ResourceEvent::DefaultDERControl(d) => {
            if let Some(h) = d.href {
                assert(n2.default_controls@ =~= n.default_controls@);
            }
        },
        Sep2ResourceEvent::DERControlList(l) => {
            let (now, shifts): (i64, Seq<(i16, i16)>) = choose|now: i64, shifts: Seq<(i16, i16)>|
                #![trigger crate::sep2_model::dercl_applied(n, n2, l, now as int, shifts, answered)]
                crate::sep2_model::shifts_fit(n.controls@, l.der_control@, shifts)
                    && crate::sep2_model::dercl_applied(n, n2, l, now as int, shifts, answered);
            if let Some(h) = l.href {
                lemma_controls_again(n.controls@, l.der_control@, now as int, shifts);
                assert(n.control_lists@.dom() =~= n2.control_lists@.dom());
            }
        },
        _ => {},
    }
}

/// Once an update has been applied, the model holds it. A control list
/// that holds one MRID twice is left out: its stored status is that of the
/// later entry, not of each.
pub proof fn applied_update_is_held(o: Sep2Model, n: Sep2Model, update: Sep2ResourceEvent, reported: Seq<Event>)
    requires
        distinct_controls(update),
        update_reported(o, n, update, reported),
    ensures
        holds_update(n, update),
{
    let (b, a, answered): (Seq<(String, ResourceLink)>, Seq<(String, ResourceLink)>, Seq<Event>) = choose|
        before: Seq<(String, ResourceLink)>,
        after: Seq<(String, ResourceLink)>,
        answered: Seq<Event>,
    | #[trigger] reported_through(o, n, update, reported, before, after, answered);
    match update {
        Sep2ResourceEvent::EndDeviceList(l) => {
            if l.href is Some {
                lemma_devices_twice(o.end_devices@, l.end_device@);
            }
        },
        Sep2ResourceEvent::FunctionSetAssignmentsList(l) => {
            if l.href is Some {
                lemma_fsas_twice(o.function_set_assignments@, l.function_set_assignments@);
            }
        },
        Sep2ResourceEvent::DERProgramList(l) => {
            if l.href is Some {
                lemma_programs_twice(o.programs@, l.der_program@);
            }
        },
        Sep2ResourceEvent::DERCurveList(l) => {
            if l.href is Some {
                lemma_curves_twice(o.curves@, l.der_curve@);
            }
        },
        Sep2ResourceEvent::DERControlList(l) => {
            let (now, shifts): (i64, Seq<(i16, i16)>) = choose|now: i64, shifts: Seq<(i16, i16)>|
                #![trigger crate::sep2_model::dercl_applied(o, n, l, now as int, shifts, answered)]
                crate::sep2_model::shifts_fit(o.controls@, l.der_control@, shifts)
                    && crate::sep2_model::dercl_applied(o, n, l, now as int, shifts, answered);
            if l.href is Some {
                lemma_controls_held(o.controls@, l.der_control@, shifts);
            }
        },
        _ => {},
    }
}

/// An update that a model already holds is reported by nothing, and leaves
/// the model agreeing with what it was.
pub proof fn held_update_reports_nothing(n: Sep2Model, n2: Sep2Model, update: Sep2ResourceEvent, reported: Seq<Event>)
    requires
        holds_update(n, update),
        update_reported(n, n2, update, reported),
    ensures
        reported == Seq::<Event>::empty(),
        models_agree(n, n2),
{
    let (b, a, answered): (Seq<(String, ResourceLink)>, Seq<(String, ResourceLink)>, Seq<Event>) = choose|
        before: Seq<(String, ResourceLink)>,
        after: Seq<(String, ResourceLink)>,
        answered: Seq<Event>,
    | #[trigger] reported_through(n, n2, update, reported, before, after, answered);
    lemma_update_held(n, n2, update, answered);
    lemma_links_agree(n, n2);
    same_links_announce_nothing(b, a);
    assert(reported =~= Seq::<Event>::empty());
}

proof fn lemma_pass_again(
    base: Sep2Model,
    ups: Seq<Sep2ResourceEvent>,
    models: Seq<Sep2Model>,
    reports: Seq<Seq<Event>>,
    j: int,
)
    requires
        0 <= j <= ups.len(),
        models.len() == ups.len() + 1,
        reports.len() == ups.len(),
        forall|i: int| 0 <= i < ups.len() ==> update_reported(models[i], models[i + 1], #[trigger] ups[i], reports[i]),
        models_agree(base, models[0]),
        forall|i: int| 0 <= i < ups.len() ==> holds_update(base, #[trigger] ups[i]),
    ensures
        models_agree(base, models[j]),
        forall|i: int| 0 <= i < j ==> #[trigger] reports[i] == Seq::<Event>::empty(),
    decreases j,
{
    if j > 0 {
        let i = j - 1;
        lemma_pass_again(base, ups, models, reports, i);
        assert(update_reported(models[i], models[i + 1], ups[i], reports[i]));
        assert(holds_update(base, ups[i]));
        lemma_held_in_agreeing(base, models[i], ups[i]);
        held_update_reports_nothing(models[i], models[i + 1], ups[i], reports[i]);
        lemma_agree_trans(base, models[i], models[i + 1]);
    }
}

/// A sequence of updates that arrives again, once all of it has been
/// applied, is reported by nothing: each update of the second pass reports
/// no link and calls for no response, and the model ends needing the links
/// it needed after the first pass. Left out are the sequences in which an
/// update is no longer held once the whole sequence has been applied: one
/// that a later update of the sequence overrode (the same list twice with
/// different poll rates, say), or a control list that holds one MRID twice.
pub proof fn repeated_sequence_reports_nothing(
    ups: Seq<Sep2ResourceEvent>,
    first: Seq<Sep2Model>,
    second: Seq<Sep2Model>,
    first_reports: Seq<Seq<Event>>,
    second_reports: Seq<Seq<Event>>,
)
    requires
        first.len() == ups.len() + 1,
        second.len() == ups.len() + 1,
        first_reports.len() == ups.len(),
        second_reports.len() == ups.len(),
        forall|i: int|
            0 <= i < ups.len() ==> update_reported(first[i], first[i + 1], #[trigger] ups[i], first_reports[i]),
        second[0] == first[ups.len() as int],
        forall|i: int|
            0 <= i < ups.len() ==> update_reported(second[i], second[i + 1], #[trigger] ups[i], second_reports[i]),
        forall|i: int| 0 <= i < ups.len() ==> holds_update(first[ups.len() as int], #[trigger] ups[i]),
    ensures
        forall|i: int| 0 <= i < ups.len() ==> #[trigger] second_reports[i] == Seq::<Event>::empty(),
        second[ups.len() as int].links_spec() == first[ups.len() as int].links_spec(),
{
    let base = first[ups.len() as int];
    lemma_pass_again(base, ups, second, second_reports, ups.len() as int);
    lemma_links_agree(base, second[ups.len() as int]);
}

} // verus!

verus! {

proof fn lemma_with_item_keeps(acc: Map<Seq<char>, ResourceLink>, href: Option<String>, kind: ResourceKind, poll_rate: Option<u32>, k: Seq<char>)
    ensures
        acc.contains_key(k) ==> with_item(acc, href, kind, poll_rate).contains_key(k),
        href matches Some(h) ==> with_item(acc, href, kind, poll_rate).contains_key(h@),
{
}

proof fn lemma_curve_items_keep(m: Sep2Model, acc: Map<Seq<char>, ResourceLink>, ids: Seq<u128>, poll_rate: Option<u32>, k: Seq<char>)
    ensures
        acc.contains_key(k) ==> m.curve_items_links(acc, ids, poll_rate).contains_key(k),
    decreases ids.len(),
{
    if ids.len() > 0 {
        lemma_curve_items_keep(m, acc, ids.drop_last(), poll_rate, k);
        let prior = m.curve_items_links(acc, ids.drop_last(), poll_rate);
        if m.curves@.contains_key(ids.last()) {
            lemma_with_item_keeps(prior, m.curves@[ids.last()].href, ResourceKind::DERCurve, poll_rate, k);
        }
    }
}

proof fn lemma_curve_items_hold(m: Sep2Model, acc: Map<Seq<char>, ResourceLink>, ids: Seq<u128>, poll_rate: Option<u32>, i: int, h: Seq<char>)
    requires
        0 <= i < ids.len(),
        m.curves@.contains_key(ids[i]),
        m.curves@[ids[i]].href matches Some(x) && x@ == h,
    ensures
        m.curve_items_links(acc, ids, poll_rate).contains_key(h),
    decreases ids.len(),
{
    let prior = m.curve_items_links(acc, ids.drop_last(), poll_rate);
    if i == ids.len() - 1 {
        lemma_with_item_keeps(prior, m.curves@[ids.last()].href, ResourceKind::DERCurve, poll_rate, h);
    } else {
        assert(ids.drop_last()[i] == ids[i]);
        lemma_curve_items_hold(m, acc, ids.drop_last(), poll_rate, i, h);
        if m.curves@.contains_key(ids.last()) {
            lemma_with_item_keeps(prior, m.curves@[ids.last()].href, ResourceKind::DERCurve, poll_rate, h);
        }
    }
}

proof fn lemma_program_items_hold(m: Sep2Model, acc: Map<Seq<char>, ResourceLink>, ids: Seq<u128>, poll_rate: Option<u32>, i: int, k: Seq<char>)
    requires
        0 <= i < ids.len(),
        m.programs@.contains_key(ids[i]),
        m.program_children(m.programs@[ids[i]], poll_rate).contains_key(k),
    ensures
        m.program_items_links(acc, ids, poll_rate).contains_key(k),
    decreases ids.len(),
{
    let prior = m.program_items_links(acc, ids.drop_last(), poll_rate);
    if i == ids.len() - 1 {
    } else {
        assert(ids.drop_last()[i] == ids[i]);
        lemma_program_items_hold(m, acc, ids.drop_last(), poll_rate, i, k);
        if m.programs@.contains_key(ids.last()) {
            lemma_with_item_keeps(prior, m.programs@[ids.last()].href, ResourceKind::DERProgram, poll_rate, k);
        }
    }
}

/// A program's curve list is polled: where a program links a curve list,
/// the links below the program hold that list, and each curve of it that has
/// arrived and has a href.
pub proof fn program_curve_list_is_linked(m: Sep2Model, p: DERProgram, poll_rate: Option<u32>)
    requires
        p.der_curve_list_link is Some,
    ensures
        m.program_children(p, poll_rate).contains_key(p.der_curve_list_link->0@),
        forall|i: int|
            #![trigger m.curve_lists@[p.der_curve_list_link->0@].items@[i]]
            m.curve_lists@.contains_key(p.der_curve_list_link->0@) && 0 <= i < m.curve_lists@[p.der_curve_list_link->0@].items@.len()
                && m.curves@.contains_key(m.curve_lists@[p.der_curve_list_link->0@].items@[i])
                && m.curves@[m.curve_lists@[p.der_curve_list_link->0@].items@[i]].href is Some
                ==> m.program_children(p, poll_rate).contains_key(
                m.curves@[m.curve_lists@[p.der_curve_list_link->0@].items@[i]].href->0@,
            ),
{
    let h = p.der_curve_list_link->0@;
    let base = link_to(h, ResourceKind::DERCurveList, poll_rate);
    if m.curve_lists@.contains_key(h) {
        lemma_curve_items_keep(m, base, m.curve_lists@[h].items@, poll_rate, h);
        assert forall|i: int|
            #![trigger m.curve_lists@[h].items@[i]]
            0 <= i < m.curve_lists@[h].items@.len() && m.curves@.contains_key(m.curve_lists@[h].items@[i])
                && m.curves@[m.curve_lists@[h].items@[i]].href is Some implies m.curve_list_links(h, poll_rate).contains_key(
            m.curves@[m.curve_lists@[h].items@[i]].href->0@,
        ) by {
            let ids = m.curve_lists@[h].items@;
            lemma_curve_items_hold(m, base, ids, poll_rate, i, m.curves@[ids[i]].href->0@);
        }
    }
    assert(m.curve_list_links(h, poll_rate).contains_key(h));
}

/// Every program of a stored program list has its curve list polled: where
/// a stored program of the list links a curve list, the links that the
/// program list needs hold that curve list.
pub proof fn program_list_curve_lists_are_linked(m: Sep2Model, list_href: Seq<char>, i: int)
    requires
        m.program_lists@.contains_key(list_href),
        0 <= i < m.program_lists@[list_href].items@.len(),
        m.programs@.contains_key(m.program_lists@[list_href].items@[i]),
        m.programs@[m.program_lists@[list_href].items@[i]].der_curve_list_link is Some,
    ensures
        m.program_list_links(list_href).contains_key(
            m.programs@[m.program_lists@[list_href].items@[i]].der_curve_list_link->0@,
        ),
{
    let ids = m.program_lists@[list_href].items@;
    let p = m.programs@[ids[i]];
    let poll_rate = Sep2Model::list_poll_rate(m.program_lists@, list_href);
    program_curve_list_is_linked(m, p, poll_rate);
    lemma_program_items_hold(
        m,
        link_to(list_href, ResourceKind::DERProgramList, poll_rate),
        ids,
        poll_rate,
        i,
        p.der_curve_list_link->0@,
    );
}

} // verus!
