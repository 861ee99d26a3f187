//! The delivery of meter readings to the server, one reading after another,
//! as a state machine. Readings go to our mirror usage point once it is
//! known; the first reading without one is sent through the usage point list:
//! to the point found there for our device, or in a new point created with
//! it. Any failure ends the delivery, to be tried again later.
use vstd::prelude::*;

verus! {

/// Where a delivery stands.
#[derive(Clone, Debug, PartialEq, Eq)]
pub enum Phase {
    /// The reading at `index` is next.
    Deliver,
    /// Our usage point was found at this href; the reading goes there.
    PostFound(String),
    /// No usage point was found for our device; one is created with the
    /// reading.
    Create,
    /// The delivery is over, all sent or not.
    Over(bool),
}

/// A delivery of `count` readings.
#[derive(Debug)]
pub struct Delivery {
    /// The next reading to send.
    pub index: usize,
    pub count: usize,
    /// Our mirror usage point, once known.
    pub usage_point: Option<String>,
    /// The server's mirror usage point list.
    pub list: Option<String>,
    pub phase: Phase,
}

/// What the task must do next.
#[derive(Debug, PartialEq, Eq)]
pub enum Step {
    /// Post the reading at `index` to `href`.
    Post { href: String, index: usize },
    /// Look for our usage point in the list at `list`.
    Lookup { list: String },
    /// Create our usage point in the list at `list`, with the reading at
    /// `index`.
    Create { list: String, index: usize },
    /// The delivery is over: whether every reading went out.
    Done(bool),
}

/// What came of a step.
#[derive(Debug)]
pub enum Report {
    /// Whether the post worked.
    Posted(bool),
    /// Our usage point in the list, with its href if it has one, or `None`
    /// where the list holds none for our device.
    Found(Option<Option<String>>),
    /// The href of the created usage point, or `None` where creating it
    /// failed.
    Created(Option<String>),
}

/// The next step of a delivery.
pub open spec fn next_step(d: Delivery) -> Step {
    match d.phase {
        Phase::Over(ok) => Step::Done(ok),
        Phase::PostFound(href) => Step::Post { href, index: d.index },
        Phase::Create => Step::Create { list: d.list.unwrap(), index: d.index },
        Phase::Deliver => if d.index >= d.count {
            Step::Done(true)
        } else {
            match d.usage_point {
                Some(href) => Step::Post { href, index: d.index },
                None => match d.list {
                    Some(list) => Step::Lookup { list },
                    None => Step::Done(false),
                },
            }
        },
    }
}

/// The delivery after the report of its step.
pub open spec fn after(d: Delivery, report: Report) -> Delivery {
    match next_step(d) {
        Step::Post { href, index } => match report {
            Report::Posted(true) => Delivery { index: (index + 1) as usize, usage_point: Some(href), phase: Phase::Deliver, ..d },
            Report::Posted(false) => Delivery { phase: Phase::Over(false), ..d },
            _ => d,
        },
        Step::Lookup { .. } => match report {
            Report::Found(Some(Some(href))) => Delivery { phase: Phase::PostFound(href), ..d },
            Report::Found(Some(None)) => Delivery { phase: Phase::Over(false), ..d },
            Report::Found(None) => Delivery { phase: Phase::Create, ..d },
            _ => d,
        },
        Step::Create { index, .. } => match report {
            Report::Created(Some(href)) => Delivery { index: (index + 1) as usize, usage_point: Some(href), phase: Phase::Deliver, ..d },
            Report::Created(None) => Delivery { phase: Phase::Over(false), ..d },
            _ => d,
        },
        Step::Done(_) => d,
    }
}

/// A delivery is well formed: it has not gone past its readings, and it
/// creates a usage point only through a list.
pub open spec fn delivery_wf(d: Delivery) -> bool {
    &&& d.index <= d.count
    &&& (d.phase is PostFound || d.phase is Create) ==> d.index < d.count
    &&& d.phase is Create ==> d.list is Some
}

impl Delivery {
    /// A delivery of `count` readings, with the usage point known from
    /// earlier deliveries and the server's list.
    pub fn new(count: usize, usage_point: Option<String>, list: Option<String>) -> (r: Delivery)
        ensures
            r == (Delivery { index: 0, count, usage_point, list, phase: Phase::Deliver }),
            delivery_wf(r),
    {
        Delivery { index: 0, count, usage_point, list, phase: Phase::Deliver }
    }

    /// The next step.
    pub fn step(&self) -> (r: Step)
        requires
            delivery_wf(*self),
        ensures
            r == next_step(*self),
    {
        match &self.phase {
            Phase::Over(ok) => Step::Done(*ok),
            Phase::PostFound(href) => Step::Post { href: href.clone(), index: self.index },
            Phase::Create => {
                let list = match &self.list {
                    Some(l) => l.clone(),
                    None => String::new(),
                };
                Step::Create { list, index: self.index }
            },
            Phase::Deliver => {
                if self.index >= self.count {
                    return Step::Done(true);
                }
                match &self.usage_point {
                    Some(href) => Step::Post { href: href.clone(), index: self.index },
                    None => match &self.list {
                        Some(list) => Step::Lookup { list: list.clone() },
                        None => Step::Done(false),
                    },
                }
            },
        }
    }

    /// Takes in the report of the last step.
    pub fn report(&mut self, report: Report)
        requires
            delivery_wf(*old(self)),
        ensures
            *final(self) == after(*old(self), report),
            delivery_wf(*final(self)),
    {
        let step = self.step();
        match step {
            Step::Post { href, index } => match report {
                Report::Posted(true) => {
                    self.index = index + 1;
                    self.usage_point = Some(href);
                    self.phase = Phase::Deliver;
                },
                Report::Posted(false) => {
                    self.phase = Phase::Over(false);
                },
                _ => {},
            },
            Step::Lookup { .. } => match report {
                Report::Found(Some(Some(href))) => {
                    self.phase = Phase::PostFound(href);
                },
                Report::Found(Some(None)) => {
                    self.phase = Phase::Over(false);
                },
                Report::Found(None) => {
                    self.phase = Phase::Create;
                },
                _ => {},
            },
            Step::Create { index, .. } => match report {
                Report::Created(Some(href)) => {
                    self.index = index + 1;
                    self.usage_point = Some(href);
                    self.phase = Phase::Deliver;
                },
                Report::Created(None) => {
                    self.phase = Phase::Over(false);
                },
                _ => {},
            },
            Step::Done(_) => {},
        }
    }
}

/// A delivery reports success only once every reading went out.
pub proof fn done_only_when_all_sent(d: Delivery)
    requires
        delivery_wf(d),
        next_step(d) == Step::Done(true),
        !(d.phase is Over),
    ensures
        d.index == d.count,
{
}

/// Once our usage point is known, the next reading goes to it.
pub proof fn known_usage_point_takes_the_reading(d: Delivery, href: String)
    requires
        d.phase == Phase::Deliver,
        d.index < d.count,
        d.usage_point == Some(href),
    ensures
        next_step(d) == (Step::Post { href, index: d.index }),
{
}

} // verus!
