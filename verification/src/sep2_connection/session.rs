//! The conversation with the SEP2 server as a state machine. Each command
//! that reaches the connection task may start a pass: the task finds the
//! device capability resource, makes sure that the server knows our device,
//! starts the root polls, sends the queued control responses and then the
//! settings, status, capabilities and meter readings that are due. A pass
//! stops at the first step that fails and leaves a retry requested; a pass
//! that goes through to the end withdraws the request.
//!
//! The task performs each `Action` and hands back its `Outcome`; every
//! decision between them stands here.
use std::collections::VecDeque;

use vstd::prelude::*;

use crate::{Error, ResourceKind};
use crate::sep2_connection::{Command, ControlResponse, MAX_RESPONSE_QUEUE_SIZE, is_failure_retriable, queue_response, queued, retriable};
use crate::sep2_types::{DERCapability, DERSettings, DERStatus, MirrorMeterReading};

verus! {

/// How often settings, status and meter readings may be sent, in milliseconds.
pub const POST_RATE_GENERIC_MS: u64 = 60_000;

/// How often capabilities may be sent, in milliseconds: once a day.
pub const POST_RATE_CAPABILITIES_MS: u64 = 86_400_000;

/// The links of the device capability resource that the task follows.
#[derive(Debug)]
pub struct DcapLinks {
    pub end_device_list: Option<String>,
    pub time: Option<String>,
    pub mirror_usage_point_list: Option<String>,
}

/// The links of our device, as the server knows it.
#[derive(Debug)]
pub struct DeviceLinks {
    pub registration: Option<String>,
    pub der_list: Option<String>,
}

/// The links of the DER resource of our device.
#[derive(Debug)]
pub struct DerLinks {
    pub settings: Option<String>,
    pub status: Option<String>,
    pub capability: Option<String>,
}

/// The step of a pass that the task is at.
#[derive(Clone, Copy, Debug, PartialEq, Eq, Structural)]
pub enum Stage {
    /// No pass is under way.
    Idle,
    Dcap,
    Device,
    Registration,
    RootPolling,
    Responses,
    Der,
    Settings,
    Status,
    Capabilities,
    Readings,
}

/// What the connection task holds between commands.
pub struct Session {
    pub dcap: Option<DcapLinks>,
    pub device: Option<DeviceLinks>,
    /// The server's registration of our device holds the expected PIN.
    pub registration_checked: bool,
    pub root_polling_done: bool,
    pub der: Option<DerLinks>,
    /// Responses to send, oldest first.
    pub responses: VecDeque<ControlResponse>,
    pub latest_settings: Option<DERSettings>,
    pub settings_sent_at: Option<u64>,
    pub latest_status: Option<DERStatus>,
    pub status_sent_at: Option<u64>,
    pub capabilities: Option<DERCapability>,
    pub capabilities_sent_at: Option<u64>,
    pub latest_readings: Option<Vec<MirrorMeterReading>>,
    pub readings_sent_at: Option<u64>,
    /// The last pass stopped short, so a retry is wanted.
    pub retry_requested: bool,
    /// A retry task is running.
    pub retry_running: bool,
    /// The hrefs that are polled already.
    pub polled: Vec<String>,
    pub stage: Stage,
    pub default_poll_rate: u32,
    /// The PIN that the server must hold for our device, if any.
    pub expected_pin: Option<u32>,
}

/// A session as a mathematical value.
pub struct SessionView {
    pub dcap: Option<DcapLinks>,
    pub device: Option<DeviceLinks>,
    pub registration_checked: bool,
    pub root_polling_done: bool,
    pub der: Option<DerLinks>,
    pub responses: Seq<ControlResponse>,
    pub latest_settings: Option<DERSettings>,
    pub settings_sent_at: Option<u64>,
    pub latest_status: Option<DERStatus>,
    pub status_sent_at: Option<u64>,
    pub capabilities: Option<DERCapability>,
    pub capabilities_sent_at: Option<u64>,
    pub latest_readings: Option<Seq<MirrorMeterReading>>,
    pub readings_sent_at: Option<u64>,
    pub retry_requested: bool,
    pub retry_running: bool,
    pub polled: Seq<String>,
    pub stage: Stage,
    pub default_poll_rate: u32,
    pub expected_pin: Option<u32>,
}

impl View for Session {
    type V = SessionView;

    open spec fn view(&self) -> SessionView {
        SessionView {
            dcap: self.dcap,
            device: self.device,
            registration_checked: self.registration_checked,
            root_polling_done: self.root_polling_done,
            der: self.der,
            responses: self.responses@,
            latest_settings: self.latest_settings,
            settings_sent_at: self.settings_sent_at,
            latest_status: self.latest_status,
            status_sent_at: self.status_sent_at,
            capabilities: self.capabilities,
            capabilities_sent_at: self.capabilities_sent_at,
            latest_readings: match self.latest_readings {
                Some(v) => Some(v@),
                None => None,
            },
            readings_sent_at: self.readings_sent_at,
            retry_requested: self.retry_requested,
            retry_running: self.retry_running,
            polled: self.polled@,
            stage: self.stage,
            default_poll_rate: self.default_poll_rate,
            expected_pin: self.expected_pin,
        }
    }
}

/// The order of the steps of a pass, counted down to its end.
pub open spec fn rank(stage: Stage) -> nat {
    match stage {
        Stage::Idle => 0,
        Stage::Readings => 1,
        Stage::Capabilities => 2,
        Stage::Status => 3,
        Stage::Settings => 4,
        Stage::Der => 5,
        Stage::Responses => 6,
        Stage::RootPolling => 7,
        Stage::Registration => 8,
        Stage::Device => 9,
        Stage::Dcap => 10,
    }
}

impl SessionView {
    /// What a pass has found stays found while it goes on, and the queue of
    /// responses stays below its limit.
    pub open spec fn wf(self) -> bool {
        &&& 1 <= rank(self.stage) <= 9 ==> (self.dcap matches Some(d) && d.end_device_list is Some
            && d.time is Some)
        &&& 1 <= rank(self.stage) <= 8 ==> self.device is Some
        &&& 1 <= rank(self.stage) <= 4 ==> self.der is Some
        &&& self.responses.len() < MAX_RESPONSE_QUEUE_SIZE
    }
}

/// `href` is among the polled hrefs.
pub open spec fn polled_has(polled: Seq<String>, href: Seq<char>) -> bool {
    exists|i: int| 0 <= i < polled.len() && (#[trigger] polled[i])@ == href
}

/// What the reception of a command asks of the task.
#[derive(Debug)]
pub enum Reception {
    /// Start polling `href` every `poll_rate` seconds.
    StartPoll { href: String, kind: ResourceKind, poll_rate: u32 },
    /// Nothing to do.
    Ignored,
    /// A retry is waiting; nothing is sent until it wakes the task.
    Held,
    /// Start a pass.
    Pass,
}

/// The session after a command hands it something to send.
pub open spec fn absorbed(s: SessionView, command: Command) -> SessionView {
    match command {
        Command::SendDeviceSettings(x) => SessionView { latest_settings: Some(x), ..s },
        Command::SendDeviceCapability(x) => if s.capabilities == Some(x) {
            s
        } else {
            SessionView { capabilities: Some(x), capabilities_sent_at: None, ..s }
        },
        Command::SendDeviceStatus(x) => SessionView { latest_status: Some(x), ..s },
        Command::SendMeterReadings(v) => SessionView { latest_readings: Some(v@), ..s },
        Command::SendControlResponse(r) => SessionView { responses: queued(s.responses, r), ..s },
        _ => s,
    }
}

/// The session and the reception after a command: a subscription starts a
/// poll unless its href is polled already; anything to send is kept, and a
/// pass starts unless a retry is waiting and the command is not its wake-up.
pub open spec fn received(s: SessionView, command: Command) -> (SessionView, Reception) {
    match command {
        Command::SubscribeToResource { href, kind, poll_rate } => if polled_has(s.polled, href@) {
            (s, Reception::Ignored)
        } else {
            (
                SessionView { polled: s.polled.push(href), ..s },
                Reception::StartPoll {
                    href,
                    kind,
                    poll_rate: match poll_rate {
                        Some(p) => p,
                        None => s.default_poll_rate,
                    },
                },
            )
        },
        Command::UnsubscribeFromResource { .. } => (s, Reception::Ignored),
        _ => {
            let t = absorbed(s, command);
            if t.retry_running && !(command is Wake) {
                (t, Reception::Held)
            } else {
                (SessionView { retry_requested: true, stage: Stage::Dcap, ..t }, Reception::Pass)
            }
        },
    }
}

/// What to do about the retry task before the next command.
#[derive(Debug, PartialEq, Eq, Structural)]
pub enum RetryPlan {
    /// Start the retry task.
    Spawn,
    /// Stop the retry task.
    Abort,
    /// Leave it as it is.
    Keep,
}

/// The next thing the task must do in a pass.
#[derive(Debug)]
pub enum Action {
    /// Fetch the device capability resource.
    FetchDcap,
    /// Find our device in the end device list, or register it.
    EnsureDevice { end_device_list: String },
    /// Fetch the registration of our device.
    FetchRegistration { href: String },
    /// Poll the end device list and the time resource.
    StartRootPolling { end_device_list: String, time: String },
    /// Send the oldest queued response.
    SendResponse(ControlResponse),
    /// Fetch the DER list of our device.
    FetchDer { der_list: String },
    PutSettings { href: String, settings: DERSettings },
    PutStatus { href: String, status: DERStatus },
    PutCapabilities { href: String, capabilities: DERCapability },
    /// Send the latest meter readings, through the mirror usage point list if
    /// the server gave one.
    SendReadings { mirror_usage_point_list: Option<String> },
    /// The pass is over.
    Finished,
}

/// What came of an action.
#[derive(Debug)]
pub enum Outcome {
    /// The device capability resource, or `None` where fetching it failed.
    Dcap(Option<DcapLinks>),
    /// Our device as the server knows it, `None` where the attempt should be
    /// retried, or an error that ends the task.
    Device(Result<Option<DeviceLinks>, Error>),
    /// The PIN of our device's registration, or `None` where fetching it
    /// failed.
    Registration(Option<u32>),
    RootPollingStarted,
    ResponseSent,
    /// Sending the oldest response failed, with this message.
    ResponseFailed(String),
    ResponseTimedOut,
    /// The DERs of the DER list, or `None` where fetching it failed.
    Der(Option<Vec<DerLinks>>),
    /// Whether the settings, status or capabilities were put.
    Put(bool),
    /// Whether the meter readings were sent.
    Readings(bool),
}

/// A time `period` milliseconds or more after `sent_at`, or nothing sent yet.
pub open spec fn due(sent_at: Option<u64>, now: u64, period: u64) -> bool {
    match sent_at {
        None => true,
        Some(t) => now >= t && now - t > period,
    }
}

pub open spec fn at(s: SessionView, stage: Stage) -> SessionView {
    SessionView { stage, ..s }
}

/// The pass stops short; the retry stays requested.
pub open spec fn stopped(s: SessionView) -> SessionView {
    at(s, Stage::Idle)
}

/// The pass went through to the end.
pub open spec fn completed(s: SessionView) -> SessionView {
    SessionView { retry_requested: false, stage: Stage::Idle, ..s }
}

/// The next action of a pass, with the session as the task then holds it:
/// each step whose work is done already, or has nothing to send, is passed
/// over.
pub open spec fn plan(s: SessionView, now: u64) -> (SessionView, Action)
    decreases rank(s.stage),
{
    match s.stage {
        Stage::Idle => (s, Action::Finished),
        Stage::Dcap => match s.dcap {
            None => (s, Action::FetchDcap),
            Some(d) => if d.end_device_list is Some && d.time is Some {
                plan(at(s, Stage::Device), now)
            } else {
                (SessionView { dcap: None, ..stopped(s) }, Action::Finished)
            },
        },
        Stage::Device => match s.device {
            None => (s, Action::EnsureDevice { end_device_list: s.dcap.unwrap().end_device_list.unwrap() }),
            Some(_) => plan(at(s, Stage::Registration), now),
        },
        Stage::Registration => if !s.registration_checked && s.expected_pin is Some
            && s.device.unwrap().registration is Some {
            (s, Action::FetchRegistration { href: s.device.unwrap().registration.unwrap() })
        } else {
            plan(at(s, Stage::RootPolling), now)
        },
        Stage::RootPolling => if !s.root_polling_done {
            (
                s,
                Action::StartRootPolling {
                    end_device_list: s.dcap.unwrap().end_device_list.unwrap(),
                    time: s.dcap.unwrap().time.unwrap(),
                },
            )
        } else {
            plan(at(s, Stage::Responses), now)
        },
        Stage::Responses => if s.responses.len() > 0 {
            (s, Action::SendResponse(s.responses[0]))
        } else {
            plan(at(s, Stage::Der), now)
        },
        Stage::Der => match s.der {
            Some(_) => plan(at(s, Stage::Settings), now),
            None => match s.device.unwrap().der_list {
                Some(h) => (s, Action::FetchDer { der_list: h }),
                None => (stopped(s), Action::Finished),
            },
        },
        Stage::Settings => if due(s.settings_sent_at, now, POST_RATE_GENERIC_MS) && s.latest_settings is Some
            && s.der.unwrap().settings is Some {
            (s, Action::PutSettings { href: s.der.unwrap().settings.unwrap(), settings: s.latest_settings.unwrap() })
        } else {
            plan(at(s, Stage::Status), now)
        },
        Stage::Status => if due(s.status_sent_at, now, POST_RATE_GENERIC_MS) && s.latest_status is Some
            && s.der.unwrap().status is Some {
            (s, Action::PutStatus { href: s.der.unwrap().status.unwrap(), status: s.latest_status.unwrap() })
        } else {
            plan(at(s, Stage::Capabilities), now)
        },
        Stage::Capabilities => if due(s.capabilities_sent_at, now, POST_RATE_CAPABILITIES_MS)
            && s.capabilities is Some && s.der.unwrap().capability is Some {
            (
                s,
                Action::PutCapabilities {
                    href: s.der.unwrap().capability.unwrap(),
                    capabilities: s.capabilities.unwrap(),
                },
            )
        } else {
            plan(at(s, Stage::Readings), now)
        },
        Stage::Readings => if s.latest_readings is Some && due(s.readings_sent_at, now, POST_RATE_GENERIC_MS) {
            (s, Action::SendReadings { mirror_usage_point_list: s.dcap.unwrap().mirror_usage_point_list })
        } else {
            (completed(s), Action::Finished)
        },
    }
}

/// The session after the outcome of the action of its stage; an outcome
/// that answers another action changes nothing.
pub open spec fn recorded(s: SessionView, outcome: Outcome, now: u64) -> SessionView {
    match outcome {
        Outcome::Dcap(d) => if s.stage == Stage::Dcap {
            match d {
                Some(links) => SessionView { dcap: Some(links), ..s },
                None => stopped(s),
            }
        } else {
            s
        },
        Outcome::Device(d) => if s.stage == Stage::Device {
            match d {
                Ok(Some(links)) => SessionView { device: Some(links), stage: Stage::Registration, ..s },
                _ => stopped(s),
            }
        } else {
            s
        },
        Outcome::Registration(p) => if s.stage == Stage::Registration {
            match p {
                Some(pin) => if Some(pin) == s.expected_pin {
                    SessionView { registration_checked: true, stage: Stage::RootPolling, ..s }
                } else {
                    stopped(s)
                },
                None => stopped(s),
            }
        } else {
            s
        },
        Outcome::RootPollingStarted => if s.stage == Stage::RootPolling {
            SessionView {
                root_polling_done: true,
                polled: s.polled.push(s.dcap.unwrap().end_device_list.unwrap()).push(
                    s.dcap.unwrap().time.unwrap(),
                ),
                stage: Stage::Responses,
                ..s
            }
        } else {
            s
        },
        Outcome::ResponseSent => if s.stage == Stage::Responses && s.responses.len() > 0 {
            SessionView { responses: s.responses.drop_first(), ..s }
        } else {
            s
        },
        Outcome::ResponseFailed(message) => if s.stage == Stage::Responses && s.responses.len() > 0 {
            if retriable(message@) {
                stopped(s)
            } else {
                SessionView { responses: s.responses.drop_first(), ..s }
            }
        } else {
            s
        },
        Outcome::ResponseTimedOut => if s.stage == Stage::Responses {
            stopped(s)
        } else {
            s
        },
        Outcome::Der(d) => if s.stage == Stage::Der {
            match d {
                Some(v) => if v@.len() == 1 {
                    SessionView { der: Some(v@[0]), stage: Stage::Settings, ..s }
                } else {
                    stopped(s)
                },
                None => stopped(s),
            }
        } else {
            s
        },
        Outcome::Put(ok) => if s.stage == Stage::Settings {
            if ok {
                SessionView {
                    latest_settings: None,
                    settings_sent_at: Some(now),
                    stage: Stage::Status,
                    ..s
                }
            } else {
                stopped(s)
            }
        } else if s.stage == Stage::Status {
            if ok {
                SessionView { latest_status: None, status_sent_at: Some(now), stage: Stage::Capabilities, ..s }
            } else {
                stopped(s)
            }
        } else if s.stage == Stage::Capabilities {
            if ok {
                SessionView { capabilities_sent_at: Some(now), stage: Stage::Readings, ..s }
            } else {
                stopped(s)
            }
        } else {
            s
        },
        Outcome::Readings(ok) => if s.stage == Stage::Readings {
            if ok {
                SessionView { latest_readings: None, readings_sent_at: Some(now), ..completed(s) }
            } else {
                stopped(s)
            }
        } else {
            s
        },
    }
}

impl Session {
    /// A session that knows nothing of the server yet.
    pub fn new(default_poll_rate: u32, expected_pin: Option<u32>) -> (r: Session)
        ensures
            r@ == (SessionView {
                dcap: None,
                device: None,
                registration_checked: false,
                root_polling_done: false,
                der: None,
                responses: Seq::empty(),
                latest_settings: None,
                settings_sent_at: None,
                latest_status: None,
                status_sent_at: None,
                capabilities: None,
                capabilities_sent_at: None,
                latest_readings: None,
                readings_sent_at: None,
                retry_requested: false,
                retry_running: false,
                polled: Seq::empty(),
                stage: Stage::Idle,
                default_poll_rate,
                expected_pin,
            }),
            r@.wf(),
    {
        Session {
            dcap: None,
            device: None,
            registration_checked: false,
            root_polling_done: false,
            der: None,
            responses: VecDeque::new(),
            latest_settings: None,
            settings_sent_at: None,
            latest_status: None,
            status_sent_at: None,
            capabilities: None,
            capabilities_sent_at: None,
            latest_readings: None,
            readings_sent_at: None,
            retry_requested: false,
            retry_running: false,
            polled: Vec::new(),
            stage: Stage::Idle,
            default_poll_rate,
            expected_pin,
        }
    }
}


/// A copy of the string in `o`, which holds one.
fn copy_some(o: &Option<String>) -> (r: String)
    requires
        o is Some,
    ensures
        r == o.unwrap(),
{
    match o {
        Some(x) => x.clone(),
        None => String::new(),
    }
}

/// Whether sending is due: nothing sent yet, or more than `period`
/// milliseconds since `sent_at`.
fn is_due(sent_at: Option<u64>, now: u64, period: u64) -> (r: bool)
    ensures
        r == due(sent_at, now, period),
{
    match sent_at {
        None => true,
        Some(t) => now >= t && now - t > period,
    }
}

impl Session {
    /// Whether `href` is polled already.
    fn is_polled(&self, href: &String) -> (r: bool)
        ensures
            r == polled_has(self@.polled, href@),
    {
        let mut i: usize = 0;
        while i < self.polled.len()
            invariant
                i <= self.polled@.len(),
                forall|j: int| 0 <= j < i ==> (#[trigger] self.polled@[j])@ != href@,
            decreases self.polled@.len() - i,
        {
            if self.polled[i].eq(href) {
                return true;
            }
            i = i + 1;
        }
        false
    }

    /// Takes in a command: keeps what it brings to send, and says whether a
    /// pass is to start.
    pub fn receive(&mut self, command: Command) -> (r: Reception)
        requires
            old(self)@.wf(),
        ensures
            (final(self)@, r) == received(old(self)@, command),
            final(self)@.wf(),
    {
        let is_wake = match &command {
            Command::Wake => true,
            _ => false,
        };
        match command {
            Command::SubscribeToResource { href, kind, poll_rate } => {
                if self.is_polled(&href) {
                    return Reception::Ignored;
                }
                let rate = match poll_rate {
                    Some(p) => p,
                    None => self.default_poll_rate,
                };
                self.polled.push(href.clone());
                return Reception::StartPoll { href, kind, poll_rate: rate };
            },
            Command::UnsubscribeFromResource { .. } => {
                return Reception::Ignored;
            },
            Command::SendDeviceSettings(x) => {
                self.latest_settings = Some(x);
            },
            Command::SendDeviceCapability(x) => {
                let same = match self.capabilities {
                    Some(c) => c == x,
                    None => false,
                };
                if !same {
                    self.capabilities = Some(x);
                    self.capabilities_sent_at = None;
                }
            },
            Command::SendDeviceStatus(x) => {
                self.latest_status = Some(x);
            },
            Command::SendMeterReadings(v) => {
                self.latest_readings = Some(v);
            },
            Command::SendControlResponse(response) => {
                queue_response(&mut self.responses, response);
            },
            Command::Wake => {},
        }
        if self.retry_running && !is_wake {
            return Reception::Held;
        }
        self.retry_requested = true;
        self.stage = Stage::Dcap;
        Reception::Pass
    }

    /// Starts the retry task where a retry is requested and none runs, and
    /// stops it where none is requested and one runs.
    pub fn retry_plan(&mut self) -> (r: RetryPlan)
        ensures
            old(self).retry_requested && !old(self).retry_running ==> r == RetryPlan::Spawn && final(self)@ == (
            SessionView { retry_running: true, ..old(self)@ }),
            !old(self).retry_requested && old(self).retry_running ==> r == RetryPlan::Abort && final(self)@ == (
            SessionView { retry_running: false, ..old(self)@ }),
            old(self).retry_requested == old(self).retry_running ==> r == RetryPlan::Keep && final(self)@
                == old(self)@,
    {
        if self.retry_requested && !self.retry_running {
            self.retry_running = true;
            RetryPlan::Spawn
        } else if !self.retry_requested && self.retry_running {
            self.retry_running = false;
            RetryPlan::Abort
        } else {
            RetryPlan::Keep
        }
    }

    /// The next action of the pass under way.
    pub fn next_action(&mut self, now: u64) -> (r: Action)
        requires
            old(self)@.wf(),
        ensures
            (final(self)@, r) == plan(old(self)@, now),
            final(self)@.wf(),
    {
        let ghost goal = plan(self@, now);
        loop
            invariant
                self@.wf(),
                plan(self@, now) == goal,
                goal == plan(old(self)@, now),
            decreases rank(self.stage),
        {
            match self.stage {
                Stage::Idle => {
                    return Action::Finished;
                },
                Stage::Dcap => {
                    let (present, ok) = match &self.dcap {
                        None => (false, false),
                        Some(d) => (true, d.end_device_list.is_some() && d.time.is_some()),
                    };
                    if !present {
                        return Action::FetchDcap;
                    }
                    if !ok {
                        self.dcap = None;
                        self.stage = Stage::Idle;
                        return Action::Finished;
                    }
                    self.stage = Stage::Device;
                },
                Stage::Device => {
                    if self.device.is_none() {
                        let h = match &self.dcap {
                            Some(d) => copy_some(&d.end_device_list),
                            None => String::new(),
                        };
                        return Action::EnsureDevice { end_device_list: h };
                    }
                    self.stage = Stage::Registration;
                },
                Stage::Registration => {
                    let link = match &self.device {
                        Some(d) => match &d.registration {
                            Some(h) => Some(h.clone()),
                            None => None,
                        },
                        None => None,
                    };
                    if !self.registration_checked && self.expected_pin.is_some() {
                        match link {
                            Some(h) => {
                                return Action::FetchRegistration { href: h };
                            },
                            None => {},
                        }
                    }
                    self.stage = Stage::RootPolling;
                },
                Stage::RootPolling => {
                    if !self.root_polling_done {
                        let (e, t) = match &self.dcap {
                            Some(d) => (copy_some(&d.end_device_list), copy_some(&d.time)),
                            None => (String::new(), String::new()),
                        };
                        return Action::StartRootPolling { end_device_list: e, time: t };
                    }
                    self.stage = Stage::Responses;
                },
                Stage::Responses => {
                    if self.responses.len() > 0 {
                        let front = &self.responses[0];
                        let copy = ControlResponse {
                            subject: front.subject,
                            status: front.status,
                            reply_to: front.reply_to.clone(),
                            time: front.time,
                        };
                        return Action::SendResponse(copy);
                    }
                    self.stage = Stage::Der;
                },
                Stage::Der => {
                    if self.der.is_none() {
                        let link = match &self.device {
                            Some(d) => match &d.der_list {
                                Some(h) => Some(h.clone()),
                                None => None,
                            },
                            None => None,
                        };
                        match link {
                            Some(h) => {
                                return Action::FetchDer { der_list: h };
                            },
                            None => {
                                self.stage = Stage::Idle;
                                return Action::Finished;
                            },
                        }
                    }
                    self.stage = Stage::Settings;
                },
                Stage::Settings => {
                    let link = match &self.der {
                        Some(d) => match &d.settings {
                            Some(h) => Some(h.clone()),
                            None => None,
                        },
                        None => None,
                    };
                    if is_due(self.settings_sent_at, now, POST_RATE_GENERIC_MS) {
                        match (self.latest_settings, link) {
                            (Some(settings), Some(href)) => {
                                return Action::PutSettings { href, settings };
                            },
                            _ => {},
                        }
                    }
                    self.stage = Stage::Status;
                },
                Stage::Status => {
                    let link = match &self.der {
                        Some(d) => match &d.status {
                            Some(h) => Some(h.clone()),
                            None => None,
                        },
                        None => None,
                    };
                    if is_due(self.status_sent_at, now, POST_RATE_GENERIC_MS) {
                        match (self.latest_status, link) {
                            (Some(status), Some(href)) => {
                                return Action::PutStatus { href, status };
                            },
                            _ => {},
                        }
                    }
                    self.stage = Stage::Capabilities;
                },
                Stage::Capabilities => {
                    let link = match &self.der {
                        Some(d) => match &d.capability {
                            Some(h) => Some(h.clone()),
                            None => None,
                        },
                        None => None,
                    };
                    if is_due(self.capabilities_sent_at, now, POST_RATE_CAPABILITIES_MS) {
                        match (self.capabilities, link) {
                            (Some(capabilities), Some(href)) => {
                                return Action::PutCapabilities { href, capabilities };
                            },
                            _ => {},
                        }
                    }
                    self.stage = Stage::Readings;
                },
                Stage::Readings => {
                    if self.latest_readings.is_some() && is_due(self.readings_sent_at, now, POST_RATE_GENERIC_MS) {
                        let mup = match &self.dcap {
                            Some(d) => match &d.mirror_usage_point_list {
                                Some(h) => Some(h.clone()),
                                None => None,
                            },
                            None => None,
                        };
                        return Action::SendReadings { mirror_usage_point_list: mup };
                    }
                    self.retry_requested = false;
                    self.stage = Stage::Idle;
                    return Action::Finished;
                },
            }
        }
    }

    /// Takes in what came of the last action.
    pub fn record(&mut self, outcome: Outcome, now: u64) -> (r: Result<(), Error>)
        requires
            old(self)@.wf(),
        ensures
            final(self)@ == recorded(old(self)@, outcome, now),
            final(self)@.wf(),
            outcome matches Outcome::Device(Err(e)) ==> (old(self).stage == Stage::Device ==> r == Err::<
                (),
                Error,
            >(e)),
            !(outcome matches Outcome::Device(Err(_)) && old(self).stage == Stage::Device) ==> r is Ok,
    {
        match outcome {
            Outcome::Dcap(d) => {
                if self.stage == Stage::Dcap {
                    match d {
                        Some(links) => {
                            self.dcap = Some(links);
                        },
                        None => {
                            self.stage = Stage::Idle;
                        },
                    }
                }
                Ok(())
            },
            Outcome::Device(d) => {
                if self.stage == Stage::Device {
                    match d {
                        Ok(Some(links)) => {
                            self.device = Some(links);
                            self.stage = Stage::Registration;
                            Ok(())
                        },
                        Ok(None) => {
                            self.stage = Stage::Idle;
                            Ok(())
                        },
                        Err(e) => {
                            self.stage = Stage::Idle;
                            Err(e)
                        },
                    }
                } else {
                    Ok(())
                }
            },
            Outcome::Registration(p) => {
                if self.stage == Stage::Registration {
                    match p {
                        Some(pin) => {
                            let matches = match self.expected_pin {
                                Some(e) => e == pin,
                                None => false,
                            };
                            if matches {
                                self.registration_checked = true;
                                self.stage = Stage::RootPolling;
                            } else {
                                self.stage = Stage::Idle;
                            }
                        },
                        None => {
                            self.stage = Stage::Idle;
                        },
                    }
                }
                Ok(())
            },
            Outcome::RootPollingStarted => {
                if self.stage == Stage::RootPolling {
                    let (e, t) = match &self.dcap {
                        Some(d) => (copy_some(&d.end_device_list), copy_some(&d.time)),
                        None => (String::new(), String::new()),
                    };
                    self.polled.push(e);
                    self.polled.push(t);
                    self.root_polling_done = true;
                    self.stage = Stage::Responses;
                }
                Ok(())
            },
            Outcome::ResponseSent => {
                if self.stage == Stage::Responses && self.responses.len() > 0 {
                    let _ = self.responses.pop_front();
                }
                Ok(())
            },
            Outcome::ResponseFailed(message) => {
                if self.stage == Stage::Responses && self.responses.len() > 0 {
                    if is_failure_retriable(message.as_str()) {
                        self.stage = Stage::Idle;
                    } else {
                        let _ = self.responses.pop_front();
                    }
                }
                Ok(())
            },
            Outcome::ResponseTimedOut => {
                if self.stage == Stage::Responses {
                    self.stage = Stage::Idle;
                }
                Ok(())
            },
            Outcome::Der(d) => {
                if self.stage == Stage::Der {
                    match d {
                        Some(mut v) => {
                            if v.len() == 1 {
                                let links = v.remove(0);
                                self.der = Some(links);
                                self.stage = Stage::Settings;
                            } else {
                                self.stage = Stage::Idle;
                            }
                        },
                        None => {
                            self.stage = Stage::Idle;
                        },
                    }
                }
                Ok(())
            },
            Outcome::Put(ok) => {
                if self.stage == Stage::Settings {
                    if ok {
                        self.latest_settings = None;
                        self.settings_sent_at = Some(now);
                        self.stage = Stage::Status;
                    } else {
                        self.stage = Stage::Idle;
                    }
                } else if self.stage == Stage::Status {
                    if ok {
                        self.latest_status = None;
                        self.status_sent_at = Some(now);
                        self.stage = Stage::Capabilities;
                    } else {
                        self.stage = Stage::Idle;
                    }
                } else if self.stage == Stage::Capabilities {
                    if ok {
                        self.capabilities_sent_at = Some(now);
                        self.stage = Stage::Readings;
                    } else {
                        self.stage = Stage::Idle;
                    }
                }
                Ok(())
            },
            Outcome::Readings(ok) => {
                if self.stage == Stage::Readings {
                    if ok {
                        self.latest_readings = None;
                        self.readings_sent_at = Some(now);
                        self.retry_requested = false;
                    }
                    self.stage = Stage::Idle;
                }
                Ok(())
            },
        }
    }
}


/// A URI is polled once: after a subscription to `href` starts its poll, a
/// second subscription to the same href is ignored.
pub proof fn subscribing_twice_polls_once(
    s: SessionView,
    href: String,
    kind: ResourceKind,
    poll_rate: Option<u32>,
    again: String,
    kind_again: ResourceKind,
    poll_rate_again: Option<u32>,
)
    requires
        again@ == href@,
    ensures
        received(
            received(s, Command::SubscribeToResource { href, kind, poll_rate }).0,
            Command::SubscribeToResource { href: again, kind: kind_again, poll_rate: poll_rate_again },
        ).1 is Ignored,
{
    let t = received(s, Command::SubscribeToResource { href, kind, poll_rate }).0;
    if !polled_has(s.polled, href@) {
        assert(t.polled[t.polled.len() - 1] == href);
    }
    assert(polled_has(t.polled, again@));
}

/// While a retry is waiting, a command other than its wake-up only keeps
/// what it brings: no pass starts and the retry stays requested as it was.
pub proof fn held_while_retry_waits(s: SessionView, command: Command)
    requires
        s.retry_running,
        !(command is Wake),
        !(command is SubscribeToResource),
        !(command is UnsubscribeFromResource),
    ensures
        received(s, command).1 is Held,
        received(s, command).0 == absorbed(s, command),
        received(s, command).0.stage == s.stage,
        received(s, command).0.retry_requested == s.retry_requested,
{
}

/// Capabilities that differ from those held are sent at the next pass,
/// whenever the last were sent.
pub proof fn new_capabilities_are_due(s: SessionView, capabilities: DERCapability, now: u64)
    requires
        s.capabilities != Some(capabilities),
    ensures
        received(s, Command::SendDeviceCapability(capabilities)).0.capabilities == Some(capabilities),
        due(received(s, Command::SendDeviceCapability(capabilities)).0.capabilities_sent_at, now, POST_RATE_CAPABILITIES_MS),
{
}

/// A response whose sending failed in a way worth a retry stays first in the
/// queue, and the pass stops with the retry requested; any other failure
/// drops it.
pub proof fn failed_response_kept_for_retry(s: SessionView, message: String, now: u64)
    requires
        s.stage == Stage::Responses,
        s.responses.len() > 0,
    ensures
        retriable(message@) ==> recorded(s, Outcome::ResponseFailed(message), now).responses == s.responses
            && recorded(s, Outcome::ResponseFailed(message), now).stage == Stage::Idle
            && recorded(s, Outcome::ResponseFailed(message), now).retry_requested == s.retry_requested,
        !retriable(message@) ==> recorded(s, Outcome::ResponseFailed(message), now).responses
            == s.responses.drop_first(),
{
}


/// A registration whose PIN differs from the expected one stops the pass with
/// a retry requested, and the next pass fetches the registration again.
pub proof fn pin_mismatch_is_checked_again(s: SessionView, pin: u32, now: u64)
    requires
        s.wf(),
        s.stage == Stage::Registration,
        !s.registration_checked,
        s.expected_pin is Some,
        s.expected_pin != Some(pin),
        (s.device.unwrap().registration is Some),
    ensures
        recorded(s, Outcome::Registration(Some(pin)), now).stage == Stage::Idle,
        recorded(s, Outcome::Registration(Some(pin)), now).retry_requested == s.retry_requested,
        plan(at(recorded(s, Outcome::Registration(Some(pin)), now), Stage::Registration), now).1
            == (Action::FetchRegistration { href: s.device.unwrap().registration.unwrap() }),
{
}

} // verus!
