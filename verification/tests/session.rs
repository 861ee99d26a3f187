use sep2_bridge::sep2_connection::session::{
    Action, DcapLinks, DerLinks, DeviceLinks, Outcome, Reception, RetryPlan, Session, Stage,
    POST_RATE_GENERIC_MS,
};
use sep2_bridge::sep2_connection::{Command, ControlResponse};
use sep2_bridge::sep2_types::{ActivePower, DERCapability, DERSettings, PowerOfTenMultiplierType, ResponseStatus};
use sep2_bridge::{Error, ResourceKind};

fn text(s: &str) -> Option<String> {
    Some(String::from(s))
}

fn dcap() -> DcapLinks {
    DcapLinks { end_device_list: text("/edev"), time: text("/tm"), mirror_usage_point_list: text("/mup") }
}

fn der() -> DerLinks {
    DerLinks { settings: text("/der/1/dera"), status: text("/der/1/ders"), capability: text("/der/1/dercap") }
}

fn settings(v: i16) -> DERSettings {
    DERSettings { set_es_high_volt: Some(v), updated_time: 0 }
}

fn capabilities(w: i16) -> DERCapability {
    DERCapability {
        modes_supported: 1,
        rtg_max_charge_rate_va: None,
        rtg_max_charge_rate_w: None,
        rtg_max_v: None,
        rtg_max_va: None,
        rtg_max_var: None,
        rtg_max_var_neg: None,
        rtg_max_w: ActivePower { value: w, multiplier: PowerOfTenMultiplierType::Kilo },
        rtg_min_v: None,
        rtg_over_excited_pf: None,
        rtg_over_excited_w: None,
        rtg_reactive_susceptance: None,
        rtg_under_excited_pf: None,
        rtg_under_excited_w: None,
        rtg_v_nom: None,
    }
}

/// Takes a fresh session through a pass that finds the server and our device.
fn connected_session(pin: Option<u32>) -> Session {
    let mut s = Session::new(300, pin);
    assert!(matches!(s.receive(Command::Wake), Reception::Pass));
    assert!(matches!(s.next_action(0), Action::FetchDcap));
    s.record(Outcome::Dcap(Some(dcap())), 0).unwrap();
    match s.next_action(0) {
        Action::EnsureDevice { end_device_list } => assert_eq!(end_device_list, "/edev"),
        other => panic!("unexpected {other:?}"),
    }
    let device = DeviceLinks { registration: text("/edev/1/rg"), der_list: text("/edev/1/der") };
    s.record(Outcome::Device(Ok(Some(device))), 0).unwrap();
    if pin.is_some() {
        match s.next_action(0) {
            Action::FetchRegistration { href } => assert_eq!(href, "/edev/1/rg"),
            other => panic!("unexpected {other:?}"),
        }
        s.record(Outcome::Registration(pin), 0).unwrap();
    }
    match s.next_action(0) {
        Action::StartRootPolling { end_device_list, time } => {
            assert_eq!(end_device_list, "/edev");
            assert_eq!(time, "/tm");
        }
        other => panic!("unexpected {other:?}"),
    }
    s.record(Outcome::RootPollingStarted, 0).unwrap();
    match s.next_action(0) {
        Action::FetchDer { der_list } => assert_eq!(der_list, "/edev/1/der"),
        other => panic!("unexpected {other:?}"),
    }
    s.record(Outcome::Der(Some(vec![der()])), 0).unwrap();
    s
}

#[test]
fn a_pass_with_nothing_to_send_withdraws_the_retry() {
    let mut s = connected_session(None);
    assert!(matches!(s.next_action(0), Action::Finished));
    assert!(!s.retry_requested);
    assert_eq!(s.stage, Stage::Idle);
    assert_eq!(s.polled, vec![String::from("/edev"), String::from("/tm")]);
}

#[test]
fn a_wrong_pin_is_checked_again() {
    let mut s = Session::new(300, Some(111115));
    s.receive(Command::Wake);
    s.next_action(0);
    s.record(Outcome::Dcap(Some(dcap())), 0).unwrap();
    s.next_action(0);
    let device = DeviceLinks { registration: text("/edev/1/rg"), der_list: text("/edev/1/der") };
    s.record(Outcome::Device(Ok(Some(device))), 0).unwrap();
    assert!(matches!(s.next_action(0), Action::FetchRegistration { .. }));
    // A PIN that differs stops the pass with a retry requested.
    s.record(Outcome::Registration(Some(222226)), 0).unwrap();
    assert!(matches!(s.next_action(0), Action::Finished));
    assert!(s.retry_requested);
    // The registration is fetched again at the next pass, and once it holds
    // the expected PIN it is not fetched any more.
    s.receive(Command::Wake);
    assert!(matches!(s.next_action(0), Action::FetchRegistration { .. }));
    s.record(Outcome::Registration(Some(111115)), 0).unwrap();
    assert!(matches!(s.next_action(0), Action::StartRootPolling { .. }));
    s.record(Outcome::RootPollingStarted, 0).unwrap();
    s.receive(Command::Wake);
    assert!(matches!(s.next_action(0), Action::FetchDer { .. }));
}

#[test]
fn a_matching_pin_lets_the_pass_go_on() {
    let mut s = connected_session(Some(111115));
    assert!(matches!(s.next_action(0), Action::Finished));
    assert!(!s.retry_requested);
}

#[test]
fn a_dcap_without_links_is_fetched_again() {
    let mut s = Session::new(300, None);
    s.receive(Command::Wake);
    s.next_action(0);
    let links = DcapLinks { end_device_list: None, time: text("/tm"), mirror_usage_point_list: None };
    s.record(Outcome::Dcap(Some(links)), 0).unwrap();
    assert!(matches!(s.next_action(0), Action::Finished));
    assert!(s.dcap.is_none());
    assert!(s.retry_requested);
    s.receive(Command::Wake);
    assert!(matches!(s.next_action(0), Action::FetchDcap));
}

#[test]
fn an_unexpected_device_ends_the_task() {
    let mut s = Session::new(300, None);
    s.receive(Command::Wake);
    s.next_action(0);
    s.record(Outcome::Dcap(Some(dcap())), 0).unwrap();
    s.next_action(0);
    let r = s.record(Outcome::Device(Err(Error::UnexpectedDevice)), 0);
    assert!(matches!(r, Err(Error::UnexpectedDevice)));
    assert!(matches!(s.next_action(0), Action::Finished));
}

#[test]
fn a_uri_is_polled_once() {
    let mut s = Session::new(300, None);
    let subscribe = || Command::SubscribeToResource {
        href: String::from("/derp/1/derc"),
        kind: ResourceKind::DERControlList,
        poll_rate: None,
    };
    match s.receive(subscribe()) {
        Reception::StartPoll { href, kind, poll_rate } => {
            assert_eq!(href, "/derp/1/derc");
            assert_eq!(kind, ResourceKind::DERControlList);
            assert_eq!(poll_rate, 300);
        }
        other => panic!("unexpected {other:?}"),
    }
    assert!(matches!(s.receive(subscribe()), Reception::Ignored));
    let with_rate = Command::SubscribeToResource {
        href: String::from("/tm"),
        kind: ResourceKind::Time,
        poll_rate: Some(60),
    };
    assert!(matches!(s.receive(with_rate), Reception::StartPoll { poll_rate: 60, .. }));
    let unsubscribe = Command::UnsubscribeFromResource { href: String::from("/tm") };
    assert!(matches!(s.receive(unsubscribe), Reception::Ignored));
}

#[test]
fn settings_are_sent_then_rested() {
    let mut s = connected_session(None);
    s.next_action(0);
    assert!(matches!(s.receive(Command::SendDeviceSettings(settings(11000))), Reception::Pass));
    let now = 1_000;
    match s.next_action(now) {
        Action::PutSettings { href, settings: sent } => {
            assert_eq!(href, "/der/1/dera");
            assert_eq!(sent, settings(11000));
        }
        other => panic!("unexpected {other:?}"),
    }
    s.record(Outcome::Put(true), now).unwrap();
    assert!(matches!(s.next_action(now), Action::Finished));
    assert!(s.latest_settings.is_none());
    // New settings within the post rate wait; after it they are sent.
    s.receive(Command::SendDeviceSettings(settings(10900)));
    assert!(matches!(s.next_action(now + POST_RATE_GENERIC_MS), Action::Finished));
    s.receive(Command::Wake);
    assert!(matches!(s.next_action(now + POST_RATE_GENERIC_MS + 1), Action::PutSettings { .. }));
}

#[test]
fn a_failed_put_stops_the_pass() {
    let mut s = connected_session(None);
    s.next_action(0);
    s.receive(Command::SendDeviceSettings(settings(11000)));
    assert!(matches!(s.next_action(0), Action::PutSettings { .. }));
    s.record(Outcome::Put(false), 0).unwrap();
    assert!(s.retry_requested);
    assert_eq!(s.latest_settings, Some(settings(11000)));
    assert!(matches!(s.next_action(0), Action::Finished));
}

#[test]
fn changed_capabilities_are_sent_at_once() {
    let mut s = connected_session(None);
    s.next_action(0);
    s.receive(Command::SendDeviceCapability(capabilities(5)));
    assert!(matches!(s.next_action(10), Action::PutCapabilities { .. }));
    s.record(Outcome::Put(true), 10).unwrap();
    s.next_action(10);
    // The same capabilities are not sent again within a day.
    s.receive(Command::SendDeviceCapability(capabilities(5)));
    assert!(matches!(s.next_action(20), Action::Finished));
    // Different ones are.
    s.receive(Command::SendDeviceCapability(capabilities(6)));
    match s.next_action(30) {
        Action::PutCapabilities { href, capabilities: sent } => {
            assert_eq!(href, "/der/1/dercap");
            assert_eq!(sent, capabilities(6));
        }
        other => panic!("unexpected {other:?}"),
    }
}

fn response(subject: u128) -> ControlResponse {
    ControlResponse::new(subject, ResponseStatus::EventReceived, String::from("/rsp"), 7)
}

#[test]
fn responses_go_first_oldest_first() {
    let mut s = connected_session(None);
    s.next_action(0);
    s.receive(Command::SendControlResponse(response(1)));
    s.receive(Command::SendControlResponse(response(2)));
    match s.next_action(0) {
        Action::SendResponse(r) => assert_eq!(r, response(1)),
        other => panic!("unexpected {other:?}"),
    }
    s.record(Outcome::ResponseSent, 0).unwrap();
    match s.next_action(0) {
        Action::SendResponse(r) => assert_eq!(r, response(2)),
        other => panic!("unexpected {other:?}"),
    }
    // A failure that is not worth a retry drops the response.
    s.record(Outcome::ResponseFailed(String::from("Unexpected HTTP response: 404")), 0).unwrap();
    assert!(matches!(s.next_action(0), Action::Finished));
    assert!(s.responses.is_empty());
}

#[test]
fn a_refused_connection_keeps_the_response() {
    let mut s = connected_session(None);
    s.next_action(0);
    s.receive(Command::SendControlResponse(response(1)));
    assert!(matches!(s.next_action(0), Action::SendResponse(_)));
    s.record(Outcome::ResponseFailed(String::from("Connection refused")), 0).unwrap();
    assert!(matches!(s.next_action(0), Action::Finished));
    assert!(s.retry_requested);
    assert_eq!(s.responses.len(), 1);
    s.receive(Command::Wake);
    assert!(matches!(s.next_action(0), Action::SendResponse(_)));
    s.record(Outcome::ResponseTimedOut, 0).unwrap();
    assert_eq!(s.responses.len(), 1);
    assert!(s.retry_requested);
}

#[test]
fn commands_wait_for_the_retry() {
    let mut s = Session::new(300, None);
    s.receive(Command::Wake);
    s.next_action(0);
    s.record(Outcome::Dcap(None), 0).unwrap();
    assert!(s.retry_requested);
    assert_eq!(s.retry_plan(), RetryPlan::Spawn);
    assert_eq!(s.retry_plan(), RetryPlan::Keep);
    assert!(matches!(s.receive(Command::SendDeviceSettings(settings(1))), Reception::Held));
    assert_eq!(s.latest_settings, Some(settings(1)));
    assert!(matches!(s.receive(Command::Wake), Reception::Pass));
    s.next_action(0);
    s.record(Outcome::Dcap(Some(dcap())), 0).unwrap();
    s.next_action(0);
    let device = DeviceLinks { registration: None, der_list: text("/edev/1/der") };
    s.record(Outcome::Device(Ok(Some(device))), 0).unwrap();
    s.next_action(0);
    s.record(Outcome::RootPollingStarted, 0).unwrap();
    s.next_action(0);
    s.record(Outcome::Der(Some(vec![der()])), 0).unwrap();
    assert!(matches!(s.next_action(0), Action::PutSettings { .. }));
    s.record(Outcome::Put(true), 0).unwrap();
    assert!(matches!(s.next_action(0), Action::Finished));
    assert!(!s.retry_requested);
    assert_eq!(s.retry_plan(), RetryPlan::Abort);
}

#[test]
fn a_der_list_of_other_than_one_is_retried() {
    let mut s = Session::new(300, None);
    s.receive(Command::Wake);
    s.next_action(0);
    s.record(Outcome::Dcap(Some(dcap())), 0).unwrap();
    s.next_action(0);
    let device = DeviceLinks { registration: None, der_list: text("/edev/1/der") };
    s.record(Outcome::Device(Ok(Some(device))), 0).unwrap();
    s.next_action(0);
    s.record(Outcome::RootPollingStarted, 0).unwrap();
    assert!(matches!(s.next_action(0), Action::FetchDer { .. }));
    s.record(Outcome::Der(Some(vec![der(), der()])), 0).unwrap();
    assert!(s.der.is_none());
    assert!(s.retry_requested);
}

#[test]
fn readings_go_last_through_the_usage_point_list() {
    let mut s = connected_session(None);
    s.next_action(0);
    s.receive(Command::SendMeterReadings(Vec::new()));
    match s.next_action(0) {
        Action::SendReadings { mirror_usage_point_list } => assert_eq!(mirror_usage_point_list, text("/mup")),
        other => panic!("unexpected {other:?}"),
    }
    s.record(Outcome::Readings(true), 5).unwrap();
    assert!(s.latest_readings.is_none());
    assert_eq!(s.readings_sent_at, Some(5));
    assert!(!s.retry_requested);
}
