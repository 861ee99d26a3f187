use std::collections::VecDeque;

use sep2_bridge::sep2_connection::polling::{paginated_uri, poll_href};
use sep2_bridge::sep2_connection::{
    cache_from_readings, check_registration, find_usage_point, is_failure_retriable, mrid_for, new_mrid,
    queue_response, reading_key, ControlResponse, Registration, MAX_RESPONSE_QUEUE_SIZE,
};
use sep2_bridge::sep2_model::{EndDevice, EndDeviceList, Lfdi};
use sep2_bridge::sep2_types::{
    FlowDirectionType, MirrorMeterReading, PhaseCode, PowerOfTenMultiplierType, ResponseStatus, UomType,
};
use sep2_bridge::{Error, ResourceKind};

#[test]
fn paginated_uri_asks_for_the_list_size() {
    assert_eq!(paginated_uri("/edev", 30), "/edev?l=30");
    assert_eq!(paginated_uri("/edev/1/fsa", 0), "/edev/1/fsa?l=0");
    assert_eq!(paginated_uri("/derp", 4294967295), "/derp?l=4294967295");
}

#[test]
fn lists_are_polled_with_pagination() {
    assert_eq!(poll_href(ResourceKind::DERControlList, "/derc", 24), Some(String::from("/derc?l=24")));
    assert_eq!(poll_href(ResourceKind::Time, "/tm", 24), Some(String::from("/tm")));
    assert_eq!(poll_href(ResourceKind::DefaultDERControl, "/dderc", 24), Some(String::from("/dderc")));
    assert_eq!(poll_href(ResourceKind::DERControl, "/derc/1", 24), None);
    assert_eq!(poll_href(ResourceKind::EndDevice, "/edev/1", 24), None);
}

fn response(subject: u128) -> ControlResponse {
    ControlResponse::new(subject, ResponseStatus::EventReceived, String::from("/rsp"), 0)
}

#[test]
fn response_queue_drops_the_oldest() {
    let mut queue = VecDeque::new();
    for subject in 0..40u128 {
        queue_response(&mut queue, response(subject));
        assert!(queue.len() < MAX_RESPONSE_QUEUE_SIZE);
    }
    assert_eq!(queue.len(), MAX_RESPONSE_QUEUE_SIZE - 1);
    assert_eq!(queue.front().unwrap().subject, 11);
    assert_eq!(queue.back().unwrap().subject, 39);
}

#[test]
fn response_queue_keeps_all_below_the_limit() {
    let mut queue = VecDeque::new();
    for subject in 0..5u128 {
        queue_response(&mut queue, response(subject));
    }
    let subjects: Vec<u128> = queue.iter().map(|r| r.subject).collect();
    assert_eq!(subjects, vec![0, 1, 2, 3, 4]);
}

#[test]
fn retriable_failures() {
    assert!(is_failure_retriable("error trying to connect: Connection refused (os error 111)"));
    assert!(is_failure_retriable("Unexpected HTTP response: 429 Too Many Requests"));
    assert!(!is_failure_retriable("Unexpected HTTP response: 404 Not Found"));
    assert!(!is_failure_retriable("429"));
    assert!(!is_failure_retriable(""));
}

fn device(lfdi: Option<Lfdi>) -> EndDevice {
    EndDevice { href: Some(String::from("/edev/1")), lfdi, sfdi: 1, function_set_assignments_list_link: None }
}

fn list(all: u32, devices: Vec<EndDevice>) -> EndDeviceList {
    EndDeviceList { href: Some(String::from("/edev")), end_device: devices, poll_rate: None, all, results: all }
}

#[test]
fn registration_decisions() {
    let ours = Lfdi { high: 1, low: 2 };
    let other = Lfdi { high: 3, low: 4 };
    assert!(matches!(check_registration(list(0, vec![]), ours), Ok(Registration::Register)));
    assert!(matches!(
        check_registration(list(1, vec![device(Some(ours))]), ours),
        Ok(Registration::Known(d)) if d.lfdi == Some(ours)
    ));
    assert!(matches!(check_registration(list(1, vec![device(Some(other))]), ours), Err(Error::UnexpectedDevice)));
    assert!(matches!(check_registration(list(1, vec![device(None)]), ours), Err(Error::UnexpectedDevice)));
    assert!(matches!(
        check_registration(list(1, vec![]), ours),
        Err(Error::InvalidInput(s)) if s == "EndDeviceList is missing an item"
    ));
    assert!(matches!(
        check_registration(list(2, vec![device(Some(ours)), device(Some(other))]), ours),
        Err(Error::UnexpectedDevice)
    ));
}

#[test]
fn usage_point_of_the_device() {
    let ours = Lfdi { high: 1, low: 2 };
    let other = Lfdi { high: 3, low: 4 };
    assert_eq!(find_usage_point(&vec![other, ours, ours], ours), Some(1));
    assert_eq!(find_usage_point(&vec![other], ours), None);
}

fn reading(mrid: u128, uom: UomType, potm: Option<PowerOfTenMultiplierType>) -> MirrorMeterReading {
    MirrorMeterReading {
        mrid,
        description: String::from("reading"),
        flow_direction: FlowDirectionType::Forward,
        kind: None,
        uom,
        power_of_ten_multiplier: potm,
        phase: Some(PhaseCode::PhaseA),
        value: 0,
        time: 0,
    }
}

#[test]
fn missing_power_of_ten_counts_as_none() {
    assert_eq!(
        reading_key(&reading(1, UomType::W, None)),
        reading_key(&reading(2, UomType::W, Some(PowerOfTenMultiplierType::Unit)))
    );
    assert_ne!(
        reading_key(&reading(1, UomType::W, None)),
        reading_key(&reading(2, UomType::VAr, None))
    );
}

#[test]
fn existing_mrids_are_reused() {
    let existing = vec![reading(0xAAE2, UomType::W, None), reading(0xBB, UomType::Voltage, None)];
    let mut cache = cache_from_readings(&existing);
    assert_eq!(mrid_for(&mut cache, &reading(0, UomType::W, Some(PowerOfTenMultiplierType::Unit)), 1), 0xAAE2);
    assert_eq!(mrid_for(&mut cache, &reading(0, UomType::Voltage, None), 1), 0xBB);
    let fresh = mrid_for(&mut cache, &reading(0, UomType::Hz, None), 1);
    assert_eq!(mrid_for(&mut cache, &reading(0, UomType::Hz, None), 1), fresh);
}

#[test]
fn fresh_mrids_carry_the_pen() {
    let pen: u32 = 1337;
    assert_eq!(new_mrid(pen) & 0xFFFF_FFFF, pen as u128);
    let mut cache = cache_from_readings(&vec![]);
    let fresh = mrid_for(&mut cache, &reading(0, UomType::Hz, None), pen);
    assert_eq!(fresh & 0xFFFF_FFFF, pen as u128);
}
