use sep2_bridge::attributes::ControlAttributes;
use sep2_bridge::modbus_connection::link::{parameters_agree, DeviceLink, MIN_POLL_PERIOD_MS};
use sep2_bridge::modbus_connection::{Curve, Parameters};
use sep2_bridge::ScaledValue;

fn blank() -> Parameters {
    Parameters::try_from(&ControlAttributes::empty()).unwrap()
}

fn with_limit(pct: u16) -> Parameters {
    let mut p = blank();
    p.w_max_lim_pct = Some(ScaledValue::new(pct, 0));
    p
}

#[test]
fn parameters_agree_by_value_and_scale() {
    assert!(parameters_agree(&with_limit(50), &with_limit(50)));
    assert!(!parameters_agree(&with_limit(50), &with_limit(60)));
    let mut tenths = blank();
    tenths.w_max_lim_pct = Some(ScaledValue::new(500, -1));
    assert!(!parameters_agree(&with_limit(50), &tenths));
    let mut a = blank();
    a.der_volt_var = Some(Curve { points: vec![(90, 30), (110, -30)], sf_x: 0, sf_y: 0 });
    let mut b = blank();
    b.der_volt_var = Some(Curve { points: vec![(90, 30), (110, -30)], sf_x: 0, sf_y: 0 });
    assert!(parameters_agree(&a, &b));
    b.der_volt_var = Some(Curve { points: vec![(90, 30), (111, -30)], sf_x: 0, sf_y: 0 });
    assert!(!parameters_agree(&a, &b));
}

#[test]
fn parameters_are_written_once_connected() {
    let mut link = DeviceLink::new(0);
    link.receive(with_limit(50));
    assert!(link.needs_connection());
    assert!(!link.should_write());
    link.connection_made(true);
    assert!(link.should_write());
    link.write_done(true);
    assert!(!link.should_write());
    assert!(parameters_agree(link.written.as_ref().unwrap(), &with_limit(50)));
    // The same parameters again are not written.
    link.receive(with_limit(50));
    assert!(!link.should_write());
    link.receive(with_limit(40));
    assert!(link.should_write());
}

#[test]
fn a_reconnected_device_gets_its_parameters_again() {
    let mut link = DeviceLink::new(0);
    link.connection_made(true);
    link.receive(with_limit(50));
    link.write_done(true);
    // A failed poll drops the connection.
    link.poll_done(false, 2000);
    assert!(link.needs_connection());
    link.connection_made(true);
    assert!(link.should_write());
    assert!(parameters_agree(link.pending.as_ref().unwrap(), &with_limit(50)));
}

#[test]
fn a_failed_write_keeps_the_parameters_waiting() {
    let mut link = DeviceLink::new(0);
    link.connection_made(true);
    link.receive(with_limit(50));
    link.write_done(false);
    assert!(link.needs_connection());
    assert!(link.pending.is_some());
    link.connection_made(false);
    assert!(!link.should_write());
    link.connection_made(true);
    assert!(link.should_write());
}

#[test]
fn polls_keep_their_period() {
    let mut link = DeviceLink::new(0);
    assert!(!link.should_poll(5000));
    link.connection_made(true);
    assert!(!link.should_poll(MIN_POLL_PERIOD_MS));
    assert!(link.should_poll(MIN_POLL_PERIOD_MS + 1));
    link.poll_done(true, 1500);
    assert!(!link.should_poll(2000));
    assert!(link.should_poll(2501));
    assert!(!link.should_poll(1000));
}
