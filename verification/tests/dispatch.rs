use std::sync::Arc;

use sep2_bridge::attributes::ControlAttributes;
use sep2_bridge::dispatch::{device_state_commands, parameters_command, subscription_command};
use sep2_bridge::modbus_connection::{Command as ModbusCommand, Event as DeviceEvent, Settings, Status};
use sep2_bridge::scheduler::Event;
use sep2_bridge::sep2_connection::Command;
use sep2_bridge::sep2_types::{DefaultDERControl, ResponseStatus};
use sep2_bridge::sunspec::model701::St;
use sep2_bridge::sunspec::model703::Es;
use sep2_bridge::ResourceKind;
use sep2_bridge::ScaledValue;

#[test]
fn links_become_subscriptions() {
    let event = Event::LinkAddedOrUpdated { href: String::from("/derp"), kind: ResourceKind::DERProgramList, poll_rate: Some(60) };
    assert!(matches!(
        subscription_command(event, 0),
        Some(Command::SubscribeToResource { href, kind: ResourceKind::DERProgramList, poll_rate: Some(60) }) if href == "/derp"
    ));
    let event = Event::LinkRemoved { href: String::from("/derp"), kind: ResourceKind::DERProgramList };
    assert!(matches!(
        subscription_command(event, 0),
        Some(Command::UnsubscribeFromResource { href }) if href == "/derp"
    ));
}

#[test]
fn status_changes_become_responses_stamped_now() {
    let event = Event::DERControlStatusChanged { subject: 7, status: ResponseStatus::EventStarted, reply_to: String::from("/rsp") };
    match subscription_command(event, 1234) {
        Some(Command::SendControlResponse(r)) => {
            assert_eq!(r.subject, 7);
            assert_eq!(r.status, ResponseStatus::EventStarted);
            assert_eq!(r.reply_to, "/rsp");
            assert_eq!(r.time, 1234);
        },
        _ => panic!("expected a response"),
    }
}

#[test]
fn parameters_are_not_for_the_server() {
    let event = Event::ParametersChanged(Arc::new(ControlAttributes::empty()));
    assert!(subscription_command(event, 0).is_none());
}

#[test]
fn parameters_are_translated_for_the_device() {
    let mut inner = DefaultDERControl::empty();
    inner.der_control_base.op_mod_connect = Some(true);
    let event = Event::ParametersChanged(Arc::new(ControlAttributes::new(inner)));
    match parameters_command(&event) {
        Some(ModbusCommand::UpdateParameters(p)) => assert_eq!(p.es, Some(Es::Enabled)),
        None => panic!("expected parameters"),
    }
    let event = Event::LinkRemoved { href: String::from("/derp"), kind: ResourceKind::DERProgramList };
    assert!(parameters_command(&event).is_none());
}

#[test]
fn untranslatable_parameters_are_dropped() {
    let mut inner = DefaultDERControl::empty();
    inner.set_es_high_volt = Some(-1);
    let event = Event::ParametersChanged(Arc::new(ControlAttributes::new(inner)));
    assert!(parameters_command(&event).is_none());
}

#[test]
fn device_state_becomes_commands_in_order() {
    let status = Status { st: Some(St::On), conn_st: None, alrm: None, soc: None };
    let settings = Settings { esv_hi: Some(ScaledValue::new(2450, -2)) };
    let commands = device_state_commands(DeviceEvent::StatePolled(Some(status), Some(settings), None), 99);
    assert_eq!(commands.len(), 2);
    assert!(matches!(commands[0], Command::SendDeviceStatus(s) if s.reading_time == 99));
    assert!(matches!(commands[1], Command::SendDeviceSettings(s) if s.set_es_high_volt == Some(2450)));
}

#[test]
fn untranslatable_state_is_left_out() {
    let status = Status { st: Some(St::Invalid(9)), conn_st: None, alrm: None, soc: None };
    let commands = device_state_commands(DeviceEvent::StatePolled(Some(status), None, None), 0);
    assert!(commands.is_empty());
    assert!(device_state_commands(DeviceEvent::DeviceConnected, 0).is_empty());
}
