//! The routing of events between the tasks: what each event of one task asks
//! of another, translated on the way where the protocols differ.
use vstd::prelude::*;

use crate::modbus_connection::{
    Capabilities, Command as ModbusCommand, Event as DeviceEvent, Metering, Parameters, Settings,
    Status,
};
use crate::scheduler::Event;
use crate::sep2_connection::{Command, ControlResponse};
use crate::sep2_types::{DERCapability, DERSettings, DERStatus};
use crate::translation::{
    ReadingView, capability_spec, metering_spec, mirror_meter_readings_at, parameters_error,
    parameters_translation, settings_spec, status_spec, view_of,
};

verus! {

/// The command to the server connection that a scheduler event calls for:
/// polls to start or stop, and responses to send, stamped with `now`.
/// Parameter changes are not for the server.
pub fn subscription_command(event: Event, now: i64) -> (r: Option<Command>)
    ensures
        match event {
            Event::LinkAddedOrUpdated { href, kind, poll_rate } => r == Some(
                Command::SubscribeToResource { href, kind, poll_rate },
            ),
            Event::LinkRemoved { href, kind: _ } => r == Some(Command::UnsubscribeFromResource { href }),
            Event::DERControlStatusChanged { subject, status, reply_to } => r == Some(
                Command::SendControlResponse(ControlResponse { subject, status, reply_to, time: now }),
            ),
            Event::ParametersChanged(_) => r is None,
        },
{
    match event {
        Event::LinkAddedOrUpdated { href, kind, poll_rate } => Some(
            Command::SubscribeToResource { href, kind, poll_rate },
        ),
        Event::LinkRemoved { href, kind: _ } => Some(Command::UnsubscribeFromResource { href }),
        Event::DERControlStatusChanged { subject, status, reply_to } => Some(
            Command::SendControlResponse(ControlResponse::new(subject, status, reply_to, now)),
        ),
        Event::ParametersChanged(_) => None,
    }
}

/// The command to the device connection that a scheduler event calls for:
/// new parameters, where the controls translate. Other events are not for
/// the device.
pub fn parameters_command(event: &Event) -> (r: Option<ModbusCommand>)
    ensures
        match *event {
            Event::ParametersChanged(a) => match r {
                Some(ModbusCommand::UpdateParameters(p)) => parameters_translation(*a, Ok(p)),
                None => parameters_error(*a) is Some,
            },
            _ => r is None,
        },
{
    match event {
        Event::ParametersChanged(a) => {
            let attrs: &crate::attributes::ControlAttributes = &**a;
            match Parameters::try_from(attrs) {
                Ok(p) => Some(ModbusCommand::UpdateParameters(p)),
                Err(_) => None,
            }
        },
        _ => None,
    }
}

/// The status command, where the status translates.
pub open spec fn status_commands(s: Option<Status>, now: i64) -> Seq<Command> {
    match s {
        Some(s) => match status_spec(s, now) {
            Ok(d) => seq![Command::SendDeviceStatus(d)],
            Err(_) => Seq::empty(),
        },
        None => Seq::empty(),
    }
}

/// The settings command, where the settings translate.
pub open spec fn settings_commands(s: Option<Settings>, now: i64) -> Seq<Command> {
    match s {
        Some(s) => match settings_spec(s, now) {
            Ok(d) => seq![Command::SendDeviceSettings(d)],
            Err(_) => Seq::empty(),
        },
        None => Seq::empty(),
    }
}

/// The capability command, where the ratings translate.
pub open spec fn capability_commands(c: Capabilities) -> Seq<Command> {
    match capability_spec(c) {
        Ok(d) => seq![Command::SendDeviceCapability(d)],
        Err(_) => Seq::empty(),
    }
}

/// The readings of the measurements, where they translate.
pub open spec fn metering_readings(m: Option<Metering>, now: i64) -> Option<Seq<ReadingView>> {
    match m {
        Some(m) => match metering_spec(m, now) {
            Ok(s) => Some(s),
            Err(_) => None,
        },
        None => None,
    }
}

/// The commands to the server connection that a device event calls for, at
/// `now`: the capabilities, status, settings and readings that translate, in
/// that order. What does not translate is left out.
pub fn device_state_commands(event: DeviceEvent, now: i64) -> (r: Vec<Command>)
    ensures
        match event {
            DeviceEvent::DeviceConnected => r@.len() == 0,
            DeviceEvent::CapabilitiesPolled(c) => r@ == capability_commands(c),
            DeviceEvent::StatePolled(status, settings, metering) => {
                let head = status_commands(status, now) + settings_commands(settings, now);
                match metering_readings(metering, now) {
                    Some(readings) => r@.len() == head.len() + 1 && r@.take(head.len() as int)
                        == head && (r@.last() matches Command::SendMeterReadings(v) && v@.map_values(
                        |x| view_of(x),
                    ) == readings),
                    None => r@ == head,
                }
            },
        },
{
    let mut commands: Vec<Command> = Vec::new();
    match event {
        DeviceEvent::DeviceConnected => {},
        DeviceEvent::CapabilitiesPolled(c) => {
            match DERCapability::try_from(c) {
                Ok(d) => commands.push(Command::SendDeviceCapability(d)),
                Err(_) => {},
            }
            assert(commands@ =~= capability_commands(c));
        },
        DeviceEvent::StatePolled(status, settings, metering) => {
            match status {
                Some(s) => match DERStatus::try_from_at(s, now) {
                    Ok(d) => commands.push(Command::SendDeviceStatus(d)),
                    Err(_) => {},
                },
                None => {},
            }
            assert(commands@ =~= status_commands(status, now));
            match settings {
                Some(s) => match DERSettings::try_from_at(s, now) {
                    Ok(d) => commands.push(Command::SendDeviceSettings(d)),
                    Err(_) => {},
                },
                None => {},
            }
            let ghost head = status_commands(status, now) + settings_commands(settings, now);
            assert(commands@ =~= head);
            match &metering {
                Some(m) => match mirror_meter_readings_at(m, now) {
                    Ok(v) => {
                        commands.push(Command::SendMeterReadings(v));
                        assert(commands@.take(head.len() as int) =~= head);
                    },
                    Err(_) => {},
                },
                None => {},
            }
        },
    }
    commands
}

} // verus!
