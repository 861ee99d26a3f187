use sep2_bridge::attributes::ControlAttributes;
use sep2_bridge::clock::now_timestamp;
use sep2_bridge::scheduler::{calc_next_schedule_time_for_controls, calc_parameters_for_controls, Event};
use sep2_bridge::sep2_model::{ControlRef, ScheduledControl};
use sep2_bridge::sep2_types::{
    ActivePower, DERControl, DERControlBase, DefaultDERControl, EventStatusType,
    PowerOfTenMultiplierType, ResponseStatus,
};

struct MockControls {
    controls: Vec<ScheduledControl>,
    defaults: Vec<DefaultDERControl>,

    time_only_defaults: i64,
    time_first_active: i64,
    time_all_active: i64,
    time_second_active: i64,
}

fn control_with_base(base: DERControlBase) -> DERControl {
    DERControl {
        mrid: 0,
        creation_time: 0,
        current_status: EventStatusType::Scheduled,
        interval_start: 0,
        interval_duration: 0,
        randomize_duration: None,
        randomize_start: None,
        der_control_base: base,
        reply_to: Some(String::from("")),
        response_required: Some(7),
        href: None,
    }
}

fn mock_controls() -> MockControls {
    let now = now_timestamp();

    let default2_power = ActivePower { value: 43, multiplier: PowerOfTenMultiplierType::Kilo };
    let first_power = ActivePower { value: 1, multiplier: PowerOfTenMultiplierType::Deca };
    let second_power = ActivePower { value: 2, multiplier: PowerOfTenMultiplierType::Hecto };
    let third_power = ActivePower { value: 3, multiplier: PowerOfTenMultiplierType::Kilo };

    let mut base0 = DERControlBase::empty();
    base0.op_mod_imp_lim_w = Some(first_power);
    base0.op_mod_gen_lim_w = Some(first_power);
    let mut base1 = DERControlBase::empty();
    base1.op_mod_imp_lim_w = Some(second_power);
    base1.op_mod_load_lim_w = Some(second_power);
    let mut base2 = DERControlBase::empty();
    base2.op_mod_imp_lim_w = Some(third_power);
    base2.op_mod_target_w = Some(third_power);

    let controls = vec![
        ScheduledControl { der_control: control_with_base(base0), start_time: now + 1000, duration: 1000 },
        ScheduledControl { der_control: control_with_base(base1), start_time: now + 1500, duration: 1000 },
        ScheduledControl { der_control: control_with_base(base2), start_time: now + 1500, duration: 1000 },
    ];

    let mut default0 = DefaultDERControl::empty();
    default0.der_control_base.op_mod_connect = Some(true);
    let mut default1 = DefaultDERControl::empty();
    default1.der_control_base.op_mod_connect = Some(false);
    default1.der_control_base.op_mod_imp_lim_w = Some(default2_power);

    MockControls {
        controls,
        defaults: vec![default0, default1],
        time_only_defaults: now + 3000,
        time_first_active: now + 1250,
        time_all_active: now + 1750,
        time_second_active: now + 2250,
    }
}

fn mock_ordered_controls(data: &MockControls) -> Vec<ControlRef<'_>> {
    vec![
        ControlRef::Scheduled(&data.controls[0]),
        ControlRef::Default(&data.defaults[0]),
        ControlRef::Scheduled(&data.controls[1]),
        ControlRef::Scheduled(&data.controls[2]),
        ControlRef::Default(&data.defaults[1]),
    ]
}

#[test]
fn predicts_no_time_for_only_defaults() {
    let data = mock_controls();
    let ordered_controls = mock_ordered_controls(&data);

    let (time, events) =
        calc_next_schedule_time_for_controls(ordered_controls, data.time_only_defaults).unwrap();

    assert_eq!(time, None);
    assert!(events.is_empty());
}

#[test]
fn predicts_earliest_time() {
    // Should predict the start of the second events.
    let data = mock_controls();
    let ordered_controls = mock_ordered_controls(&data);
    let (time, _) =
        calc_next_schedule_time_for_controls(ordered_controls, data.time_first_active).unwrap();
    assert_eq!(time, Some(data.controls[1].start_time));

    // Should predict the end of the first event.
    let data = mock_controls();
    let ordered_controls = mock_ordered_controls(&data);
    let (time, _) =
        calc_next_schedule_time_for_controls(ordered_controls, data.time_all_active).unwrap();
    assert_eq!(time, Some(data.controls[0].end_time()));

    // Should predict the end of the second events.
    let data = mock_controls();
    let ordered_controls = mock_ordered_controls(&data);
    let (time, _) =
        calc_next_schedule_time_for_controls(ordered_controls, data.time_second_active).unwrap();
    assert_eq!(time, Some(data.controls[1].end_time()));
}

#[test]
fn predicts_simultaneous_events() {
    // Should predict 2 events starting as the 2nd and 3rd events begin and end together.

    // The starting events
    let data = mock_controls();
    let ordered_controls = mock_ordered_controls(&data);
    let (_, events) =
        calc_next_schedule_time_for_controls(ordered_controls, data.time_first_active).unwrap();
    assert_eq!(events.len(), 2);

    // The ending events
    let data = mock_controls();
    let ordered_controls = mock_ordered_controls(&data);
    let (_, events) =
        calc_next_schedule_time_for_controls(ordered_controls, data.time_second_active).unwrap();
    assert_eq!(events.len(), 2);
}

#[test]
fn predicted_events_carry_the_status_and_reply_address() {
    let data = mock_controls();
    let ordered_controls = mock_ordered_controls(&data);
    let (_, events) =
        calc_next_schedule_time_for_controls(ordered_controls, data.time_first_active).unwrap();
    for event in events {
        assert_eq!(
            event,
            Event::DERControlStatusChanged {
                subject: 0,
                status: ResponseStatus::EventStarted,
                reply_to: String::from(""),
            }
        );
    }
}

#[test]
fn no_events_predicted_without_a_reply_address() {
    let mut data = mock_controls();
    for control in data.controls.iter_mut() {
        control.der_control.reply_to = None;
    }
    let ordered_controls = mock_ordered_controls(&data);
    let (time, events) =
        calc_next_schedule_time_for_controls(ordered_controls, data.time_first_active).unwrap();
    assert_eq!(time, Some(data.controls[1].start_time));
    assert!(events.is_empty());
}

#[test]
fn parameters_includes_only_active_controls() {
    // Calculating when there are only defaults
    let data = mock_controls();
    let ordered_controls = mock_ordered_controls(&data);
    let parameters = calc_parameters_for_controls(ordered_controls, data.time_only_defaults).unwrap();
    assert_eq!(parameters.inner.der_control_base.op_mod_connect, Some(true));
    assert_eq!(
        parameters.inner.der_control_base.op_mod_imp_lim_w,
        data.defaults[1].der_control_base.op_mod_imp_lim_w
    );
    assert_eq!(parameters.num_active(), 2);

    // Calculating when only the first is active
    let data = mock_controls();
    let ordered_controls = mock_ordered_controls(&data);
    let parameters = calc_parameters_for_controls(ordered_controls, data.time_first_active).unwrap();
    assert_eq!(parameters.inner.der_control_base.op_mod_connect, Some(true));
    assert_eq!(
        parameters.inner.der_control_base.op_mod_imp_lim_w,
        data.controls[0].der_control.der_control_base.op_mod_imp_lim_w
    );
    assert_eq!(
        parameters.inner.der_control_base.op_mod_gen_lim_w,
        data.controls[0].der_control.der_control_base.op_mod_gen_lim_w
    );
    assert_eq!(parameters.num_active(), 3);

    // Calculating when all are active
    let data = mock_controls();
    let ordered_controls = mock_ordered_controls(&data);
    let parameters = calc_parameters_for_controls(ordered_controls, data.time_all_active).unwrap();
    assert_eq!(parameters.inner.der_control_base.op_mod_connect, Some(true));
    assert_eq!(
        parameters.inner.der_control_base.op_mod_imp_lim_w,
        data.controls[0].der_control.der_control_base.op_mod_imp_lim_w
    );
    assert_eq!(
        parameters.inner.der_control_base.op_mod_gen_lim_w,
        data.controls[0].der_control.der_control_base.op_mod_gen_lim_w
    );
    assert_eq!(
        parameters.inner.der_control_base.op_mod_load_lim_w,
        data.controls[1].der_control.der_control_base.op_mod_load_lim_w
    );
    assert_eq!(
        parameters.inner.der_control_base.op_mod_target_w,
        data.controls[2].der_control.der_control_base.op_mod_target_w
    );
    assert_eq!(parameters.num_active(), 5);

    // Calculating when only the second are active
    let data = mock_controls();
    let ordered_controls = mock_ordered_controls(&data);
    let parameters = calc_parameters_for_controls(ordered_controls, data.time_second_active).unwrap();
    assert_eq!(parameters.inner.der_control_base.op_mod_connect, Some(true));
    assert_eq!(
        parameters.inner.der_control_base.op_mod_imp_lim_w,
        data.controls[1].der_control.der_control_base.op_mod_imp_lim_w
    );
    assert_eq!(
        parameters.inner.der_control_base.op_mod_load_lim_w,
        data.controls[1].der_control.der_control_base.op_mod_load_lim_w
    );
    assert_eq!(
        parameters.inner.der_control_base.op_mod_target_w,
        data.controls[2].der_control.der_control_base.op_mod_target_w
    );
    assert_eq!(parameters.num_active(), 4);
}

#[test]
fn parameters_combines_controls() {
    // Attributes from controls and defaults are merged, the earlier control
    // winning where both set an attribute.
    let data = mock_controls();
    let ordered_controls = mock_ordered_controls(&data);
    let parameters = calc_parameters_for_controls(ordered_controls, data.time_all_active).unwrap();
    let mut expected = DefaultDERControl::empty();
    expected.der_control_base.op_mod_connect = Some(true);
    expected.der_control_base.op_mod_imp_lim_w = data.controls[0].der_control.der_control_base.op_mod_imp_lim_w;
    expected.der_control_base.op_mod_gen_lim_w = data.controls[0].der_control.der_control_base.op_mod_gen_lim_w;
    expected.der_control_base.op_mod_load_lim_w = data.controls[1].der_control.der_control_base.op_mod_load_lim_w;
    expected.der_control_base.op_mod_target_w = data.controls[2].der_control.der_control_base.op_mod_target_w;
    assert_eq!(parameters, ControlAttributes::new(expected));
}

#[test]
fn control_active_from_its_start_until_before_its_end() {
    let data = mock_controls();
    let only_first = vec![ControlRef::Scheduled(&data.controls[0])];
    let start = data.controls[0].start_time;
    let end = data.controls[0].end_time();
    assert_eq!(calc_parameters_for_controls(only_first, start).unwrap().num_active(), 2);
    let only_first = vec![ControlRef::Scheduled(&data.controls[0])];
    assert_eq!(calc_parameters_for_controls(only_first, end - 1).unwrap().num_active(), 2);
    let only_first = vec![ControlRef::Scheduled(&data.controls[0])];
    assert_eq!(calc_parameters_for_controls(only_first, end).unwrap().num_active(), 0);
    let only_first = vec![ControlRef::Scheduled(&data.controls[0])];
    assert_eq!(calc_parameters_for_controls(only_first, start - 1).unwrap().num_active(), 0);
}
