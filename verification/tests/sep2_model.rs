use sep2_bridge::clock::now_timestamp;
use sep2_bridge::scheduler::{calc_next_schedule_time, calc_parameters, Event};
use sep2_bridge::sep2_model::{
    ControlRef, DERControlList, DERCurveList, DERProgram, DERProgramList, EndDevice, EndDeviceList,
    FunctionSetAssignments, FunctionSetAssignmentsList, Lfdi, Sep2Model, Sep2ResourceEvent, Time,
};
use sep2_bridge::sep2_types::{
    CurveData, DERControl, DERControlBase, DERCurve, DERCurveLink, DERUnitRefType, DefaultDERControl,
    EventStatusType, PowerOfTenMultiplierType, PrimacyType, ResponseStatus,
};
use sep2_bridge::ResourceKind;

fn mock_lfdi() -> Lfdi {
    // The LFDI 00112233445566, padded on the left to 160 bits.
    Lfdi { high: 0x0011_22, low: 0x3344_5566 }
}

fn mock_sfdi() -> u64 {
    42
}

fn mock_edev_list(lfdi: Lfdi, sfdi: u64) -> EndDeviceList {
    EndDeviceList {
        href: Some(String::from("/edev")),
        end_device: vec![EndDevice {
            lfdi: Some(lfdi),
            sfdi,
            href: Some(String::from("/edev/1")),
            function_set_assignments_list_link: Some(String::from("/edev/1/fsa")),
        }],
        poll_rate: None,
        all: 1,
        results: 1,
    }
}

fn mock_fsa_list() -> FunctionSetAssignmentsList {
    FunctionSetAssignmentsList {
        href: Some(String::from("/edev/1/fsa")),
        function_set_assignments: vec![FunctionSetAssignments {
            href: Some(String::from("/edev/1/fsa/1")),
            mrid: 0,
            der_program_list_link: Some(String::from("/edev/1/fsa/1/derp")),
        }],
        poll_rate: None,
        all: 1,
        results: 1,
    }
}

fn mock_program() -> DERProgram {
    DERProgram {
        href: Some(String::from("/edev/1/derp/1")),
        mrid: 123,
        primacy: PrimacyType::NonContractualServiceProvider,
        default_der_control_link: Some(String::from("/edev/1/derp/1/dderc")),
        der_control_list_link: Some(String::from("/edev/1/derp/1/derc")),
        der_curve_list_link: None,
    }
}

fn mock_derp_list() -> DERProgramList {
    DERProgramList {
        href: Some(String::from("/edev/1/fsa/1/derp")),
        der_program: vec![mock_program()],
        poll_rate: None,
        all: 1,
        results: 1,
    }
}

fn mock_derc_list(controls: Vec<DERControl>) -> DERControlList {
    let count = controls.len() as u32;
    DERControlList {
        href: Some(String::from("/edev/1/derp/1/derc")),
        der_control: controls,
        all: count,
        results: count,
    }
}

fn mock_dderc() -> DefaultDERControl {
    let mut dderc = DefaultDERControl::empty();
    dderc.href = Some(String::from("/edev/1/derp/1/dderc"));
    dderc.set_grad_w = Some(42);
    dderc
}

fn plain_control(mrid: u128) -> DERControl {
    DERControl {
        mrid,
        creation_time: 0,
        current_status: EventStatusType::Scheduled,
        interval_start: 0,
        interval_duration: 0,
        randomize_duration: None,
        randomize_start: None,
        der_control_base: DERControlBase::empty(),
        reply_to: None,
        response_required: None,
        href: None,
    }
}

fn mock_control_with_status(status: EventStatusType) -> DERControl {
    let now = now_timestamp();
    DERControl {
        href: Some(String::from("/edev/1/derp/1/derc/1")),
        current_status: status,
        // MessageReceived and SpecificResponse.
        response_required: Some(1 | 2),
        reply_to: Some(String::from("/edev/1/derp/1/derc/1")),
        // Default to starting an hour from now
        interval_start: now + 3600,
        interval_duration: 300,
        ..plain_control(42)
    }
}

fn all_emitted_responses(events: &[Event]) -> Vec<ResponseStatus> {
    events
        .iter()
        .filter_map(|event| match event {
            Event::DERControlStatusChanged { status, .. } => Some(*status),
            _ => None,
        })
        .collect()
}

fn setup_model_with_mocks(model: &mut Sep2Model) -> Vec<Event> {
    let lfdi = mock_lfdi();
    let sfdi = mock_sfdi();
    let derc = mock_control_with_status(EventStatusType::Scheduled);

    let mut events = model.apply_update(Sep2ResourceEvent::EndDeviceList(mock_edev_list(lfdi, sfdi)));
    events.extend(model.apply_update(Sep2ResourceEvent::FunctionSetAssignmentsList(mock_fsa_list())));
    events.extend(model.apply_update(Sep2ResourceEvent::DERProgramList(mock_derp_list())));
    events.extend(model.apply_update(Sep2ResourceEvent::DERControlList(mock_derc_list(vec![derc]))));
    events.extend(model.apply_update(Sep2ResourceEvent::DefaultDERControl(mock_dderc())));
    events
}

#[test]
fn find_device_by_lfdi() {
    let mut model = Sep2Model::new();

    let lfdi = mock_lfdi();
    let sfdi = mock_sfdi();
    model.apply_update(Sep2ResourceEvent::EndDeviceList(mock_edev_list(lfdi, sfdi)));

    let edev = model.get_end_device(lfdi).expect("End device not found");

    assert_eq!(edev.lfdi, Some(lfdi));
    assert_eq!(edev.sfdi, sfdi);
}

#[test]
fn add_multiple_controls() {
    let mut model = Sep2Model::new();

    let mrid1: u128 = 42;
    let mrid2: u128 = 56;
    let href = String::from("/edev/1/derp/1/derc");
    let derc_list = DERControlList {
        der_control: vec![plain_control(mrid1), plain_control(mrid2)],
        all: 2,
        results: 2,
        href: Some(href.clone()),
    };

    model.apply_update(Sep2ResourceEvent::DERControlList(derc_list));

    assert!(model.controls.get(&mrid1).is_some());
    assert!(model.controls.get(&mrid2).is_some());

    let applied_derc_list = model
        .control_lists
        .get(&href)
        .expect("DERControlList not found in model after appplying it");
    assert_eq!(applied_derc_list.items.len(), 2);
}

#[test]
fn adding_a_control_emits_an_acknowledgment() {
    let mut model = Sep2Model::new();

    let events = model.apply_update(Sep2ResourceEvent::DERControlList(mock_derc_list(vec![
        mock_control_with_status(EventStatusType::Scheduled),
    ])));

    assert_eq!(all_emitted_responses(&events), vec![ResponseStatus::EventReceived]);
}

#[test]
fn cancelling_a_control_emits_event() {
    let mut model = Sep2Model::new();
    // Add initial control
    model.apply_update(Sep2ResourceEvent::DERControlList(mock_derc_list(vec![
        mock_control_with_status(EventStatusType::Scheduled),
    ])));
    // Then change status
    let events = model.apply_update(Sep2ResourceEvent::DERControlList(mock_derc_list(vec![
        mock_control_with_status(EventStatusType::Cancelled),
    ])));

    assert_eq!(all_emitted_responses(&events), vec![ResponseStatus::EventCancelled]);
}

#[test]
fn superseding_a_control_emits_event() {
    let mut model = Sep2Model::new();
    // Add initial control
    model.apply_update(Sep2ResourceEvent::DERControlList(mock_derc_list(vec![
        mock_control_with_status(EventStatusType::Scheduled),
    ])));
    // Then change status
    let events = model.apply_update(Sep2ResourceEvent::DERControlList(mock_derc_list(vec![
        mock_control_with_status(EventStatusType::Superseded),
    ])));

    assert_eq!(all_emitted_responses(&events), vec![ResponseStatus::EventSuperseded]);
}

#[test]
fn adding_a_control_already_started_emits_started_event() {
    let mut model = Sep2Model::new();

    let mut derc = mock_control_with_status(EventStatusType::Active);
    let now = now_timestamp();
    derc.interval_start = now - 15;

    let events = model.apply_update(Sep2ResourceEvent::DERControlList(mock_derc_list(vec![derc])));
    assert_eq!(
        all_emitted_responses(&events),
        vec![ResponseStatus::EventReceived, ResponseStatus::EventStarted]
    );
}

#[test]
fn idempotent_changes_emit_no_events() {
    let mut model = Sep2Model::new();

    setup_model_with_mocks(&mut model);
    // Apply same objects a second time.
    let events = setup_model_with_mocks(&mut model);

    assert!(events.is_empty());
}

#[test]
fn a_repeated_program_list_is_reported_by_nothing() {
    let mut model = Sep2Model::new();
    setup_model_with_mocks(&mut model);
    let first = model.apply_update(Sep2ResourceEvent::DERProgramList(DERProgramList {
        poll_rate: Some(60),
        ..mock_derp_list()
    }));
    assert!(!first.is_empty());
    let second = model.apply_update(Sep2ResourceEvent::DERProgramList(DERProgramList {
        poll_rate: Some(60),
        ..mock_derp_list()
    }));
    assert!(second.is_empty());
}

#[test]
fn a_list_holding_one_control_twice_reports_its_last_status_again() {
    let mut model = Sep2Model::new();
    let list = || {
        mock_derc_list(vec![
            mock_control_with_status(EventStatusType::Scheduled),
            mock_control_with_status(EventStatusType::Cancelled),
        ])
    };
    let first = model.apply_update(Sep2ResourceEvent::DERControlList(list()));
    assert_eq!(
        all_emitted_responses(&first),
        vec![ResponseStatus::EventReceived, ResponseStatus::EventCancelled]
    );
    let second = model.apply_update(Sep2ResourceEvent::DERControlList(list()));
    assert_eq!(all_emitted_responses(&second), vec![ResponseStatus::EventCancelled]);
}

#[test]
fn program_list_changes_reach_its_children() {
    let mut model = Sep2Model::new();
    setup_model_with_mocks(&mut model);

    let children = [
        ("/edev/1/derp/1", ResourceKind::DERProgram),
        ("/edev/1/derp/1/dderc", ResourceKind::DefaultDERControl),
        ("/edev/1/derp/1/derc", ResourceKind::DERControlList),
        ("/edev/1/derp/1/derc/1", ResourceKind::DERControl),
    ];
    let program_list = ("/edev/1/fsa/1/derp", ResourceKind::DERProgramList);

    // Changing the list's poll rate announces it and everything below it
    // with the new rate.
    let events = model.apply_update(Sep2ResourceEvent::DERProgramList(DERProgramList {
        poll_rate: Some(60),
        ..mock_derp_list()
    }));
    let expected: Vec<_> = children
        .into_iter()
        .chain([program_list])
        .map(|(href, kind)| Event::LinkAddedOrUpdated { href: String::from(href), kind, poll_rate: Some(60) })
        .collect();
    assert_eq!(events, expected);

    // Removing the program from the list means everything below it is no
    // longer needed.
    let events = model.apply_update(Sep2ResourceEvent::DERProgramList(DERProgramList {
        poll_rate: Some(60),
        der_program: Vec::new(),
        all: 0,
        results: 0,
        ..mock_derp_list()
    }));
    let expected: Vec<_> = children
        .into_iter()
        .map(|(href, kind)| Event::LinkRemoved { href: String::from(href), kind })
        .collect();
    assert_eq!(events, expected);
}

#[test]
fn controls_ordered_by_primacy() {
    // Setup a model and add a set of mocks.
    let mut model = Sep2Model::new();

    setup_model_with_mocks(&mut model);
    let now = now_timestamp();

    // Check the known controls - should see only one active control and one default control for the only program.
    {
        let ordered_controls = model.all_controls_for_device(mock_lfdi(), now).unwrap();
        assert_eq!(ordered_controls.len(), 2);
        let expected_control = mock_control_with_status(EventStatusType::Scheduled);
        let Some(ControlRef::Scheduled(control)) = ordered_controls.first() else {
            panic!("Did not find active control in index 0");
        };
        assert_eq!(control.der_control.mrid, expected_control.mrid);
        let Some(ControlRef::Default(_)) = ordered_controls.get(1) else {
            panic!("Did not find default control in index 1");
        };
    }

    // Now add another program with a higher primacy.
    let derp2 = DERProgram {
        href: Some(String::from("/edev/1/derp/2")),
        // Deliberately leaving out the default link.
        default_der_control_link: None,
        der_control_list_link: Some(String::from("/edev/1/derp/2/derc")),
        der_curve_list_link: None,
        mrid: 321,
        primacy: PrimacyType::InHomeEnergyManagementSystem,
    };
    let mut derp_list = mock_derp_list();
    derp_list.all = 2;
    derp_list.results = 2;
    derp_list.der_program.push(derp2);

    model.apply_update(Sep2ResourceEvent::DERProgramList(derp_list));

    // At this point there is a new program with a link to a DERControlList
    // that doesn't exist yet. Ensure that we get the same set of controls as before.
    {
        let ordered_controls = model.all_controls_for_device(mock_lfdi(), now).unwrap();
        assert_eq!(ordered_controls.len(), 2);
    }

    // Now add the DERControlList containing:
    // - a new control in the future,
    // - a cancelled control in the future,
    // - a superseded control in the future,
    // - a historical control.
    let derc_scheduled = DERControl { mrid: 1001, ..mock_control_with_status(EventStatusType::Scheduled) };
    let derc_cancelled = DERControl { mrid: 1002, ..mock_control_with_status(EventStatusType::Cancelled) };
    let derc_superseded = DERControl { mrid: 1003, ..mock_control_with_status(EventStatusType::Superseded) };
    let derc_historical = DERControl {
        mrid: 1004,
        interval_start: now - 3600,
        interval_duration: 300,
        ..mock_control_with_status(EventStatusType::Scheduled)
    };
    let derc_list = DERControlList {
        href: Some(String::from("/edev/1/derp/2/derc")),
        ..mock_derc_list(vec![
            derc_scheduled.clone(),
            derc_cancelled.clone(),
            derc_superseded.clone(),
            derc_historical.clone(),
        ])
    };
    model.apply_update(Sep2ResourceEvent::DERControlList(derc_list));

    // Now we expect to see a third control, which is in first place. The
    // cancelled, superseded and historical controls should not appear.
    {
        let ordered_controls = model.all_controls_for_device(mock_lfdi(), now).unwrap();
        assert_eq!(ordered_controls.len(), 3);
        let Some(ControlRef::Scheduled(control)) = ordered_controls.first() else {
            panic!("Did not find active control in index 0");
        };
        assert_eq!(control.der_control.mrid, derc_scheduled.mrid);
        let mrids: Vec<_> = ordered_controls
            .iter()
            .filter_map(|control| match control {
                ControlRef::Scheduled(control) => Some(control.der_control.mrid),
                ControlRef::Default(_) => None,
            })
            .collect();
        assert!(!mrids.contains(&derc_cancelled.mrid));
        assert!(!mrids.contains(&derc_superseded.mrid));
        assert!(!mrids.contains(&derc_historical.mrid));
    }
}

#[test]
fn later_created_controls_come_first_within_a_primacy() {
    let mut model = Sep2Model::new();
    setup_model_with_mocks(&mut model);
    let now = now_timestamp();
    let older = DERControl { mrid: 7, creation_time: 100, ..mock_control_with_status(EventStatusType::Scheduled) };
    let newer = DERControl { mrid: 8, creation_time: 200, ..mock_control_with_status(EventStatusType::Active) };
    model.apply_update(Sep2ResourceEvent::DERControlList(mock_derc_list(vec![older, newer])));
    let ordered: Vec<_> = model
        .all_controls_for_device(mock_lfdi(), now)
        .unwrap()
        .iter()
        .map(|c| match c {
            ControlRef::Scheduled(s) => Some(s.der_control.mrid),
            ControlRef::Default(_) => None,
        })
        .collect();
    assert_eq!(ordered, vec![Some(8), Some(7), None]);
}

#[test]
fn no_controls_for_an_unknown_device() {
    let mut model = Sep2Model::new();
    setup_model_with_mocks(&mut model);
    let other = Lfdi { high: 1, low: 2 };
    assert!(model.all_controls_for_device(other, now_timestamp()).unwrap().is_empty());
}

#[test]
fn known_control_keeps_its_realised_interval() {
    let mut model = Sep2Model::new();
    let mut derc = mock_control_with_status(EventStatusType::Scheduled);
    derc.randomize_start = Some(100);
    derc.randomize_duration = Some(50);
    let start = derc.interval_start;
    model.apply_update(Sep2ResourceEvent::DERControlList(mock_derc_list(vec![derc.clone()])));
    let first = model.controls.get(&42).unwrap();
    let (realised_start, realised_duration) = (first.start_time, first.duration);
    assert!(start - 100 <= realised_start && realised_start <= start + 100);
    assert!(250 <= realised_duration && realised_duration <= 350);
    model.apply_update(Sep2ResourceEvent::DERControlList(mock_derc_list(vec![derc])));
    let second = model.controls.get(&42).unwrap();
    assert_eq!((second.start_time, second.duration), (realised_start, realised_duration));
}

#[test]
fn time_link_is_polled_once_known() {
    let mut model = Sep2Model::new();
    let events = model.apply_update(Sep2ResourceEvent::Time(Time {
        href: Some(String::from("/tm")),
        poll_rate: Some(900),
        current_time: 0,
        tz_offset: 0,
    }));
    assert_eq!(
        events,
        vec![Event::LinkAddedOrUpdated { href: String::from("/tm"), kind: ResourceKind::Time, poll_rate: Some(900) }]
    );
}

#[test]
fn resources_without_href_are_ignored() {
    let mut model = Sep2Model::new();
    let mut list = mock_derc_list(vec![mock_control_with_status(EventStatusType::Scheduled)]);
    list.href = None;
    let events = model.apply_update(Sep2ResourceEvent::DERControlList(list));
    assert!(events.is_empty());
    assert!(model.controls.get(&42).is_none());
}

fn mock_curve(mrid: u128, href: &str) -> DERCurve {
    DERCurve {
        mrid,
        autonomous_v_ref_enable: None,
        autonomous_v_ref_time_constant: None,
        creation_time: 0,
        curve_data: vec![CurveData { excitation: None, xvalue: 1, yvalue: 2 }],
        open_loop_tms: None,
        v_ref: None,
        x_multiplier: PowerOfTenMultiplierType::Unit,
        y_multiplier: PowerOfTenMultiplierType::Unit,
        y_ref_type: DERUnitRefType::NotApplicable,
        href: Some(String::from(href)),
    }
}

#[test]
fn curves_are_found_by_href() {
    let mut model = Sep2Model::new();
    model.apply_update(Sep2ResourceEvent::DERCurveList(DERCurveList {
        href: Some(String::from("/edev/1/derp/1/dc")),
        der_curve: vec![mock_curve(1, "/edev/1/derp/1/dc/1"), mock_curve(2, "/edev/1/derp/1/dc/2")],
        all: 2,
        results: 2,
    }));
    assert_eq!(model.get_curve_by_href(&String::from("/edev/1/derp/1/dc/2")).map(|c| c.mrid), Some(2));
    assert!(model.get_curve_by_href(&String::from("/edev/1/derp/1/dc/3")).is_none());
}

#[test]
fn parameters_carry_the_linked_curves() {
    let mut model = Sep2Model::new();
    setup_model_with_mocks(&mut model);
    let mut program = mock_program();
    program.der_curve_list_link = Some(String::from("/edev/1/derp/1/dc"));
    model.apply_update(Sep2ResourceEvent::DERProgramList(DERProgramList {
        der_program: vec![program],
        ..mock_derp_list()
    }));
    model.apply_update(Sep2ResourceEvent::DERCurveList(DERCurveList {
        href: Some(String::from("/edev/1/derp/1/dc")),
        der_curve: vec![mock_curve(1001, "/edev/1/derp/1/dc/1")],
        all: 1,
        results: 1,
    }));
    let mut dderc = mock_dderc();
    dderc.der_control_base.op_mod_hfrt_must_trip = Some(DERCurveLink { href: String::from("/edev/1/derp/1/dc/1") });
    model.apply_update(Sep2ResourceEvent::DefaultDERControl(dderc));

    let parameters = calc_parameters(&model, mock_lfdi(), now_timestamp()).unwrap();
    assert_eq!(parameters.num_active(), 2);
    assert_eq!(parameters.inner.set_grad_w, Some(42));
    assert_eq!(parameters.curves.len(), 1);
    assert_eq!(parameters.curves[0].0, "/edev/1/derp/1/dc/1");
    assert_eq!(parameters.curves[0].1.mrid, 1001);
}

#[test]
fn next_schedule_time_is_the_start_of_the_control() {
    let mut model = Sep2Model::new();
    setup_model_with_mocks(&mut model);
    let now = now_timestamp();
    let (time, events) = calc_next_schedule_time(&model, mock_lfdi(), now).unwrap();
    let start = model.controls.get(&42).unwrap().start_time;
    assert_eq!(time, Some(start));
    assert_eq!(all_emitted_responses(&events), vec![ResponseStatus::EventStarted]);
}

#[test]
fn a_realised_duration_past_what_32_bits_hold_wraps() {
    let mut model = Sep2Model::new();
    let control = DERControl { interval_duration: u32::MAX, randomize_duration: Some(10), ..plain_control(5) };
    let events = model.set_der_control_at(control, 0, (0, 10));
    assert!(events.is_empty());
    assert_eq!(model.controls.get(&5).map(|c| c.duration), Some(9));
}

#[test]
fn a_known_control_is_updated_whatever_its_randomisation() {
    let mut model = Sep2Model::new();
    model.set_der_control_at(mock_control_with_status(EventStatusType::Scheduled), 0, (0, 0));
    let resent = DERControl {
        randomize_start: Some(-30),
        ..mock_control_with_status(EventStatusType::Cancelled)
    };
    let events = model.set_der_control(resent);
    assert_eq!(all_emitted_responses(&events), vec![ResponseStatus::EventCancelled]);
}
