use sep2_bridge::scheduler::memory::SchedulerMemory;
use sep2_bridge::scheduler::Event;
use sep2_bridge::sep2_model::{
    DERControlList, DERProgram, DERProgramList, EndDevice, EndDeviceList, FunctionSetAssignments,
    FunctionSetAssignmentsList, Lfdi, Sep2Model, Sep2ResourceEvent, update_is_acceptable,
};
use sep2_bridge::sep2_types::{
    DERControl, DERControlBase, DefaultDERControl, EventStatusType, PrimacyType, ResponseStatus,
};

fn lfdi() -> Lfdi {
    Lfdi { high: 7, low: 9 }
}

fn model_with_program() -> Sep2Model {
    let mut model = Sep2Model::new();
    model.apply_update(Sep2ResourceEvent::EndDeviceList(EndDeviceList {
        href: Some(String::from("/edev")),
        end_device: vec![EndDevice {
            lfdi: Some(lfdi()),
            sfdi: 1,
            href: Some(String::from("/edev/1")),
            function_set_assignments_list_link: Some(String::from("/edev/1/fsa")),
        }],
        poll_rate: None,
        all: 1,
        results: 1,
    }));
    model.apply_update(Sep2ResourceEvent::FunctionSetAssignmentsList(FunctionSetAssignmentsList {
        href: Some(String::from("/edev/1/fsa")),
        function_set_assignments: vec![FunctionSetAssignments {
            href: Some(String::from("/edev/1/fsa/1")),
            mrid: 0,
            der_program_list_link: Some(String::from("/edev/1/fsa/1/derp")),
        }],
        poll_rate: None,
        all: 1,
        results: 1,
    }));
    model.apply_update(Sep2ResourceEvent::DERProgramList(DERProgramList {
        href: Some(String::from("/edev/1/fsa/1/derp")),
        der_program: vec![DERProgram {
            href: Some(String::from("/derp/1")),
            mrid: 5,
            primacy: PrimacyType::NonContractualServiceProvider,
            default_der_control_link: Some(String::from("/derp/1/dderc")),
            der_control_list_link: Some(String::from("/derp/1/derc")),
            der_curve_list_link: None,
        }],
        poll_rate: None,
        all: 1,
        results: 1,
    }));
    model
}

fn default_with_grad(grad: u16) -> DefaultDERControl {
    let mut dderc = DefaultDERControl::empty();
    dderc.href = Some(String::from("/derp/1/dderc"));
    dderc.set_grad_w = Some(grad);
    dderc
}

#[test]
fn nothing_changes_on_an_empty_model() {
    let model = Sep2Model::new();
    let mut memory = SchedulerMemory::new();
    let r = memory.reschedule(&model, lfdi(), 1000);
    assert!(r.parameters.is_none());
    assert!(r.wake.is_none());
}

#[test]
fn new_parameters_are_reported_once() {
    let mut model = model_with_program();
    model.apply_update(Sep2ResourceEvent::DefaultDERControl(default_with_grad(42)));
    let mut memory = SchedulerMemory::new();
    let r = memory.reschedule(&model, lfdi(), 1000);
    assert_eq!(r.parameters.unwrap().inner.set_grad_w, Some(42));
    assert!(r.wake.is_none());
    // The same model at another instant gives the same parameters: nothing to report.
    let again = memory.reschedule(&model, lfdi(), 1001);
    assert!(again.parameters.is_none());
    assert!(again.wake.is_none());
    model.apply_update(Sep2ResourceEvent::DefaultDERControl(default_with_grad(43)));
    let changed = memory.reschedule(&model, lfdi(), 1002);
    assert_eq!(changed.parameters.unwrap().inner.set_grad_w, Some(43));
}

#[test]
fn a_scheduled_control_arranges_a_wake_up() {
    let mut model = model_with_program();
    let control = DERControl {
        mrid: 77,
        creation_time: 0,
        current_status: EventStatusType::Scheduled,
        interval_start: 5000,
        interval_duration: 600,
        randomize_duration: None,
        randomize_start: None,
        der_control_base: DERControlBase::empty(),
        reply_to: Some(String::from("/rsps/1")),
        response_required: Some(2),
        href: Some(String::from("/derp/1/derc/77")),
    };
    model.apply_update(Sep2ResourceEvent::DERControlList(DERControlList {
        href: Some(String::from("/derp/1/derc")),
        der_control: vec![control],
        all: 1,
        results: 1,
    }));
    let mut memory = SchedulerMemory::new();
    let r = memory.reschedule(&model, lfdi(), 1000);
    let (time, events) = r.wake.unwrap();
    assert_eq!(time, Some(5000));
    assert_eq!(
        events,
        vec![Event::DERControlStatusChanged {
            subject: 77,
            status: ResponseStatus::EventStarted,
            reply_to: String::from("/rsps/1"),
        }]
    );
    assert_eq!(memory.next_time, Some(5000));
    // Rescheduling before the start changes nothing.
    let again = memory.reschedule(&model, lfdi(), 2000);
    assert!(again.wake.is_none());
    // Once started, the wake-up moves to the end.
    let started = memory.reschedule(&model, lfdi(), 5000);
    assert_eq!(started.wake.unwrap().0, Some(5600));
}

fn control_at(start: i64, randomize_start: Option<i16>) -> DERControl {
    DERControl {
        mrid: 1,
        creation_time: 0,
        current_status: EventStatusType::Scheduled,
        interval_start: start,
        interval_duration: 60,
        randomize_duration: None,
        randomize_start,
        der_control_base: DERControlBase::empty(),
        reply_to: None,
        response_required: None,
        href: None,
    }
}

fn control_list(controls: Vec<DERControl>) -> Sep2ResourceEvent {
    Sep2ResourceEvent::DERControlList(DERControlList {
        href: Some(String::from("/derp/1/derc")),
        der_control: controls,
        all: 1,
        results: 1,
    })
}

#[test]
fn updates_that_cannot_be_randomised_are_refused() {
    let model = Sep2Model::new();
    let second = |start: i64| DERControl { mrid: 2, ..control_at(start, None) };
    assert!(update_is_acceptable(&model, &control_list(vec![control_at(1000, Some(30))])));
    assert!(!update_is_acceptable(&model, &control_list(vec![control_at(1000, Some(-30))])));
    assert!(!update_is_acceptable(&model, &control_list(vec![control_at(1000, None), second(i64::MAX - 10)])));
    assert!(!update_is_acceptable(&model, &control_list(vec![control_at(i64::MIN + 10, Some(30))])));
    // With no randomisation, a start at the very bottom of the range is fine.
    assert!(update_is_acceptable(&model, &control_list(vec![control_at(i64::MIN, None)])));
    assert!(update_is_acceptable(&model, &Sep2ResourceEvent::DefaultDERControl(default_with_grad(1))));
}

#[test]
fn known_controls_are_updated_whatever_their_randomisation() {
    let mut model = Sep2Model::new();
    model.apply_update(control_list(vec![control_at(1000, Some(30))]));
    let resent = control_list(vec![control_at(1000, Some(-30))]);
    assert!(update_is_acceptable(&model, &resent));
    assert!(model.apply_update(resent).is_empty());
    // Later in the same list, a control is known too.
    let fresh = Sep2Model::new();
    assert!(update_is_acceptable(
        &fresh,
        &control_list(vec![control_at(1000, Some(30)), control_at(1000, Some(-30))])
    ));
}
