use sep2_bridge::attributes::{overlay_controls, ControlAttributes};
use sep2_bridge::sep2_types::{ActivePower, DefaultDERControl, PowerOfTenMultiplierType};

fn some_controls() -> DefaultDERControl {
    let mut c = DefaultDERControl::empty();
    c.der_control_base.op_mod_connect = Some(false);
    c.der_control_base.op_mod_imp_lim_w = Some(ActivePower { multiplier: PowerOfTenMultiplierType::Kilo, value: 5 });
    c.set_grad_w = Some(7);
    c
}

fn other_controls() -> DefaultDERControl {
    let mut c = DefaultDERControl::empty();
    c.der_control_base.op_mod_connect = Some(true);
    c.der_control_base.op_mod_energize = Some(true);
    c.set_es_delay = Some(300);
    c
}

#[test]
fn overlay_with_nothing_changes_nothing() {
    assert_eq!(overlay_controls(some_controls(), DefaultDERControl::empty()), some_controls());
    assert_eq!(overlay_controls(DefaultDERControl::empty(), some_controls()), some_controls());
}

#[test]
fn first_controls_take_precedence() {
    let merged = overlay_controls(some_controls(), other_controls());
    assert_eq!(merged.der_control_base.op_mod_connect, Some(false));
    assert_eq!(merged.der_control_base.op_mod_energize, Some(true));
    assert_eq!(merged.set_es_delay, Some(300));
    assert_eq!(merged.set_grad_w, Some(7));
}

#[test]
fn overlay_is_associative_and_idempotent() {
    let a = some_controls();
    let b = other_controls();
    let mut c = DefaultDERControl::empty();
    c.set_soft_grad_w = Some(3);
    c.der_control_base.op_mod_energize = Some(false);
    assert_eq!(
        overlay_controls(overlay_controls(a.clone(), b.clone()), c.clone()),
        overlay_controls(a.clone(), overlay_controls(b, c))
    );
    assert_eq!(overlay_controls(a.clone(), a.clone()), a);
}

#[test]
fn merged_count_lies_between_max_and_sum() {
    let a = ControlAttributes::new(some_controls());
    let b = ControlAttributes::new(other_controls());
    let merged = ControlAttributes::new(overlay_controls(some_controls(), other_controls()));
    assert_eq!(a.num_active(), 3);
    assert_eq!(b.num_active(), 3);
    assert_eq!(merged.num_active(), 5);
}

#[test]
fn nothing_set_counts_zero() {
    assert_eq!(ControlAttributes::empty().num_active(), 0);
}
