use sep2_bridge::attributes::ControlAttributes;
use sep2_bridge::device_writes::{
    droop_write, needs_703_hz_sf, needs_703_v_sf, needs_704_sfs, pfw_offsets, trip_curves_writes,
    volt_curve_writes, volt_var_extras, writes_703, writes_704, Sfs704, TripLayout, VoltLayout,
};
use sep2_bridge::modbus_connection::{Curve, Model711Ctl, Parameters};
use sep2_bridge::sunspec::model703::Es;
use sep2_bridge::ScaledValue;

fn no_parameters() -> Parameters {
    Parameters::try_from(&ControlAttributes::empty()).unwrap()
}

#[test]
fn enter_service_values_rescaled_to_the_device() {
    let mut p = no_parameters();
    p.es = Some(Es::Enabled);
    // 24.50% at hundredths, a device using tenths.
    p.esv_hi = Some(ScaledValue::new(2450, -2));
    p.esv_lo = Some(ScaledValue::new(2000, -2));
    // 51.00 Hz at hundredths, a device using thousandths.
    p.es_hz_hi = Some(ScaledValue::new(5100, -2));
    p.es_dly_tms = Some(300);
    assert!(needs_703_v_sf(&p));
    assert!(needs_703_hz_sf(&p));
    let w = writes_703(&p, Some(-1), Some(-3));
    assert_eq!(w.es, Some(Es::Enabled));
    assert_eq!(w.esv_hi, Some(245));
    assert_eq!(w.esv_lo, Some(200));
    assert_eq!(w.es_hz_hi, Some(51000));
    assert_eq!(w.es_hz_lo, None);
    assert_eq!(w.es_dly_tms, Some(300));
}

#[test]
fn missing_scale_factors_count_as_zero() {
    let mut p = no_parameters();
    p.esv_hi = Some(ScaledValue::new(2450, -2));
    p.es_hz_hi = Some(ScaledValue::new(5100, -2));
    let w = writes_703(&p, None, None);
    assert_eq!(w.esv_hi, Some(25));
    assert_eq!(w.es_hz_hi, Some(51));
}

#[test]
fn no_scale_factor_needed_without_values() {
    let p = no_parameters();
    assert!(!needs_703_v_sf(&p));
    assert!(!needs_703_hz_sf(&p));
    assert_eq!(needs_704_sfs(&p), (false, false, false, false, false));
}

#[test]
fn limits_rescaled_to_the_device() {
    let mut p = no_parameters();
    p.w_max_lim_pct = Some(ScaledValue::new(8000, -2));
    p.w_set_pct = Some(ScaledValue::new(-2500, -2));
    let w = writes_704(
        &p,
        Sfs704 { pf_sf: None, var_set_pct_sf: None, w_max_lim_pct_sf: Some(-1), w_set_pct_sf: Some(0), w_set_sf: None },
    );
    assert_eq!(w.w_max_lim_pct, Some(800));
    assert_eq!(w.w_set_pct, Some(-25));
    assert_eq!(w.w_set, None);
}

#[test]
fn power_factor_groups_follow_the_model() {
    assert_eq!(pfw_offsets(40000, 30, 5, 3), (40030, 40038));
}

fn curve() -> Curve<u16, i16> {
    Curve { points: vec![(9000, 50), (11000, -50)], sf_x: -2, sf_y: 0 }
}

#[test]
fn volt_curve_goes_to_the_second_curve() {
    let layout = VoltLayout { model_addr: 40000, model_len: 10, crv_len: 4, pt_len: 2 };
    let w = volt_curve_writes(&curve(), 2, 4, layout, -1, -1).unwrap();
    // The second curve starts after the fixed block and the first curve.
    assert_eq!(w.curve_addr, 40000 + 10 + (4 + 2 * 4));
    assert_eq!(w.act_pt, 2);
    assert_eq!(w.points, vec![(40022 + 4, 900, 500), (40022 + 6, 1100, -500)]);
}

#[test]
fn volt_curve_needs_two_curves_and_enough_points() {
    let layout = VoltLayout { model_addr: 40000, model_len: 10, crv_len: 4, pt_len: 2 };
    assert!(volt_curve_writes(&curve(), 1, 4, layout, 0, 0).is_none());
    assert!(volt_curve_writes(&curve(), 2, 1, layout, 0, 0).is_none());
    assert!(volt_curve_writes(&curve(), 2, 2, layout, 0, 0).is_some());
}

#[test]
fn volt_var_group_values_rescaled() {
    let mut p = no_parameters();
    p.der_volt_var_tms = Some(ScaledValue::new(500, -2));
    p.vref = Some(ScaledValue::new(2300, -1));
    let e = volt_var_extras(&p, 0, 0);
    assert_eq!(e.rsp_tms, Some(5));
    assert_eq!(e.v_ref, Some(230));
}

fn trip_curve() -> Curve<u16, u32> {
    Curve { points: vec![(50, 100), (70, 200)], sf_x: 0, sf_y: -2 }
}

#[test]
fn trip_curves_are_placed_in_the_second_set() {
    let layout = TripLayout {
        model_addr: 40000,
        model_len: 10,
        crv_len: 2,
        must_trip_len: 1,
        may_trip_len: 1,
        mom_cess_len: 1,
        pt_len: 2,
    };
    let c = trip_curve();
    let w = trip_curves_writes(Some(&c), None, Some(&c), 2, 3, layout, 0, -2);
    // A curve is its fixed group and three points of two registers.
    let curve_len = 1 + 2 * 3;
    let set_len = 2 + 3 * curve_len;
    let set_addr = 40000 + 10 + set_len;
    let must = w.must_trip.unwrap();
    assert_eq!(must.curve_addr, set_addr + 2);
    assert_eq!(must.points[0], (set_addr + 2 + 1, 50, 100));
    assert!(w.may_trip.is_none());
    assert_eq!(w.mom_cess.unwrap().curve_addr, set_addr + 2 + 2 * curve_len);
    assert!(w.adopt);
}

#[test]
fn trip_curves_not_adopted_without_room() {
    let layout = TripLayout {
        model_addr: 40000,
        model_len: 10,
        crv_len: 2,
        must_trip_len: 1,
        may_trip_len: 1,
        mom_cess_len: 1,
        pt_len: 2,
    };
    let c = trip_curve();
    assert!(!trip_curves_writes(Some(&c), Some(&c), None, 1, 3, layout, 0, 0).adopt);
    assert!(!trip_curves_writes(Some(&c), None, None, 2, 1, layout, 0, 0).adopt);
    assert!(!trip_curves_writes::<u16, u32>(None, None, None, 2, 3, layout, 0, 0).adopt);
}

#[test]
fn droop_goes_to_the_second_control() {
    let ctl = Model711Ctl {
        db_of: ScaledValue::new(360, -3),
        db_uf: ScaledValue::new(350, -3),
        k_of: ScaledValue::new(50, -3),
        k_uf: ScaledValue::new(40, -3),
        rsp_tms: ScaledValue::new(500, -2),
    };
    let w = droop_write(&ctl, 2, 40000, 12, 9, -2, -2, 0).unwrap();
    assert_eq!(w.offset, 40021);
    assert_eq!(w.db_of, 36);
    assert_eq!(w.db_uf, 35);
    assert_eq!(w.k_of, 5);
    assert_eq!(w.k_uf, 4);
    assert_eq!(w.rsp_tms, 5);
    assert!(droop_write(&ctl, 1, 40000, 12, 9, -2, -2, 0).is_none());
}
