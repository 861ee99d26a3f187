use sep2_bridge::attributes::ControlAttributes;
use sep2_bridge::modbus_connection::{
    Capabilities as ModbusCapabilities, Metering as ModbusMetering, Model711Ctl, Parameters as ModbusParameters,
    PhaseReference, Settings as ModbusSettings, Status as ModbusStatus, VoltageWithReference,
};
use sep2_bridge::sep2_types::{
    ActivePower, DERCapability, DERSettings, DERStatus, DefaultDERControl, FreqDroopType, Percent,
    PowerOfTenMultiplierType, SignedPercent, StateOfChargeStatusType,
};
use sep2_bridge::sunspec::model701::{Alrm, ConnSt, St};
use sep2_bridge::translation::{
    hundredths_to_seconds, mandatory_active_power, mirror_meter_readings, multiplier_exponent,
    multiplier_from_exponent, operational_mode, to_active_power, to_power_factor, Error, NamedError,
    SEP2_HUNDREDTHS_SF,
};
use sep2_bridge::ScaledValue;

fn attributes(inner: DefaultDERControl) -> ControlAttributes {
    ControlAttributes::new(inner)
}

#[test]
fn missing_mandatory_fails() {
    let result = mandatory_active_power(None);
    assert!(matches!(result, Err(Error::MandatoryNone)));
}

#[test]
fn mandatory_conversion() {
    let result = mandatory_active_power(Some(0));
    assert!(result.is_ok());
}

#[test]
fn options_none() {
    let result = to_active_power(None);
    assert!(matches!(result, Ok(None)));

    let result = to_power_factor(None);
    assert!(result.is_none());
}

#[test]
fn options_some() {
    let result = to_active_power(Some(0));
    assert!(matches!(result, Ok(Some(_))));

    let result = to_power_factor(Some(0));
    assert!(result.is_some());
}

#[test]
fn invalid_value_fails() {
    let result = operational_mode(St::Invalid(0), 0);
    assert!(matches!(result, Err(Error::UnmappableInvalid)));
}

#[test]
fn errors_should_include_name() {
    let status = ModbusStatus { st: Some(St::Invalid(0)), conn_st: None, alrm: None, soc: None };

    let result = DERStatus::try_from(status);
    assert!(
        matches!(result, Err(NamedError { kind: Error::UnmappableInvalid, name }) if name == "operational_mode_status")
    );

    let err = result.unwrap_err();
    assert!(err.to_string().contains("operational_mode_status"));
}

#[test]
fn settings() {
    let settings = ModbusSettings { esv_hi: Some(ScaledValue::new(42, SEP2_HUNDREDTHS_SF)) };

    let result = DERSettings::try_from(settings);
    assert!(result.is_ok());
}

/// Test translation of scale factor to SEP2.
#[test]
fn settings_rescaled_to_sep2() {
    // A value of 24.5% translated.
    let settings = ModbusSettings { esv_hi: Some(ScaledValue::new(245, -1)) };

    let result = DERSettings::try_from(settings).expect("Translation failed");
    assert_eq!(result.set_es_high_volt, Some(2450));
}

#[test]
fn status() {
    let status = ModbusStatus {
        st: Some(St::On),
        conn_st: Some(ConnSt::Connected),
        alrm: Some(Alrm { bits: Alrm::AC_OVER_VOLT }),
        soc: Some(ScaledValue::new(42, SEP2_HUNDREDTHS_SF)),
    };

    let result = DERStatus::try_from(status);
    assert!(result.is_ok());
}

/// SEP2 fixes the state of charge at hundredths of a percent, so whatever
/// scale the device reports it at has to be converted, not passed through.
#[test]
fn soc_rescaled_to_sep2() {
    // A device reporting whole percent: 10% is 1000 hundredths.
    let soc = StateOfChargeStatusType::from_scaled(ScaledValue::new(10u16, 0), 0);
    assert_eq!(soc.value.get(), 1000);

    // A device already reporting hundredths passes through unchanged.
    let soc = StateOfChargeStatusType::from_scaled(ScaledValue::new(5000u16, -2), 0);
    assert_eq!(soc.value.get(), 5000);

    // And one reporting tenths of a percent.
    let soc = StateOfChargeStatusType::from_scaled(ScaledValue::new(505u16, -1), 0);
    assert_eq!(soc.value.get(), 5050);
}

/// An out of range state of charge should clamp to 100% rather than being None.
#[test]
fn soc_out_of_range_clamps_to_full() {
    let soc = StateOfChargeStatusType::from_scaled(ScaledValue::new(700u16, 0), 0);
    assert_eq!(soc.value.get(), 10_000);
    let soc = StateOfChargeStatusType::from_scaled(ScaledValue::new(101u16, 0), 0);
    assert_eq!(soc.value.get(), 10_000);
}

fn mock_capabilities() -> ModbusCapabilities {
    ModbusCapabilities {
        w_max_rtg: Some(42),
        w_ovr_ext_rtg: Some(43),
        w_ovr_ext_rtg_pf: Some(1),
        w_und_ext_rtg: Some(44),
        w_und_ext_rtg_pf: Some(2),
        va_max_rtg: Some(45),
        var_max_inj_rtg: Some(46),
        var_max_abs_rtg: Some(47),
        w_cha_rte_max_rtg: Some(48),
        va_cha_rte_max_rtg: Some(49),
        v_nom_rtg: Some(50),
        v_max_rtg: Some(51),
        v_min_rtg: Some(52),
        ctrl_modes: None,
        react_suscept_rtg: Some(53),
    }
}

#[test]
fn capabilities() {
    let result = DERCapability::try_from(mock_capabilities());
    assert!(result.is_ok());
}

#[test]
fn capabilities_need_a_maximum_rating() {
    let mut capabilities = mock_capabilities();
    capabilities.w_max_rtg = None;
    let result = DERCapability::try_from(capabilities);
    assert!(matches!(result, Err(NamedError { kind: Error::MandatoryNone, name }) if name == "w_max_rtg"));
}

#[test]
fn capability_values_carry_over() {
    let result = DERCapability::try_from(mock_capabilities()).unwrap();
    assert_eq!(result.rtg_max_w, ActivePower { multiplier: PowerOfTenMultiplierType::Unit, value: 42 });
    assert_eq!(result.modes_supported, 0);
}

fn mock_metering() -> ModbusMetering {
    ModbusMetering {
        w: Some(42),
        wl1: None,
        wl2: None,
        wl3: None,
        w_sf: Some(-1),
        var: Some(45),
        var_sf: Some(1),
        voltages: vec![VoltageWithReference(10000, PhaseReference::VL1L2)],
        v_sf: Some(0),
        hz: Some(60),
        hz_sf: None,
    }
}

#[test]
fn metering() {
    let result = mirror_meter_readings(&mock_metering());
    assert!(result.is_ok());
}

#[test]
fn parameters() {
    let mut inner = DefaultDERControl::empty();
    inner.der_control_base.op_mod_connect = Some(true);
    inner.set_es_delay = Some(42);
    let parameters = attributes(inner);

    let result = ModbusParameters::try_from(&parameters);
    assert!(result.is_ok());
}

/// Every value handed to the modbus side must carry the scale factor SEP2
/// defines it at, so that it can be rescaled to whatever the device wants.
#[test]
fn parameters_carry_sep2_scale_factors() {
    let mut inner = DefaultDERControl::empty();
    inner.der_control_base.op_mod_max_lim_w = Some(Percent::new(8000).expect("Invalid percent"));
    inner.der_control_base.op_mod_fixed_w = Some(SignedPercent::new(-2500).expect("Invalid percent"));
    // 24.50% and 20.00% of nominal voltage.
    inner.set_es_high_volt = Some(2450);
    inner.set_es_low_volt = Some(2000);
    // 51.00 Hz and 49.00 Hz.
    inner.set_es_high_freq = Some(5100);
    inner.set_es_low_freq = Some(4900);
    let parameters = attributes(inner);

    let result = ModbusParameters::try_from(&parameters).expect("Translation failed");

    assert_eq!(result.esv_hi, Some(ScaledValue::new(2450, -2)));
    assert_eq!(result.esv_lo, Some(ScaledValue::new(2000, -2)));
    assert_eq!(result.es_hz_hi, Some(ScaledValue::new(5100, -2)));
    assert_eq!(result.es_hz_lo, Some(ScaledValue::new(4900, -2)));
    assert_eq!(result.w_max_lim_pct, Some(ScaledValue::new(8000, -2)));
    assert_eq!(result.w_set_pct, Some(ScaledValue::new(-2500, -2)));
}

/// Times are the one group with no scale factor on the sunspec side, so
/// they must be converted directly.
#[test]
fn times_converted_to_whole_seconds() {
    let mut inner = DefaultDERControl::empty();
    inner.set_es_delay = Some(30_000);
    inner.set_es_random_delay = Some(6_000);
    inner.set_es_ramp_tms = Some(12_000);
    let parameters = attributes(inner);

    let result = ModbusParameters::try_from(&parameters).expect("Translation failed");

    assert_eq!(result.es_dly_tms, Some(300));
    assert_eq!(result.es_rnd_tms, Some(60));
    assert_eq!(result.es_rmp_tms, Some(120));
}

/// Sub-second times cannot be represented by model 703 at all, so they
/// round to the nearest second rather than being scaled the wrong way.
#[test]
fn sub_second_enter_service_times_round() {
    let mut inner = DefaultDERControl::empty();
    // 0.4s, 0.6s and 1.2s.
    inner.set_es_delay = Some(40);
    inner.set_es_random_delay = Some(60);
    inner.set_es_ramp_tms = Some(120);
    let parameters = attributes(inner);

    let result = ModbusParameters::try_from(&parameters).expect("Translation failed");

    assert_eq!(result.es_dly_tms, Some(0));
    assert_eq!(result.es_rnd_tms, Some(1));
    assert_eq!(result.es_rmp_tms, Some(1));
}

/// Most of the frequency droop values are in thousandths, but the time is in hundredths.
#[test]
fn droop_carries_sep2_scale_factors() {
    let droop = FreqDroopType {
        // 0.360 Hz and 0.350 Hz.
        d_bof: 360,
        d_buf: 350,
        // 0.050 and 0.040 per unit.
        k_of: 50,
        k_uf: 40,
        // 5.00 seconds.
        open_loop_tms: 500,
    };

    let result = Model711Ctl::from_droop(droop);

    assert_eq!(result.db_of, ScaledValue::new(360, -3));
    assert_eq!(result.db_uf, ScaledValue::new(350, -3));
    assert_eq!(result.k_of, ScaledValue::new(50, -3));
    assert_eq!(result.k_uf, ScaledValue::new(40, -3));
    assert_eq!(result.rsp_tms, ScaledValue::new(500, -2));
}

#[test]
fn hundredths_round_half_up_to_seconds() {
    assert_eq!(hundredths_to_seconds(49), 0);
    assert_eq!(hundredths_to_seconds(50), 1);
    assert_eq!(hundredths_to_seconds(149), 1);
    assert_eq!(hundredths_to_seconds(u32::MAX), 42949673);
}

#[test]
fn multipliers_round_trip() {
    for e in -9i16..=9 {
        assert_eq!(multiplier_exponent(multiplier_from_exponent(e).unwrap()), e);
    }
    assert!(multiplier_from_exponent(10).is_err());
    assert!(multiplier_from_exponent(-10).is_err());
}

#[test]
fn unknown_alarms_fail() {
    let status = ModbusStatus { st: None, conn_st: None, alrm: Some(Alrm { bits: Alrm::GROUND_FAULT }), soc: None };
    let result = DERStatus::try_from(status);
    assert!(matches!(result, Err(NamedError { kind: Error::Unknown, name }) if name == "alarm_status"));
}

#[test]
fn a_settings_value_too_large_overflows() {
    let settings = ModbusSettings { esv_hi: Some(ScaledValue::new(40000, -2)) };
    let result = DERSettings::try_from(settings);
    assert!(matches!(result, Err(NamedError { kind: Error::SignedOverflow, name }) if name == "set_es_high_volt"));
}
