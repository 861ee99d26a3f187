//! Translation between SEP2 and SunSpec Modbus.
//!
//! SEP2 fixes the scale of each of its quantities in the specification,
//! rather than carrying a scale factor alongside the value the way SunSpec
//! does. SEP2 uses hundredths for percentages, frequencies and times, and
//! thousandths for frequency droops.
use vstd::prelude::*;

use crate::clock::now_timestamp;
use crate::attributes::ControlAttributes;
use crate::modbus_connection::{
    Capabilities as ModbusCapabilities, Curve as ModbusCurve, Model711Ctl,
    Parameters as ModbusParameters, Metering as ModbusMetering, PhaseReference,
    Settings as ModbusSettings, Status as ModbusStatus, VoltageWithReference,
    phase_reference_name,
};
use crate::scaled_value::{ScaledValue, clamp, pow10, round_half_away, rescaled};
use crate::sep2_types::{
    CurveData, DERCurve, DERCurveLink, DERUnitRefType, DefaultDERControl, FixedVar, FreqDroopType,
    PowerFactorWithExcitation, SignedPercent, ActivePower, ApparentPower, CONNECT_STATUS_CONNECTED, ConnectStatusType, DERCapability,
    DERSettings, DERStatus, DER_FAULT_EMERGENCY_LOCAL, DER_FAULT_OVER_FREQUENCY,
    DER_FAULT_OVER_VOLTAGE, DER_FAULT_UNDER_FREQUENCY, DER_FAULT_UNDER_VOLTAGE,
    FlowDirectionType, KindType, MirrorMeterReading, OperationalModeStatusType,
    OperationalModeStatusValue, Percent, PhaseCode, PowerFactor, PowerOfTenMultiplierType,
    ReactivePower, ReactiveSusceptance, StateOfChargeStatusType, UomType, VoltageRMS,
    lemma_percent_of, percent_of,
};
use crate::sunspec::model701::{Alrm, ConnSt, St};
use crate::sunspec::model702::CtrlModes;
use crate::sunspec::model703::Es;
use crate::sunspec::model704::{
    PfwAbsEna, PfwAbsExt, PfwInjEna, PfwInjExt, VarSetEna, VarSetMod, WMaxLimPctEna, WSetEna,
    WSetMod,
};
use crate::sunspec::model705::{CrvDeptRef as VoltVarDeptRef, CrvVRefAutoEna};
use crate::sunspec::model706::CrvDeptRef as VoltWattDeptRef;

verus! {

pub const SEP2_HUNDREDTHS_SF: i16 = -2;

pub const SEP2_THOUSANDTHS_SF: i16 = -3;

/// SunSpec defines no scale factor for times: they are whole seconds.
pub const SUNSPEC_SECONDS_SF: i16 = 0;

/// Why a value could not be translated.
#[derive(Clone, Copy, Debug, PartialEq, Eq, Structural)]
pub enum Error {
    UnsignedNegative,
    SignedOverflow,
    MandatoryNone,
    UnmappableInvalid,
    OutOfRange,
    Unknown,
}

/// A translation error together with the field being translated.
#[derive(Clone, Copy, Debug)]
pub struct NamedError {
    pub kind: Error,
    pub name: &'static str,
}

/// The name of an error kind.
pub open spec fn error_kind_name(e: Error) -> Seq<char> {
    match e {
        Error::UnsignedNegative => "UnsignedNegative"@,
        Error::SignedOverflow => "SignedOverflow"@,
        Error::MandatoryNone => "MandatoryNone"@,
        Error::UnmappableInvalid => "UnmappableInvalid"@,
        Error::OutOfRange => "OutOfRange"@,
        Error::Unknown => "Unknown"@,
    }
}

impl Error {
    /// The error, attributed to the field `name`.
    pub fn name(self, name: &'static str) -> (r: NamedError)
        ensures
            r.kind == self,
            r.name == name,
    {
        NamedError { kind: self, name }
    }

    /// The name of the error kind.
    pub fn as_str(&self) -> (r: &'static str)
        ensures
            r@ == error_kind_name(*self),
    {
        match self {
            Error::UnsignedNegative => "UnsignedNegative",
            Error::SignedOverflow => "SignedOverflow",
            Error::MandatoryNone => "MandatoryNone",
            Error::UnmappableInvalid => "UnmappableInvalid",
            Error::OutOfRange => "OutOfRange",
            Error::Unknown => "Unknown",
        }
    }
}

impl NamedError {
    /// A description of the error naming the field.
    pub fn to_string(&self) -> (r: String)
        ensures
            r@ == error_kind_name(self.kind) + " when translating to field "@ + self.name@,
    {
        let mut s = String::from_str(self.kind.as_str());
        s.append(" when translating to field ");
        s.append(self.name);
        s
    }
}

/// A named result agrees with its statement, in which an error is the kind
/// and the name of the field.
pub open spec fn agrees<T>(r: Result<T, NamedError>, s: Result<T, (Error, Seq<char>)>) -> bool {
    match (r, s) {
        (Ok(a), Ok(b)) => a == b,
        (Err(e), Err((k, n))) => e.kind == k && e.name@ == n,
        _ => false,
    }
}

/// The power of ten of a multiplier.
pub open spec fn exponent_of(m: PowerOfTenMultiplierType) -> int {
    match m {
        PowerOfTenMultiplierType::Nano => -9,
        PowerOfTenMultiplierType::NegativeEight => -8,
        PowerOfTenMultiplierType::NegativeSeven => -7,
        PowerOfTenMultiplierType::Micro => -6,
        PowerOfTenMultiplierType::NegativeFive => -5,
        PowerOfTenMultiplierType::NegativeFour => -4,
        PowerOfTenMultiplierType::Milli => -3,
        PowerOfTenMultiplierType::Centi => -2,
        PowerOfTenMultiplierType::Deci => -1,
        PowerOfTenMultiplierType::Unit => 0,
        PowerOfTenMultiplierType::Deca => 1,
        PowerOfTenMultiplierType::Hecto => 2,
        PowerOfTenMultiplierType::Kilo => 3,
        PowerOfTenMultiplierType::Four => 4,
        PowerOfTenMultiplierType::Five => 5,
        PowerOfTenMultiplierType::Mega => 6,
        PowerOfTenMultiplierType::Seven => 7,
        PowerOfTenMultiplierType::Eight => 8,
        PowerOfTenMultiplierType::Giga => 9,
    }
}

/// The multiplier for a power of ten, which must be between -9 and 9.
pub open spec fn multiplier_of(e: int) -> Result<PowerOfTenMultiplierType, Error> {
    if e == -9 {
        Ok(PowerOfTenMultiplierType::Nano)
    } else if e == -8 {
        Ok(PowerOfTenMultiplierType::NegativeEight)
    } else if e == -7 {
        Ok(PowerOfTenMultiplierType::NegativeSeven)
    } else if e == -6 {
        Ok(PowerOfTenMultiplierType::Micro)
    } else if e == -5 {
        Ok(PowerOfTenMultiplierType::NegativeFive)
    } else if e == -4 {
        Ok(PowerOfTenMultiplierType::NegativeFour)
    } else if e == -3 {
        Ok(PowerOfTenMultiplierType::Milli)
    } else if e == -2 {
        Ok(PowerOfTenMultiplierType::Centi)
    } else if e == -1 {
        Ok(PowerOfTenMultiplierType::Deci)
    } else if e == 0 {
        Ok(PowerOfTenMultiplierType::Unit)
    } else if e == 1 {
        Ok(PowerOfTenMultiplierType::Deca)
    } else if e == 2 {
        Ok(PowerOfTenMultiplierType::Hecto)
    } else if e == 3 {
        Ok(PowerOfTenMultiplierType::Kilo)
    } else if e == 4 {
        Ok(PowerOfTenMultiplierType::Four)
    } else if e == 5 {
        Ok(PowerOfTenMultiplierType::Five)
    } else if e == 6 {
        Ok(PowerOfTenMultiplierType::Mega)
    } else if e == 7 {
        Ok(PowerOfTenMultiplierType::Seven)
    } else if e == 8 {
        Ok(PowerOfTenMultiplierType::Eight)
    } else if e == 9 {
        Ok(PowerOfTenMultiplierType::Giga)
    } else {
        Err(Error::OutOfRange)
    }
}

/// The power of ten of a multiplier.
pub fn multiplier_exponent(m: PowerOfTenMultiplierType) -> (r: i16)
    ensures
        r == exponent_of(m),
{
    match m {
        PowerOfTenMultiplierType::Nano => -9,
        PowerOfTenMultiplierType::NegativeEight => -8,
        PowerOfTenMultiplierType::NegativeSeven => -7,
        PowerOfTenMultiplierType::Micro => -6,
        PowerOfTenMultiplierType::NegativeFive => -5,
        PowerOfTenMultiplierType::NegativeFour => -4,
        PowerOfTenMultiplierType::Milli => -3,
        PowerOfTenMultiplierType::Centi => -2,
        PowerOfTenMultiplierType::Deci => -1,
        PowerOfTenMultiplierType::Unit => 0,
        PowerOfTenMultiplierType::Deca => 1,
        PowerOfTenMultiplierType::Hecto => 2,
        PowerOfTenMultiplierType::Kilo => 3,
        PowerOfTenMultiplierType::Four => 4,
        PowerOfTenMultiplierType::Five => 5,
        PowerOfTenMultiplierType::Mega => 6,
        PowerOfTenMultiplierType::Seven => 7,
        PowerOfTenMultiplierType::Eight => 8,
        PowerOfTenMultiplierType::Giga => 9,
    }
}

/// The multiplier for a power of ten; out of range beyond nine either way.
pub fn multiplier_from_exponent(e: i16) -> (r: Result<PowerOfTenMultiplierType, Error>)
    ensures
        r == multiplier_of(e as int),
{
    match e {
        -9 => Ok(PowerOfTenMultiplierType::Nano),
        -8 => Ok(PowerOfTenMultiplierType::NegativeEight),
        -7 => Ok(PowerOfTenMultiplierType::NegativeSeven),
        -6 => Ok(PowerOfTenMultiplierType::Micro),
        -5 => Ok(PowerOfTenMultiplierType::NegativeFive),
        -4 => Ok(PowerOfTenMultiplierType::NegativeFour),
        -3 => Ok(PowerOfTenMultiplierType::Milli),
        -2 => Ok(PowerOfTenMultiplierType::Centi),
        -1 => Ok(PowerOfTenMultiplierType::Deci),
        0 => Ok(PowerOfTenMultiplierType::Unit),
        1 => Ok(PowerOfTenMultiplierType::Deca),
        2 => Ok(PowerOfTenMultiplierType::Hecto),
        3 => Ok(PowerOfTenMultiplierType::Kilo),
        4 => Ok(PowerOfTenMultiplierType::Four),
        5 => Ok(PowerOfTenMultiplierType::Five),
        6 => Ok(PowerOfTenMultiplierType::Mega),
        7 => Ok(PowerOfTenMultiplierType::Seven),
        8 => Ok(PowerOfTenMultiplierType::Eight),
        9 => Ok(PowerOfTenMultiplierType::Giga),
        _ => Err(Error::OutOfRange),
    }
}

/// Every multiplier comes back from its power of ten.
pub proof fn multiplier_round_trip(m: PowerOfTenMultiplierType)
    ensures
        multiplier_of(exponent_of(m)) == Ok::<PowerOfTenMultiplierType, Error>(m),
{
}

/// Every power of ten from -9 to 9 comes back from its multiplier, and no
/// other has one.
pub proof fn exponent_round_trip(e: int)
    ensures
        -9 <= e <= 9 ==> (multiplier_of(e) matches Ok(m) && exponent_of(m) == e),
        !(-9 <= e <= 9) ==> multiplier_of(e) == Err::<PowerOfTenMultiplierType, Error>(
            Error::OutOfRange,
        ),
{
}

/// Each multiplier scales by the power of ten that its SI prefix names: a
/// kilo is a thousand, a mega a million, a giga a thousand million; a milli,
/// a micro and a nano are their inverses; the centi, deci, deca and hecto
/// steps are tenfold each; and the numbered multipliers are the powers that
/// their names give.
pub proof fn multipliers_are_their_prefixes()
    ensures
        pow10(exponent_of(PowerOfTenMultiplierType::Kilo) as nat) == 1000,
        pow10(exponent_of(PowerOfTenMultiplierType::Mega) as nat) == 1_000_000,
        pow10(exponent_of(PowerOfTenMultiplierType::Giga) as nat) == 1_000_000_000,
        exponent_of(PowerOfTenMultiplierType::Milli) == -exponent_of(PowerOfTenMultiplierType::Kilo),
        exponent_of(PowerOfTenMultiplierType::Micro) == -exponent_of(PowerOfTenMultiplierType::Mega),
        exponent_of(PowerOfTenMultiplierType::Nano) == -exponent_of(PowerOfTenMultiplierType::Giga),
        exponent_of(PowerOfTenMultiplierType::Unit) == 0,
        exponent_of(PowerOfTenMultiplierType::Deca) == 1,
        exponent_of(PowerOfTenMultiplierType::Hecto) == 2,
        exponent_of(PowerOfTenMultiplierType::Deci) == -1,
        exponent_of(PowerOfTenMultiplierType::Centi) == -2,
        exponent_of(PowerOfTenMultiplierType::Four) == 4,
        exponent_of(PowerOfTenMultiplierType::Five) == 5,
        exponent_of(PowerOfTenMultiplierType::Seven) == 7,
        exponent_of(PowerOfTenMultiplierType::Eight) == 8,
        exponent_of(PowerOfTenMultiplierType::NegativeFour) == -4,
        exponent_of(PowerOfTenMultiplierType::NegativeFive) == -5,
        exponent_of(PowerOfTenMultiplierType::NegativeSeven) == -7,
        exponent_of(PowerOfTenMultiplierType::NegativeEight) == -8,
{
    reveal_with_fuel(pow10, 10);
}

/// A time in hundredths of a second rounded to whole seconds, a half second
/// rounding up.
pub open spec fn hundredths_to_seconds_spec(h: u32) -> int {
    (h + 50) / 100
}

/// Converts hundredths of a second to whole seconds, rounding to the nearest
/// second.
pub fn hundredths_to_seconds(hundredths_of_a_second: u32) -> (r: u32)
    ensures
        r == hundredths_to_seconds_spec(hundredths_of_a_second),
{
    let r = ScaledValue::new(hundredths_of_a_second, SEP2_HUNDREDTHS_SF).rescale(
        SUNSPEC_SECONDS_SF,
    ).value;
    proof {
        let h = hundredths_of_a_second as int;
        assert(pow10(2) == 100) by {
            reveal_with_fuel(pow10, 3);
        }
        assert(rescaled(h, -2) == round_half_away(h, 100));
        assert(0 <= (h + 50) / 100 <= u32::MAX) by (nonlinear_arith)
            requires
                0 <= h <= u32::MAX,
        ;
    }
    r
}

/// A `u16` as a SEP2 signed 16 bit value.
pub open spec fn to_int16(v: u16) -> Result<i16, Error> {
    if v <= i16::MAX {
        Ok(v as i16)
    } else {
        Err(Error::SignedOverflow)
    }
}

fn u16_to_int16(v: u16) -> (r: Result<i16, Error>)
    ensures
        r == to_int16(v),
{
    if v <= i16::MAX as u16 {
        Ok(v as i16)
    } else {
        Err(Error::SignedOverflow)
    }
}

/// A rating in watts as an active power.
pub open spec fn active_power_of(v: u16) -> Result<ActivePower, Error> {
    match to_int16(v) {
        Ok(x) => Ok(ActivePower { multiplier: PowerOfTenMultiplierType::Unit, value: x }),
        Err(e) => Err(e),
    }
}

/// A rating in vars as a reactive power.
pub open spec fn reactive_power_of(v: u16) -> Result<ReactivePower, Error> {
    match to_int16(v) {
        Ok(x) => Ok(ReactivePower { multiplier: PowerOfTenMultiplierType::Unit, value: x }),
        Err(e) => Err(e),
    }
}

/// An optional rating in watts as an optional active power.
pub open spec fn opt_active_power(o: Option<u16>) -> Result<Option<ActivePower>, Error> {
    match o {
        None => Ok(None),
        Some(v) => match active_power_of(v) {
            Ok(p) => Ok(Some(p)),
            Err(e) => Err(e),
        },
    }
}

/// An optional rating in vars as an optional reactive power.
pub open spec fn opt_reactive_power(o: Option<u16>) -> Result<Option<ReactivePower>, Error> {
    match o {
        None => Ok(None),
        Some(v) => match reactive_power_of(v) {
            Ok(p) => Ok(Some(p)),
            Err(e) => Err(e),
        },
    }
}

/// An optional rating in watts as an optional active power.
pub fn to_active_power(o: Option<u16>) -> (r: Result<Option<ActivePower>, Error>)
    ensures
        r == opt_active_power(o),
{
    match o {
        None => Ok(None),
        Some(v) => match u16_to_int16(v) {
            Ok(x) => Ok(Some(ActivePower { multiplier: PowerOfTenMultiplierType::Unit, value: x })),
            Err(e) => Err(e),
        },
    }
}

fn to_reactive_power(o: Option<u16>) -> (r: Result<Option<ReactivePower>, Error>)
    ensures
        r == opt_reactive_power(o),
{
    match o {
        None => Ok(None),
        Some(v) => match u16_to_int16(v) {
            Ok(x) => Ok(
                Some(ReactivePower { multiplier: PowerOfTenMultiplierType::Unit, value: x }),
            ),
            Err(e) => Err(e),
        },
    }
}

/// A mandatory rating in watts as an active power: its absence is an error.
pub fn mandatory_active_power(o: Option<u16>) -> (r: Result<ActivePower, Error>)
    ensures
        r == match o {
            None => Err(Error::MandatoryNone),
            Some(v) => active_power_of(v),
        },
{
    match o {
        None => Err(Error::MandatoryNone),
        Some(v) => match u16_to_int16(v) {
            Ok(x) => Ok(ActivePower { multiplier: PowerOfTenMultiplierType::Unit, value: x }),
            Err(e) => Err(e),
        },
    }
}

/// An optional power factor rating as an optional power factor.
pub fn to_power_factor(o: Option<u16>) -> (r: Option<PowerFactor>)
    ensures
        r == (match o {
            Some(v) => Some(PowerFactor { displacement: v, multiplier: PowerOfTenMultiplierType::Unit }),
            None => None,
        }),
{
    match o {
        Some(v) => Some(PowerFactor { displacement: v, multiplier: PowerOfTenMultiplierType::Unit }),
        None => None,
    }
}

fn to_apparent_power(o: Option<u16>) -> (r: Option<ApparentPower>)
    ensures
        r == (match o {
            Some(v) => Some(ApparentPower { multiplier: PowerOfTenMultiplierType::Unit, value: v }),
            None => None,
        }),
{
    match o {
        Some(v) => Some(ApparentPower { multiplier: PowerOfTenMultiplierType::Unit, value: v }),
        None => None,
    }
}

fn to_voltage(o: Option<u16>) -> (r: Option<VoltageRMS>)
    ensures
        r == (match o {
            Some(v) => Some(VoltageRMS { multiplier: PowerOfTenMultiplierType::Unit, value: v }),
            None => None,
        }),
{
    match o {
        Some(v) => Some(VoltageRMS { multiplier: PowerOfTenMultiplierType::Unit, value: v }),
        None => None,
    }
}

fn to_susceptance(o: Option<u16>) -> (r: Option<ReactiveSusceptance>)
    ensures
        r == (match o {
            Some(v) => Some(ReactiveSusceptance { multiplier: PowerOfTenMultiplierType::Unit, value: v }),
            None => None,
        }),
{
    match o {
        Some(v) => Some(ReactiveSusceptance { multiplier: PowerOfTenMultiplierType::Unit, value: v }),
        None => None,
    }
}

/// The control modes supported: no mode of model 702 can yet be translated,
/// so only their absence is.
pub open spec fn modes_of(o: Option<CtrlModes>) -> Result<u32, Error> {
    match o {
        None => Ok(0),
        Some(_) => Err(Error::Unknown),
    }
}

fn to_modes(o: Option<CtrlModes>) -> (r: Result<u32, Error>)
    ensures
        r == modes_of(o),
{
    match o {
        None => Ok(0),
        Some(_) => Err(Error::Unknown),
    }
}

/// The device capability reported to the server, or the first field that
/// cannot be translated.
pub open spec fn capability_spec(c: ModbusCapabilities) -> Result<DERCapability, (Error, Seq<char>)> {
    match c.w_max_rtg {
        None => Err((Error::MandatoryNone, "w_max_rtg"@)),
        Some(w_max) => match active_power_of(w_max) {
            Err(e) => Err((e, "w_max_rtg"@)),
            Ok(rtg_max_w) => match opt_active_power(c.w_ovr_ext_rtg) {
                Err(e) => Err((e, "rtg_over_excited_w"@)),
                Ok(over_w) => match opt_active_power(c.w_und_ext_rtg) {
                    Err(e) => Err((e, "rtg_under_excited_w"@)),
                    Ok(under_w) => match opt_reactive_power(c.var_max_inj_rtg) {
                        Err(e) => Err((e, "var_max_inj_rtg"@)),
                        Ok(max_var) => match opt_reactive_power(c.var_max_abs_rtg) {
                            Err(e) => Err((e, "var_max_abs_rtg"@)),
                            Ok(max_var_neg) => match opt_active_power(c.w_cha_rte_max_rtg) {
                                Err(e) => Err((e, "w_cha_rte_max_rtg"@)),
                                Ok(charge_w) => match modes_of(c.ctrl_modes) {
                                    Err(e) => Err((e, "modes_supported"@)),
                                    Ok(modes) => Ok(
                                        DERCapability {
                                            modes_supported: modes,
                                            rtg_max_charge_rate_va: match c.va_cha_rte_max_rtg {
                                                Some(v) => Some(ApparentPower { multiplier: PowerOfTenMultiplierType::Unit, value: v }),
                                                None => None,
                                            },
                                            rtg_max_charge_rate_w: charge_w,
                                            rtg_max_v: match c.v_max_rtg {
                                                Some(v) => Some(VoltageRMS { multiplier: PowerOfTenMultiplierType::Unit, value: v }),
                                                None => None,
                                            },
                                            rtg_max_va: match c.va_max_rtg {
                                                Some(v) => Some(ApparentPower { multiplier: PowerOfTenMultiplierType::Unit, value: v }),
                                                None => None,
                                            },
                                            rtg_max_var: max_var,
                                            rtg_max_var_neg: max_var_neg,
                                            rtg_max_w,
                                            rtg_min_v: match c.v_min_rtg {
                                                Some(v) => Some(VoltageRMS { multiplier: PowerOfTenMultiplierType::Unit, value: v }),
                                                None => None,
                                            },
                                            rtg_over_excited_pf: match c.w_ovr_ext_rtg_pf {
                                                Some(v) => Some(PowerFactor { displacement: v, multiplier: PowerOfTenMultiplierType::Unit }),
                                                None => None,
                                            },
                                            rtg_over_excited_w: over_w,
                                            rtg_reactive_susceptance: match c.react_suscept_rtg {
                                                Some(v) => Some(ReactiveSusceptance { multiplier: PowerOfTenMultiplierType::Unit, value: v }),
                                                None => None,
                                            },
                                            rtg_under_excited_pf: match c.w_und_ext_rtg_pf {
                                                Some(v) => Some(PowerFactor { displacement: v, multiplier: PowerOfTenMultiplierType::Unit }),
                                                None => None,
                                            },
                                            rtg_under_excited_w: under_w,
                                            rtg_v_nom: match c.v_nom_rtg {
                                                Some(v) => Some(VoltageRMS { multiplier: PowerOfTenMultiplierType::Unit, value: v }),
                                                None => None,
                                            },
                                        },
                                    ),
                                },
                            },
                        },
                    },
                },
            },
        },
    }
}

impl DERCapability {
    /// Translates the device's ratings into the capability reported to the
    /// server.
    pub fn try_from(caps: ModbusCapabilities) -> (r: Result<DERCapability, NamedError>)
        ensures
            agrees(r, capability_spec(caps)),
    {
        let rtg_max_w = match caps.w_max_rtg {
            None => {
                return Err(Error::MandatoryNone.name("w_max_rtg"));
            },
            Some(v) => match u16_to_int16(v) {
                Ok(x) => ActivePower { multiplier: PowerOfTenMultiplierType::Unit, value: x },
                Err(e) => {
                    return Err(e.name("w_max_rtg"));
                },
            },
        };
        let rtg_over_excited_w = match to_active_power(caps.w_ovr_ext_rtg) {
            Ok(x) => x,
            Err(e) => {
                return Err(e.name("rtg_over_excited_w"));
            },
        };
        let rtg_under_excited_w = match to_active_power(caps.w_und_ext_rtg) {
            Ok(x) => x,
            Err(e) => {
                return Err(e.name("rtg_under_excited_w"));
            },
        };
        let rtg_max_var = match to_reactive_power(caps.var_max_inj_rtg) {
            Ok(x) => x,
            Err(e) => {
                return Err(e.name("var_max_inj_rtg"));
            },
        };
        let rtg_max_var_neg = match to_reactive_power(caps.var_max_abs_rtg) {
            Ok(x) => x,
            Err(e) => {
                return Err(e.name("var_max_abs_rtg"));
            },
        };
        let rtg_max_charge_rate_w = match to_active_power(caps.w_cha_rte_max_rtg) {
            Ok(x) => x,
            Err(e) => {
                return Err(e.name("w_cha_rte_max_rtg"));
            },
        };
        let modes_supported = match to_modes(caps.ctrl_modes) {
            Ok(x) => x,
            Err(e) => {
                return Err(e.name("modes_supported"));
            },
        };
        Ok(
            DERCapability {
                modes_supported,
                rtg_max_charge_rate_va: to_apparent_power(caps.va_cha_rte_max_rtg),
                rtg_max_charge_rate_w,
                rtg_max_v: to_voltage(caps.v_max_rtg),
                rtg_max_va: to_apparent_power(caps.va_max_rtg),
                rtg_max_var,
                rtg_max_var_neg,
                rtg_max_w,
                rtg_min_v: to_voltage(caps.v_min_rtg),
                rtg_over_excited_pf: to_power_factor(caps.w_ovr_ext_rtg_pf),
                rtg_over_excited_w,
                rtg_reactive_susceptance: to_susceptance(caps.react_suscept_rtg),
                rtg_under_excited_pf: to_power_factor(caps.w_und_ext_rtg_pf),
                rtg_under_excited_w,
                rtg_v_nom: to_voltage(caps.v_nom_rtg),
            },
        )
    }
}

/// The operational mode for an operating state, reported at `now`.
pub open spec fn operational_mode_of(st: St, now: i64) -> Result<OperationalModeStatusType, Error> {
    match st {
        St::Off => Ok(OperationalModeStatusType { date_time: now, value: OperationalModeStatusValue::Off }),
        St::On => Ok(OperationalModeStatusType { date_time: now, value: OperationalModeStatusValue::Operational }),
        St::Invalid(_) => Err(Error::UnmappableInvalid),
    }
}

/// The operational mode for an operating state, reported at `now`.
pub fn operational_mode(st: St, now: i64) -> (r: Result<OperationalModeStatusType, Error>)
    ensures
        r == operational_mode_of(st, now),
{
    match st {
        St::Off => Ok(OperationalModeStatusType { date_time: now, value: OperationalModeStatusValue::Off }),
        St::On => Ok(OperationalModeStatusType { date_time: now, value: OperationalModeStatusValue::Operational }),
        St::Invalid(_) => Err(Error::UnmappableInvalid),
    }
}

/// A device that is on is reported operational, and one that is off is
/// reported off, at the time of the report; an operating state that the
/// model does not define cannot be reported.
pub proof fn operating_state_is_reported(now: i64)
    ensures
        operational_mode_of(St::On, now) == Ok::<OperationalModeStatusType, Error>(
            OperationalModeStatusType { date_time: now, value: OperationalModeStatusValue::Operational },
        ),
        operational_mode_of(St::Off, now) == Ok::<OperationalModeStatusType, Error>(
            OperationalModeStatusType { date_time: now, value: OperationalModeStatusValue::Off },
        ),
        forall|raw: u16| #[trigger] operational_mode_of(St::Invalid(raw), now) is Err,
{
}

/// The status reported for a device carries its operating state: on is
/// reported operational and off is reported off, at the time of the report,
/// and neither fails the translation.
pub proof fn status_reports_operating_state(status: ModbusStatus, now: i64)
    ensures
        status.st == Some(St::On) ==> match status_spec(status, now) {
            Ok(d) => d.operational_mode_status == Some(
                OperationalModeStatusType { date_time: now, value: OperationalModeStatusValue::Operational },
            ),
            Err((_, field)) => field != "operational_mode_status"@,
        },
        status.st == Some(St::Off) ==> match status_spec(status, now) {
            Ok(d) => d.operational_mode_status == Some(
                OperationalModeStatusType { date_time: now, value: OperationalModeStatusValue::Off },
            ),
            Err((_, field)) => field != "operational_mode_status"@,
        },
{
    reveal_strlit("conn_st");
    reveal_strlit("alarm_status");
    reveal_strlit("operational_mode_status");
    assert("conn_st"@ != "operational_mode_status"@) by {
        assert("conn_st"@.len() != "operational_mode_status"@.len());
    }
    assert("alarm_status"@ != "operational_mode_status"@) by {
        assert("alarm_status"@.len() != "operational_mode_status"@.len());
    }
}

/// The connection status for a grid connection state, reported at `now`.
pub open spec fn connect_status_of(c: ConnSt, now: i64) -> Result<ConnectStatusType, Error> {
    match c {
        ConnSt::Disconnected => Ok(ConnectStatusType { date_time: now, value: 0 }),
        ConnSt::Connected => Ok(ConnectStatusType { date_time: now, value: CONNECT_STATUS_CONNECTED }),
        ConnSt::Invalid(_) => Err(Error::UnmappableInvalid),
    }
}

/// The alarms of model 701 that have no SEP2 counterpart yet.
pub const ALARMS_UNTRANSLATED: u32 = 0x1f0bd;

/// The bits that model 701 defines for alarms.
pub const ALARMS_DEFINED: u32 = 0x1ffff;

/// The SEP2 alarm status for the alarms of model 701: an alarm without a
/// counterpart is unknown, and a bit that model 701 does not define is
/// invalid.
pub open spec fn alarm_status_of(bits: u32) -> Result<u32, Error> {
    if bits & ALARMS_UNTRANSLATED != 0 {
        Err(Error::Unknown)
    } else if bits & !ALARMS_DEFINED != 0 {
        Err(Error::UnmappableInvalid)
    } else {
        Ok(
            (if bits & Alrm::DC_OVER_VOLT != 0 { DER_FAULT_OVER_VOLTAGE } else { 0u32 })
                | (if bits & Alrm::MANUAL_SHUTDOWN != 0 { DER_FAULT_EMERGENCY_LOCAL } else { 0u32 })
                | (if bits & Alrm::OVER_FREQUENCY != 0 { DER_FAULT_OVER_FREQUENCY } else { 0u32 })
                | (if bits & Alrm::UNDER_FREQUENCY != 0 { DER_FAULT_UNDER_FREQUENCY } else { 0u32 })
                | (if bits & Alrm::AC_OVER_VOLT != 0 { DER_FAULT_OVER_VOLTAGE } else { 0u32 })
                | (if bits & Alrm::AC_UNDER_VOLT != 0 { DER_FAULT_UNDER_VOLTAGE } else { 0u32 }),
        )
    }
}

fn alarm_status(alrm: Alrm) -> (r: Result<u32, Error>)
    ensures
        r == alarm_status_of(alrm.bits),
{
    let bits = alrm.bits;
    if bits & ALARMS_UNTRANSLATED != 0 {
        Err(Error::Unknown)
    } else if bits & !ALARMS_DEFINED != 0 {
        Err(Error::UnmappableInvalid)
    } else {
        Ok(
            (if bits & Alrm::DC_OVER_VOLT != 0 { DER_FAULT_OVER_VOLTAGE } else { 0u32 })
                | (if bits & Alrm::MANUAL_SHUTDOWN != 0 { DER_FAULT_EMERGENCY_LOCAL } else { 0u32 })
                | (if bits & Alrm::OVER_FREQUENCY != 0 { DER_FAULT_OVER_FREQUENCY } else { 0u32 })
                | (if bits & Alrm::UNDER_FREQUENCY != 0 { DER_FAULT_UNDER_FREQUENCY } else { 0u32 })
                | (if bits & Alrm::AC_OVER_VOLT != 0 { DER_FAULT_OVER_VOLTAGE } else { 0u32 })
                | (if bits & Alrm::AC_UNDER_VOLT != 0 { DER_FAULT_UNDER_VOLTAGE } else { 0u32 }),
        )
    }
}

/// A state of charge in hundredths of a percent, capped at 100%.
pub open spec fn soc_hundredths(soc: ScaledValue<u16>) -> u16 {
    let h = clamp(rescaled(soc.value as int, soc.sf - SEP2_HUNDREDTHS_SF), 0, u16::MAX as int);
    if h > 10_000 {
        10_000
    } else {
        h as u16
    }
}

impl StateOfChargeStatusType {
    /// The state of charge at SEP2's scale of hundredths of a percent,
    /// reported at `now`. A value beyond 100% is reported as 100%.
    pub fn from_scaled(soc: ScaledValue<u16>, now: i64) -> (r: StateOfChargeStatusType)
        ensures
            r == (StateOfChargeStatusType { date_time: now, value: percent_of(soc_hundredths(soc)) }),
            r.value.spec_get() == soc_hundredths(soc),
    {
        let hundredths = soc.rescale(SEP2_HUNDREDTHS_SF).value;
        let value = match Percent::new(hundredths) {
            Some(p) => p,
            None => match Percent::new(10_000) {
                Some(p) => p,
                None => {
                    assert(false);
                    Percent::new(0).unwrap()
                },
            },
        };
        proof {
            lemma_percent_of(soc_hundredths(soc));
        }
        StateOfChargeStatusType { date_time: now, value }
    }
}

/// The device status reported to the server at `now`, or the first field that
/// cannot be translated.
pub open spec fn status_spec(s: ModbusStatus, now: i64) -> Result<DERStatus, (Error, Seq<char>)> {
    let connect = match s.conn_st {
        None => Ok(None),
        Some(c) => match connect_status_of(c, now) {
            Ok(x) => Ok(Some(x)),
            Err(e) => Err(e),
        },
    };
    let mode = match s.st {
        None => Ok(None),
        Some(st) => match operational_mode_of(st, now) {
            Ok(x) => Ok(Some(x)),
            Err(e) => Err(e),
        },
    };
    let alarm = match s.alrm {
        None => Ok(None),
        Some(a) => match alarm_status_of(a.bits) {
            Ok(x) => Ok(Some(x)),
            Err(e) => Err(e),
        },
    };
    match connect {
        Err(e) => Err((e, "conn_st"@)),
        Ok(connect_status) => match mode {
            Err(e) => Err((e, "operational_mode_status"@)),
            Ok(operational_mode_status) => match alarm {
                Err(e) => Err((e, "alarm_status"@)),
                Ok(alarm_status) => Ok(
                    DERStatus {
                        alarm_status,
                        gen_connect_status: connect_status,
                        operational_mode_status,
                        reading_time: now,
                        state_of_charge_status: match s.soc {
                            Some(soc) => Some(StateOfChargeStatusType { date_time: now, value: percent_of(soc_hundredths(soc)) }),
                            None => None,
                        },
                        stor_connect_status: connect_status,
                    },
                ),
            },
        },
    }
}

impl DERStatus {
    /// Translates the device's status into the status reported to the server,
    /// read at `now`.
    pub fn try_from_at(status: ModbusStatus, now: i64) -> (r: Result<DERStatus, NamedError>)
        ensures
            agrees(r, status_spec(status, now)),
    {
        let connect_status = match status.conn_st {
            None => None,
            Some(ConnSt::Disconnected) => Some(ConnectStatusType { date_time: now, value: 0 }),
            Some(ConnSt::Connected) => Some(ConnectStatusType { date_time: now, value: CONNECT_STATUS_CONNECTED }),
            Some(ConnSt::Invalid(_)) => {
                return Err(Error::UnmappableInvalid.name("conn_st"));
            },
        };
        let operational_mode_status = match status.st {
            None => None,
            Some(St::Off) => Some(OperationalModeStatusType { date_time: now, value: OperationalModeStatusValue::Off }),
            Some(St::On) => Some(OperationalModeStatusType { date_time: now, value: OperationalModeStatusValue::Operational }),
            Some(St::Invalid(_)) => {
                return Err(Error::UnmappableInvalid.name("operational_mode_status"));
            },
        };
        let alarm_status = match status.alrm {
            None => None,
            Some(a) => match alarm_status(a) {
                Ok(x) => Some(x),
                Err(e) => {
                    return Err(e.name("alarm_status"));
                },
            },
        };
        let state_of_charge_status = match status.soc {
            Some(soc) => Some(StateOfChargeStatusType::from_scaled(soc, now)),
            None => None,
        };
        Ok(
            DERStatus {
                alarm_status,
                gen_connect_status: connect_status,
                operational_mode_status,
                reading_time: now,
                state_of_charge_status,
                stor_connect_status: connect_status,
            },
        )
    }

    /// Translates the device's status into the status reported to the server,
    /// read now.
    pub fn try_from(status: ModbusStatus) -> (r: Result<DERStatus, NamedError>)
        ensures
            exists|now: i64| agrees(r, status_spec(status, now)),
    {
        let now = now_timestamp();
        DERStatus::try_from_at(status, now)
    }
}

/// A percentage at any scale, restated in SEP2's hundredths as a signed 16
/// bit value.
pub open spec fn percent_to_int16(v: ScaledValue<u16>) -> Result<i16, Error> {
    to_int16(clamp(rescaled(v.value as int, v.sf - SEP2_HUNDREDTHS_SF), 0, u16::MAX as int) as u16)
}

/// The device settings reported to the server at `now`, or the field that
/// cannot be translated.
pub open spec fn settings_spec(s: ModbusSettings, now: i64) -> Result<DERSettings, (Error, Seq<char>)> {
    match s.esv_hi {
        None => Ok(DERSettings { set_es_high_volt: None, updated_time: now }),
        Some(v) => match percent_to_int16(v) {
            Err(e) => Err((e, "set_es_high_volt"@)),
            Ok(x) => Ok(DERSettings { set_es_high_volt: Some(x), updated_time: now }),
        },
    }
}

impl DERSettings {
    /// Translates the device's settings into the settings reported to the
    /// server, read at `now`.
    pub fn try_from_at(settings: ModbusSettings, now: i64) -> (r: Result<DERSettings, NamedError>)
        ensures
            agrees(r, settings_spec(settings, now)),
    {
        match settings.esv_hi {
            None => Ok(DERSettings { set_es_high_volt: None, updated_time: now }),
            Some(v) => match u16_to_int16(v.rescale(SEP2_HUNDREDTHS_SF).value) {
                Err(e) => Err(e.name("set_es_high_volt")),
                Ok(x) => Ok(DERSettings { set_es_high_volt: Some(x), updated_time: now }),
            },
        }
    }

    /// Translates the device's settings into the settings reported to the
    /// server, read now.
    pub fn try_from(settings: ModbusSettings) -> (r: Result<DERSettings, NamedError>)
        ensures
            exists|now: i64| agrees(r, settings_spec(settings, now)),
    {
        let now = now_timestamp();
        DERSettings::try_from_at(settings, now)
    }
}

/// A mirrored reading as the values it holds.
pub struct ReadingView {
    pub mrid: u128,
    pub description: Seq<char>,
    pub flow_direction: FlowDirectionType,
    pub kind: Option<KindType>,
    pub uom: UomType,
    pub power_of_ten_multiplier: Option<PowerOfTenMultiplierType>,
    pub phase: Option<PhaseCode>,
    pub value: i64,
    pub time: i64,
}

/// The values a mirrored reading holds.
pub open spec fn view_of(r: MirrorMeterReading) -> ReadingView {
    ReadingView {
        mrid: r.mrid,
        description: r.description@,
        flow_direction: r.flow_direction,
        kind: r.kind,
        uom: r.uom,
        power_of_ten_multiplier: r.power_of_ten_multiplier,
        phase: r.phase,
        value: r.value,
        time: r.time,
    }
}

/// The multiplier of an optional scale factor.
pub open spec fn opt_multiplier(sf: Option<i16>) -> Result<Option<PowerOfTenMultiplierType>, Error> {
    match sf {
        None => Ok(None),
        Some(e) => match multiplier_of(e as int) {
            Ok(m) => Ok(Some(m)),
            Err(e) => Err(e),
        },
    }
}

fn to_multiplier(sf: Option<i16>) -> (r: Result<Option<PowerOfTenMultiplierType>, Error>)
    ensures
        r == opt_multiplier(sf),
{
    match sf {
        None => Ok(None),
        Some(e) => match multiplier_from_exponent(e) {
            Ok(m) => Ok(Some(m)),
            Err(e) => Err(e),
        },
    }
}

/// The SEP2 phase code of a voltage reference.
pub open spec fn phase_code_of(p: PhaseReference) -> PhaseCode {
    match p {
        PhaseReference::LLV => PhaseCode::PhaseABC,
        PhaseReference::LNV => PhaseCode::PhaseAN,
        PhaseReference::VL1 => PhaseCode::PhaseA,
        PhaseReference::VL2 => PhaseCode::PhaseB,
        PhaseReference::VL3 => PhaseCode::PhaseC,
        PhaseReference::VL1L2 => PhaseCode::PhaseAB,
        PhaseReference::VL2L3 => PhaseCode::PhaseBC,
        PhaseReference::VL3L1 => PhaseCode::PhaseCA,
    }
}

pub fn phase_code(p: PhaseReference) -> (r: PhaseCode)
    ensures
        r == phase_code_of(p),
{
    match p {
        PhaseReference::LLV => PhaseCode::PhaseABC,
        PhaseReference::LNV => PhaseCode::PhaseAN,
        PhaseReference::VL1 => PhaseCode::PhaseA,
        PhaseReference::VL2 => PhaseCode::PhaseB,
        PhaseReference::VL3 => PhaseCode::PhaseC,
        PhaseReference::VL1L2 => PhaseCode::PhaseAB,
        PhaseReference::VL2L3 => PhaseCode::PhaseBC,
        PhaseReference::VL3L1 => PhaseCode::PhaseCA,
    }
}

/// A voltage reading is reported on the phases that its reference names:
/// the first, second and third lines are phases A, B and C; each
/// line-to-line pair is the pair of its phases; the line-to-neutral
/// reference is phase A to neutral, and the line-to-line reference covers
/// all three phases.
pub proof fn voltage_phases_are_named()
    ensures
        phase_code_of(PhaseReference::VL1) == PhaseCode::PhaseA,
        phase_code_of(PhaseReference::VL2) == PhaseCode::PhaseB,
        phase_code_of(PhaseReference::VL3) == PhaseCode::PhaseC,
        phase_code_of(PhaseReference::VL1L2) == PhaseCode::PhaseAB,
        phase_code_of(PhaseReference::VL2L3) == PhaseCode::PhaseBC,
        phase_code_of(PhaseReference::VL3L1) == PhaseCode::PhaseCA,
        phase_code_of(PhaseReference::LNV) == PhaseCode::PhaseAN,
        phase_code_of(PhaseReference::LLV) == PhaseCode::PhaseABC,
{
}

/// The reading for an optional measurement, or none when it is absent.
pub open spec fn optional_reading(
    description: Seq<char>,
    value: Option<int>,
    flow_direction: FlowDirectionType,
    kind: Option<KindType>,
    uom: UomType,
    phase: Option<PhaseCode>,
    sf: Option<i16>,
    now: i64,
) -> Result<Seq<ReadingView>, Error> {
    match value {
        None => Ok(Seq::empty()),
        Some(v) => match opt_multiplier(sf) {
            Err(e) => Err(e),
            Ok(m) => Ok(
                seq![
                    ReadingView {
                        mrid: 0,
                        description,
                        flow_direction,
                        kind,
                        uom,
                        power_of_ten_multiplier: m,
                        phase,
                        value: v as i64,
                        time: now,
                    },
                ],
            ),
        },
    }
}

/// The reading of each voltage.
pub open spec fn voltage_readings(
    vs: Seq<VoltageWithReference>,
    m: Option<PowerOfTenMultiplierType>,
    now: i64,
) -> Seq<ReadingView> {
    Seq::new(
        vs.len(),
        |i: int|
            ReadingView {
                mrid: 0,
                description: "voltage_"@ + phase_reference_name(vs[i].1)@,
                flow_direction: FlowDirectionType::Forward,
                kind: None,
                uom: UomType::Voltage,
                power_of_ten_multiplier: m,
                phase: Some(phase_code_of(vs[i].1)),
                value: vs[i].0 as i64,
                time: now,
            },
    )
}

pub open spec fn opt_i16(v: Option<i16>) -> Option<int> {
    match v {
        Some(x) => Some(x as int),
        None => None,
    }
}

pub open spec fn opt_u32(v: Option<u32>) -> Option<int> {
    match v {
        Some(x) => Some(x as int),
        None => None,
    }
}

/// The readings mirrored to the server at `now`: the powers, the reactive
/// power and the frequency that are present, then every voltage; or the
/// first scale factor that cannot be translated.
pub open spec fn metering_spec(m: ModbusMetering, now: i64) -> Result<Seq<ReadingView>, (Error, Seq<char>)> {
    let power = |d: Seq<char>, v: Option<i16>, p: Option<PhaseCode>|
        optional_reading(d, opt_i16(v), FlowDirectionType::Reverse, Some(KindType::Power), UomType::W, p, m.w_sf, now);
    match power("w"@, m.w, None) {
        Err(e) => Err((e, "w_sf"@)),
        Ok(w) => match power("wl1"@, m.wl1, Some(PhaseCode::PhaseA)) {
            Err(e) => Err((e, "w_sf"@)),
            Ok(wl1) => match power("wl2"@, m.wl2, Some(PhaseCode::PhaseB)) {
                Err(e) => Err((e, "w_sf"@)),
                Ok(wl2) => match power("wl3"@, m.wl3, Some(PhaseCode::PhaseC)) {
                    Err(e) => Err((e, "w_sf"@)),
                    Ok(wl3) => match optional_reading("reactive_power"@, opt_i16(m.var), FlowDirectionType::Reverse, Some(KindType::Power), UomType::VAr, None, m.var_sf, now) {
                        Err(e) => Err((e, "var_sf"@)),
                        Ok(var) => match (if m.voltages@.len() == 0 { Ok(None) } else { opt_multiplier(m.v_sf) }) {
                            Err(e) => Err((e, "v_sf"@)),
                            Ok(vm) => match optional_reading("frequency"@, opt_u32(m.hz), FlowDirectionType::Reverse, None, UomType::Hz, None, m.hz_sf, now) {
                                Err(e) => Err((e, "hz_sf"@)),
                                Ok(hz) => Ok(w + wl1 + wl2 + wl3 + var + hz + voltage_readings(m.voltages@, vm, now)),
                            },
                        },
                    },
                },
            },
        },
    }
}

fn push_optional_reading(
    readings: &mut Vec<MirrorMeterReading>,
    description: &str,
    value: Option<i64>,
    flow_direction: FlowDirectionType,
    kind: Option<KindType>,
    uom: UomType,
    phase: Option<PhaseCode>,
    sf: Option<i16>,
    now: i64,
) -> (r: Result<(), Error>)
    requires
        value matches Some(v) ==> i16::MIN <= v <= u32::MAX,
    ensures
        match optional_reading(
            description@,
            match value { Some(v) => Some(v as int), None => None },
            flow_direction,
            kind,
            uom,
            phase,
            sf,
            now,
        ) {
            Err(e) => r == Err::<(), Error>(e),
            Ok(s) => r is Ok && final(readings)@.map_values(|x: MirrorMeterReading| view_of(x))
                == old(readings)@.map_values(|x: MirrorMeterReading| view_of(x)) + s,
        },
{
    match value {
        None => {
            assert(readings@.map_values(|x: MirrorMeterReading| view_of(x)) =~= readings@.map_values(|x: MirrorMeterReading| view_of(x)) + Seq::<ReadingView>::empty());
            Ok(())
        },
        Some(v) => match to_multiplier(sf) {
            Err(e) => Err(e),
            Ok(m) => {
                let ghost before = readings@;
                readings.push(
                    MirrorMeterReading {
                        mrid: 0,
                        description: String::from_str(description),
                        flow_direction,
                        kind,
                        uom,
                        power_of_ten_multiplier: m,
                        phase,
                        value: v,
                        time: now,
                    },
                );
                assert(readings@.map_values(|x: MirrorMeterReading| view_of(x)) =~= before.map_values(|x: MirrorMeterReading| view_of(x)) + seq![view_of(readings@.last())]);
                Ok(())
            },
        },
    }
}

fn widen_i16(v: Option<i16>) -> (r: Option<i64>)
    ensures
        r == (match v { Some(x) => Some(x as i64), None => None::<i64> }),
{
    match v {
        Some(x) => Some(x as i64),
        None => None,
    }
}

/// Translates the device's measurements into the readings mirrored to the
/// server, read at `now`.
pub fn mirror_meter_readings_at(metering: &ModbusMetering, now: i64) -> (r: Result<Vec<MirrorMeterReading>, NamedError>)
    ensures
        match (r, metering_spec(*metering, now)) {
            (Ok(v), Ok(s)) => v@.map_values(|x: MirrorMeterReading| view_of(x)) == s,
            (Err(e), Err((k, n))) => e.kind == k && e.name@ == n,
            _ => false,
        },
{
    let mut readings: Vec<MirrorMeterReading> = Vec::new();
    let ghost m = *metering;
    if let Err(e) = push_optional_reading(&mut readings, "w", widen_i16(metering.w), FlowDirectionType::Reverse, Some(KindType::Power), UomType::W, None, metering.w_sf, now) {
        return Err(e.name("w_sf"));
    }
    if let Err(e) = push_optional_reading(&mut readings, "wl1", widen_i16(metering.wl1), FlowDirectionType::Reverse, Some(KindType::Power), UomType::W, Some(PhaseCode::PhaseA), metering.w_sf, now) {
        return Err(e.name("w_sf"));
    }
    if let Err(e) = push_optional_reading(&mut readings, "wl2", widen_i16(metering.wl2), FlowDirectionType::Reverse, Some(KindType::Power), UomType::W, Some(PhaseCode::PhaseB), metering.w_sf, now) {
        return Err(e.name("w_sf"));
    }
    if let Err(e) = push_optional_reading(&mut readings, "wl3", widen_i16(metering.wl3), FlowDirectionType::Reverse, Some(KindType::Power), UomType::W, Some(PhaseCode::PhaseC), metering.w_sf, now) {
        return Err(e.name("w_sf"));
    }
    if let Err(e) = push_optional_reading(&mut readings, "reactive_power", widen_i16(metering.var), FlowDirectionType::Reverse, Some(KindType::Power), UomType::VAr, None, metering.var_sf, now) {
        return Err(e.name("var_sf"));
    }
    let voltage_multiplier = if metering.voltages.len() == 0 {
        None
    } else {
        match to_multiplier(metering.v_sf) {
            Ok(x) => x,
            Err(e) => {
                return Err(e.name("v_sf"));
            },
        }
    };
    let hz = match metering.hz {
        Some(x) => Some(x as i64),
        None => None,
    };
    if let Err(e) = push_optional_reading(&mut readings, "frequency", hz, FlowDirectionType::Reverse, None, UomType::Hz, None, metering.hz_sf, now) {
        return Err(e.name("hz_sf"));
    }
    let ghost prefix = readings@.map_values(|x: MirrorMeterReading| view_of(x));
    let mut i: usize = 0;
    while i < metering.voltages.len()
        invariant
            i <= metering.voltages@.len(),
            readings@.map_values(|x: MirrorMeterReading| view_of(x))
                == prefix + voltage_readings(metering.voltages@, voltage_multiplier, now).take(i as int),
        decreases metering.voltages@.len() - i,
    {
        let VoltageWithReference(v, p) = metering.voltages[i];
        let mut description = String::from_str("voltage_");
        description.append(p.name());
        let ghost before = readings@;
        readings.push(
            MirrorMeterReading {
                mrid: 0,
                description,
                flow_direction: FlowDirectionType::Forward,
                kind: None,
                uom: UomType::Voltage,
                power_of_ten_multiplier: voltage_multiplier,
                phase: Some(phase_code(p)),
                value: v as i64,
                time: now,
            },
        );
        proof {
            let vr = voltage_readings(metering.voltages@, voltage_multiplier, now);
            assert(vr.take(i + 1) =~= vr.take(i as int).push(vr[i as int]));
            assert(readings@.map_values(|x: MirrorMeterReading| view_of(x)) =~= before.map_values(|x: MirrorMeterReading| view_of(x)).push(view_of(readings@.last())));
        }
        i = i + 1;
    }
    proof {
        let vr = voltage_readings(metering.voltages@, voltage_multiplier, now);
        assert(vr.take(vr.len() as int) =~= vr);
    }
    Ok(readings)
}

/// Translates the device's measurements into the readings mirrored to the
/// server, read now.
pub fn mirror_meter_readings(metering: &ModbusMetering) -> (r: Result<Vec<MirrorMeterReading>, NamedError>)
    ensures
        exists|now: i64|
            match (r, #[trigger] metering_spec(*metering, now)) {
                (Ok(v), Ok(s)) => v@.map_values(|x: MirrorMeterReading| view_of(x)) == s,
                (Err(e), Err((k, n))) => e.kind == k && e.name@ == n,
                _ => false,
            },
{
    let now = now_timestamp();
    mirror_meter_readings_at(metering, now)
}

/// The integer types a curve coordinate can be translated into from SEP2's
/// signed 32 bit values.
pub trait FromInt32: Sized + Copy {
    spec fn spec_from_i32(v: i32) -> Result<Self, Error>;

    fn from_i32(v: i32) -> (r: Result<Self, Error>)
        ensures
            r == Self::spec_from_i32(v),
    ;
}

impl FromInt32 for u16 {
    open spec fn spec_from_i32(v: i32) -> Result<u16, Error> {
        if v < 0 {
            Err(Error::UnsignedNegative)
        } else if v > u16::MAX {
            Err(Error::SignedOverflow)
        } else {
            Ok(v as u16)
        }
    }

    fn from_i32(v: i32) -> (r: Result<u16, Error>) {
        if v < 0 {
            Err(Error::UnsignedNegative)
        } else if v > u16::MAX as i32 {
            Err(Error::SignedOverflow)
        } else {
            Ok(v as u16)
        }
    }
}

impl FromInt32 for u32 {
    open spec fn spec_from_i32(v: i32) -> Result<u32, Error> {
        if v < 0 {
            Err(Error::UnsignedNegative)
        } else {
            Ok(v as u32)
        }
    }

    fn from_i32(v: i32) -> (r: Result<u32, Error>) {
        if v < 0 {
            Err(Error::UnsignedNegative)
        } else {
            Ok(v as u32)
        }
    }
}

impl FromInt32 for i16 {
    open spec fn spec_from_i32(v: i32) -> Result<i16, Error> {
        if v < i16::MIN || v > i16::MAX {
            Err(Error::SignedOverflow)
        } else {
            Ok(v as i16)
        }
    }

    fn from_i32(v: i32) -> (r: Result<i16, Error>) {
        if v < i16::MIN as i32 || v > i16::MAX as i32 {
            Err(Error::SignedOverflow)
        } else {
            Ok(v as i16)
        }
    }
}

/// A curve point as SunSpec coordinates. For the trip curves the two
/// protocols order the axes oppositely, so the point is `flipped`.
pub open spec fn point_spec<TX: FromInt32, TY: FromInt32>(d: CurveData, flipped: bool) -> Result<(TX, TY), Error> {
    let (a, b) = if flipped { (d.yvalue, d.xvalue) } else { (d.xvalue, d.yvalue) };
    match TX::spec_from_i32(a) {
        Err(e) => Err(e),
        Ok(x) => match TY::spec_from_i32(b) {
            Err(e) => Err(e),
            Ok(y) => Ok((x, y)),
        },
    }
}

/// The points of a curve as SunSpec coordinates, or the error of the first
/// point that cannot be translated.
pub open spec fn points_spec<TX: FromInt32, TY: FromInt32>(s: Seq<CurveData>, flipped: bool) -> Result<Seq<(TX, TY)>, Error>
    decreases s.len(),
{
    if s.len() == 0 {
        Ok(Seq::empty())
    } else {
        match points_spec::<TX, TY>(s.drop_last(), flipped) {
            Err(e) => Err(e),
            Ok(p) => match point_spec::<TX, TY>(s.last(), flipped) {
                Err(e) => Err(e),
                Ok(q) => Ok(p.push(q)),
            },
        }
    }
}

/// A SEP2 curve as SunSpec points with the scale factor of each axis.
pub open spec fn curve_spec<TX: FromInt32, TY: FromInt32>(c: DERCurve, flipped: bool) -> Result<(Seq<(TX, TY)>, i16, i16), Error> {
    match points_spec::<TX, TY>(c.curve_data@, flipped) {
        Err(e) => Err(e),
        Ok(p) => if flipped {
            Ok((p, exponent_of(c.y_multiplier) as i16, exponent_of(c.x_multiplier) as i16))
        } else {
            Ok((p, exponent_of(c.x_multiplier) as i16, exponent_of(c.y_multiplier) as i16))
        },
    }
}

/// Convert a DER curve to the SunSpec format. For some curves, the x/y axes
/// agree between the two protocols. For the trip curves they are reversed,
/// which `flipped` asks for.
fn convert_curve<TX: FromInt32, TY: FromInt32>(input: &DERCurve, flipped: bool) -> (r: Result<ModbusCurve<TX, TY>, Error>)
    ensures
        match (r, curve_spec::<TX, TY>(*input, flipped)) {
            (Ok(c), Ok((p, x, y))) => c.points@ == p && c.sf_x == x && c.sf_y == y,
            (Err(e), Err(f)) => e == f,
            _ => false,
        },
{
    let mut points: Vec<(TX, TY)> = Vec::new();
    let mut i: usize = 0;
    let ghost data = input.curve_data@;
    while i < input.curve_data.len()
        invariant
            i <= data.len(),
            data == input.curve_data@,
            points_spec::<TX, TY>(data.take(i as int), flipped) == Ok::<Seq<(TX, TY)>, Error>(points@),
        decreases data.len() - i,
    {
        let d = input.curve_data[i];
        proof {
            assert(data.take(i + 1).drop_last() =~= data.take(i as int));
            assert(data.take(i + 1).last() == d);
        }
        let (a, b) = if flipped { (d.yvalue, d.xvalue) } else { (d.xvalue, d.yvalue) };
        let x = match TX::from_i32(a) {
            Ok(x) => x,
            Err(e) => {
                proof {
                    lemma_points_error_extends::<TX, TY>(data, (i + 1) as int, flipped);
                }
                return Err(e);
            },
        };
        let y = match TY::from_i32(b) {
            Ok(y) => y,
            Err(e) => {
                proof {
                    lemma_points_error_extends::<TX, TY>(data, (i + 1) as int, flipped);
                }
                return Err(e);
            },
        };
        points.push((x, y));
        i = i + 1;
    }
    proof {
        assert(data.take(data.len() as int) =~= data);
    }
    let (sf_x, sf_y) = if flipped {
        (multiplier_exponent(input.y_multiplier), multiplier_exponent(input.x_multiplier))
    } else {
        (multiplier_exponent(input.x_multiplier), multiplier_exponent(input.y_multiplier))
    };
    Ok(ModbusCurve { points, sf_x, sf_y })
}

/// An error in the points of a prefix is the error of the whole curve.
proof fn lemma_points_error_extends<TX: FromInt32, TY: FromInt32>(s: Seq<CurveData>, k: int, flipped: bool)
    requires
        0 <= k <= s.len(),
        points_spec::<TX, TY>(s.take(k), flipped) is Err,
    ensures
        points_spec::<TX, TY>(s, flipped) == points_spec::<TX, TY>(s.take(k), flipped),
    decreases s.len(),
{
    if k == s.len() {
        assert(s.take(k) =~= s);
    } else {
        assert(s.drop_last().take(k) =~= s.take(k));
        lemma_points_error_extends::<TX, TY>(s.drop_last(), k, flipped);
    }
}

/// The first curve in `curves` linked by `href`.
pub open spec fn lookup(curves: Seq<(String, DERCurve)>, href: Seq<char>) -> Option<DERCurve>
    decreases curves.len(),
{
    if curves.len() == 0 {
        None
    } else {
        match lookup(curves.drop_last(), href) {
            Some(c) => Some(c),
            None => if curves.last().0@ == href {
                Some(curves.last().1)
            } else {
                None
            },
        }
    }
}

/// The curve an optional link refers to, if it is known.
pub open spec fn linked_curve(curves: Seq<(String, DERCurve)>, link: Option<DERCurveLink>) -> Option<DERCurve> {
    match link {
        Some(l) => lookup(curves, l.href@),
        None => None,
    }
}

proof fn lemma_lookup_prefix(curves: Seq<(String, DERCurve)>, k: int, href: Seq<char>)
    requires
        0 <= k <= curves.len(),
        lookup(curves.take(k), href) is Some,
    ensures
        lookup(curves, href) == lookup(curves.take(k), href),
    decreases curves.len(),
{
    if k == curves.len() {
        assert(curves.take(k) =~= curves);
    } else {
        assert(curves.drop_last().take(k) =~= curves.take(k));
        lemma_lookup_prefix(curves.drop_last(), k, href);
    }
}

/// The index of the first curve in `curves` linked by the optional link.
fn find_curve(curves: &Vec<(String, DERCurve)>, link: &Option<DERCurveLink>) -> (r: Option<usize>)
    ensures
        match linked_curve(curves@, *link) {
            Some(c) => r matches Some(i) && i < curves@.len() && curves@[i as int].1 == c,
            None => r is None,
        },
{
    let href = match link {
        Some(l) => &l.href,
        None => {
            return None;
        },
    };
    let ghost s = curves@;
    let mut i: usize = 0;
    while i < curves.len()
        invariant
            i <= s.len(),
            s == curves@,
            linked_curve(s, *link) == lookup(s, href@),
            lookup(s.take(i as int), href@) is None,
        decreases s.len() - i,
    {
        proof {
            assert(s.take(i + 1).drop_last() =~= s.take(i as int));
        }
        if curves[i].0 == *href {
            proof {
                assert(s.take(i + 1).last() == s[i as int]);
                assert(lookup(s.take(i + 1), href@) == Some(s[i as int].1));
                lemma_lookup_prefix(s, i + 1, href@);
            }
            return Some(i);
        }
        i = i + 1;
    }
    proof {
        assert(s.take(s.len() as int) =~= s);
    }
    None
}

/// The curve dependent reference of model 705 for a SEP2 reference.
pub open spec fn volt_var_dept_ref_of(u: DERUnitRefType) -> Result<VoltVarDeptRef, Error> {
    match u {
        DERUnitRefType::SetMaxW => Ok(VoltVarDeptRef::WMaxPct),
        DERUnitRefType::SetMaxVar => Ok(VoltVarDeptRef::VarMaxPct),
        DERUnitRefType::StatVarAvail => Ok(VoltVarDeptRef::VarAvalPct),
        _ => Err(Error::UnmappableInvalid),
    }
}

/// The curve dependent reference of model 706 for a SEP2 reference.
pub open spec fn volt_watt_dept_ref_of(u: DERUnitRefType) -> Result<VoltWattDeptRef, Error> {
    match u {
        DERUnitRefType::SetMaxW => Ok(VoltWattDeptRef::WMaxPct),
        DERUnitRefType::StatWAvail => Ok(VoltWattDeptRef::WAvalPct),
        _ => Err(Error::UnmappableInvalid),
    }
}

/// The reactive power mode of model 704 for a SEP2 reference.
pub open spec fn var_set_mod_of(u: DERUnitRefType) -> Result<VarSetMod, Error> {
    match u {
        DERUnitRefType::SetMaxW => Ok(VarSetMod::WMaxPct),
        DERUnitRefType::SetMaxVar => Ok(VarSetMod::VarMaxPct),
        DERUnitRefType::StatVarAvail => Ok(VarSetMod::VarAvailPct),
        _ => Err(Error::UnmappableInvalid),
    }
}

fn volt_var_dept_ref(u: DERUnitRefType) -> (r: Result<VoltVarDeptRef, Error>)
    ensures
        r == volt_var_dept_ref_of(u),
{
    match u {
        DERUnitRefType::SetMaxW => Ok(VoltVarDeptRef::WMaxPct),
        DERUnitRefType::SetMaxVar => Ok(VoltVarDeptRef::VarMaxPct),
        DERUnitRefType::StatVarAvail => Ok(VoltVarDeptRef::VarAvalPct),
        _ => Err(Error::UnmappableInvalid),
    }
}

fn volt_watt_dept_ref(u: DERUnitRefType) -> (r: Result<VoltWattDeptRef, Error>)
    ensures
        r == volt_watt_dept_ref_of(u),
{
    match u {
        DERUnitRefType::SetMaxW => Ok(VoltWattDeptRef::WMaxPct),
        DERUnitRefType::StatWAvail => Ok(VoltWattDeptRef::WAvalPct),
        _ => Err(Error::UnmappableInvalid),
    }
}

fn var_set_mod(u: DERUnitRefType) -> (r: Result<VarSetMod, Error>)
    ensures
        r == var_set_mod_of(u),
{
    match u {
        DERUnitRefType::SetMaxW => Ok(VarSetMod::WMaxPct),
        DERUnitRefType::SetMaxVar => Ok(VarSetMod::VarMaxPct),
        DERUnitRefType::StatVarAvail => Ok(VarSetMod::VarAvailPct),
        _ => Err(Error::UnmappableInvalid),
    }
}

/// The error of translating an optional curve, if any.
pub open spec fn curve_err<TX: FromInt32, TY: FromInt32>(c: Option<DERCurve>, flipped: bool) -> Option<Error> {
    match c {
        Some(d) => match curve_spec::<TX, TY>(d, flipped) {
            Err(e) => Some(e),
            Ok(_) => None,
        },
        None => None,
    }
}

pub open spec fn volt_var_dept_ref_err(c: Option<DERCurve>) -> Option<Error> {
    match c {
        Some(d) => match volt_var_dept_ref_of(d.y_ref_type) {
            Err(e) => Some(e),
            Ok(_) => None,
        },
        None => None,
    }
}

pub open spec fn volt_watt_dept_ref_err(c: Option<DERCurve>) -> Option<Error> {
    match c {
        Some(d) => match volt_watt_dept_ref_of(d.y_ref_type) {
            Err(e) => Some(e),
            Ok(_) => None,
        },
        None => None,
    }
}

/// The autonomous voltage reference time constant, in whole seconds, does
/// not fit in the 16 bits of model 705.
pub open spec fn vref_auto_tms_err(c: Option<DERCurve>) -> Option<Error> {
    match c {
        Some(d) => match d.autonomous_v_ref_time_constant {
            Some(t) => if hundredths_to_seconds_spec(t) > u16::MAX {
                Some(Error::SignedOverflow)
            } else {
                None
            },
            None => None,
        },
        None => None,
    }
}

pub open spec fn var_set_mod_err(v: Option<FixedVar>) -> Option<Error> {
    match v {
        Some(f) => match var_set_mod_of(f.ref_type) {
            Err(e) => Some(e),
            Ok(_) => None,
        },
        None => None,
    }
}

/// An enter service voltage is negative.
pub open spec fn es_volt_err(v: Option<i16>) -> Option<Error> {
    match v {
        Some(x) => if x < 0 {
            Some(Error::UnsignedNegative)
        } else {
            None
        },
        None => None,
    }
}

/// The error named `name` if there is one, else the error after it.
pub open spec fn first_err(e: Option<Error>, name: Seq<char>, rest: Option<(Error, Seq<char>)>) -> Option<(Error, Seq<char>)> {
    match e {
        Some(k) => Some((k, name)),
        None => rest,
    }
}

/// The first attribute of the volt-var, reactive power and volt-watt
/// controls that cannot be translated, with the parameter it was to give.
pub open spec fn volt_error(a: ControlAttributes) -> Option<(Error, Seq<char>)> {
    let b = a.inner.der_control_base;
    let curves = a.curves@;
    let vv = linked_curve(curves, b.op_mod_volt_var);
    let vw = linked_curve(curves, b.op_mod_volt_watt);
    first_err(curve_err::<u16, i16>(vv, false), "der_volt_var"@, first_err(volt_var_dept_ref_err(vv), "der_volt_var_dept_ref"@, first_err(vref_auto_tms_err(vv), "vref_auto_tms"@, first_err(var_set_mod_err(b.op_mod_fixed_var), "var_set_mod"@, first_err(curve_err::<u16, i16>(vw, false), "der_volt_watt"@, first_err(volt_watt_dept_ref_err(vw), "der_volt_watt_dept_ref"@, None))))))
}

/// The first trip curve that cannot be translated, with its parameter.
pub open spec fn trip_error(a: ControlAttributes) -> Option<(Error, Seq<char>)> {
    let b = a.inner.der_control_base;
    let curves = a.curves@;
    first_err(curve_err::<u16, u32>(linked_curve(curves, b.op_mod_lvrt_must_trip), true), "der_trip_lv_must"@, first_err(curve_err::<u16, u32>(linked_curve(curves, b.op_mod_lvrt_may_trip), true), "der_trip_lv_may"@, first_err(curve_err::<u16, u32>(linked_curve(curves, b.op_mod_lvrt_momentary_cessation), true), "der_trip_lv_mom_cess"@, first_err(curve_err::<u16, u32>(linked_curve(curves, b.op_mod_hvrt_must_trip), true), "der_trip_hv_must"@, first_err(curve_err::<u16, u32>(linked_curve(curves, b.op_mod_hvrt_may_trip), true), "der_trip_hv_may"@, first_err(curve_err::<u16, u32>(linked_curve(curves, b.op_mod_hvrt_momentary_cessation), true), "der_trip_hv_mom_cess"@, first_err(curve_err::<u32, u32>(linked_curve(curves, b.op_mod_lfrt_must_trip), true), "der_trip_lf_must"@, first_err(curve_err::<u32, u32>(linked_curve(curves, b.op_mod_lfrt_may_trip), true), "der_trip_lf_may"@, first_err(curve_err::<u32, u32>(linked_curve(curves, b.op_mod_hfrt_must_trip), true), "der_trip_hf_must"@, first_err(curve_err::<u32, u32>(linked_curve(curves, b.op_mod_hfrt_may_trip), true), "der_trip_hf_may"@, None))))))))))
}

/// The first enter service voltage that cannot be translated, with its
/// parameter.
pub open spec fn es_error(a: ControlAttributes) -> Option<(Error, Seq<char>)> {
    first_err(es_volt_err(a.inner.set_es_high_volt), "esv_hi"@, first_err(es_volt_err(a.inner.set_es_low_volt), "esv_lo"@, None))
}

/// `first` if it holds an error, else `rest`.
pub open spec fn either(first: Option<(Error, Seq<char>)>, rest: Option<(Error, Seq<char>)>) -> Option<(Error, Seq<char>)> {
    if first is Some {
        first
    } else {
        rest
    }
}

/// The first attribute of the controls that cannot be translated into
/// parameters, with the parameter it was to give.
pub open spec fn parameters_error(a: ControlAttributes) -> Option<(Error, Seq<char>)> {
    either(volt_error(a), either(trip_error(a), es_error(a)))
}

/// A translated curve agrees with the SEP2 curve it came from.
pub open spec fn curve_matches<TX: FromInt32, TY: FromInt32>(c: Option<ModbusCurve<TX, TY>>, d: Option<DERCurve>, flipped: bool) -> bool {
    match (c, d) {
        (None, None) => true,
        (Some(c), Some(d)) => match curve_spec::<TX, TY>(d, flipped) {
            Ok((p, x, y)) => c.points@ == p && c.sf_x == x && c.sf_y == y,
            Err(_) => false,
        },
        _ => false,
    }
}

/// The parameters without their curves.
pub open spec fn without_curves(p: ModbusParameters) -> ModbusParameters {
    ModbusParameters {
        der_volt_var: None,
        der_volt_watt: None,
        der_trip_lv_must: None,
        der_trip_lv_may: None,
        der_trip_lv_mom_cess: None,
        der_trip_hv_must: None,
        der_trip_hv_may: None,
        der_trip_hv_mom_cess: None,
        der_trip_lf_must: None,
        der_trip_lf_may: None,
        der_trip_hf_must: None,
        der_trip_hf_may: None,
        ..p
    }
}

/// A value at SEP2's scale of hundredths.
pub open spec fn hundredths<T>(v: T) -> ScaledValue<T> {
    ScaledValue { value: v, sf: SEP2_HUNDREDTHS_SF }
}

/// The frequency droop control for model 711: the dead bands and droops in
/// thousandths, the response time in hundredths of a second.
pub open spec fn droop_ctl_of(d: FreqDroopType) -> Model711Ctl {
    Model711Ctl {
        db_of: ScaledValue { value: d.d_bof, sf: SEP2_THOUSANDTHS_SF },
        db_uf: ScaledValue { value: d.d_buf, sf: SEP2_THOUSANDTHS_SF },
        k_of: ScaledValue { value: d.k_of, sf: SEP2_THOUSANDTHS_SF },
        k_uf: ScaledValue { value: d.k_uf, sf: SEP2_THOUSANDTHS_SF },
        rsp_tms: ScaledValue { value: d.open_loop_tms as u32, sf: SEP2_HUNDREDTHS_SF },
    }
}

/// The parameters for the controls, apart from the curves, when every
/// attribute can be translated (AS5438 Tables F.3 to F.12 onto E.3 to E.12).
pub open spec fn expected_parameters(a: ControlAttributes) -> ModbusParameters {
    let b = a.inner.der_control_base;
    let c = a.inner;
    let curves = a.curves@;
    let vv = linked_curve(curves, b.op_mod_volt_var);
    let vw = linked_curve(curves, b.op_mod_volt_watt);
    ModbusParameters {
        pfw_inj_ena: Some(if b.op_mod_fixed_pf_inject_w is Some { PfwInjEna::Enabled } else { PfwInjEna::Disabled }),
        pfw_inj_pf: match b.op_mod_fixed_pf_inject_w {
            Some(p) => Some(ScaledValue { value: p.displacement, sf: exponent_of(p.multiplier) as i16 }),
            None => None,
        },
        pfw_inj_ext: match b.op_mod_fixed_pf_inject_w {
            Some(p) => Some(if p.excitation { PfwInjExt::UnderExcited } else { PfwInjExt::OverExcited }),
            None => None,
        },
        pfw_abs_ena: Some(if b.op_mod_fixed_pf_absorb_w is Some { PfwAbsEna::Enabled } else { PfwAbsEna::Disabled }),
        pfw_abs_pf: match b.op_mod_fixed_pf_absorb_w {
            Some(p) => Some(ScaledValue { value: p.displacement, sf: exponent_of(p.multiplier) as i16 }),
            None => None,
        },
        pfw_abs_ext: match b.op_mod_fixed_pf_absorb_w {
            Some(p) => Some(if p.excitation { PfwAbsExt::UnderExcited } else { PfwAbsExt::OverExcited }),
            None => None,
        },
        vref: match vv {
            Some(d) => match d.v_ref {
                Some(p) => Some(hundredths(p.spec_get())),
                None => None,
            },
            None => None,
        },
        vref_auto_ena: match vv {
            Some(d) => Some(if d.autonomous_v_ref_enable == Some(true) { CrvVRefAutoEna::Enabled } else { CrvVRefAutoEna::Disabled }),
            None => None,
        },
        vref_auto_tms: match vv {
            Some(d) => match d.autonomous_v_ref_time_constant {
                Some(t) => Some(hundredths_to_seconds_spec(t) as u16),
                None => None,
            },
            None => None,
        },
        der_volt_var: None,
        der_volt_var_tms: match vv {
            Some(d) => match d.open_loop_tms {
                Some(t) => Some(hundredths(t as u32)),
                None => None,
            },
            None => None,
        },
        der_volt_var_dept_ref: match vv {
            Some(d) => match volt_var_dept_ref_of(d.y_ref_type) {
                Ok(r) => Some(r),
                Err(_) => None,
            },
            None => None,
        },
        der_volt_watt: None,
        der_volt_watt_tms: match vw {
            Some(d) => match d.open_loop_tms {
                Some(t) => Some(hundredths(t as u32)),
                None => None,
            },
            None => None,
        },
        der_volt_watt_dept_ref: match vw {
            Some(d) => match volt_watt_dept_ref_of(d.y_ref_type) {
                Ok(r) => Some(r),
                Err(_) => None,
            },
            None => None,
        },
        var_set_ena: Some(if b.op_mod_fixed_var is Some { VarSetEna::Enabled } else { VarSetEna::Disabled }),
        var_set_mod: match b.op_mod_fixed_var {
            Some(f) => match var_set_mod_of(f.ref_type) {
                Ok(m) => Some(m),
                Err(_) => None,
            },
            None => None,
        },
        var_set_pct: match b.op_mod_fixed_var {
            Some(f) => Some(hundredths(f.value.spec_get())),
            None => None,
        },
        der_trip_lv_must: None,
        der_trip_lv_may: None,
        der_trip_lv_mom_cess: None,
        der_trip_hv_must: None,
        der_trip_hv_may: None,
        der_trip_hv_mom_cess: None,
        der_trip_lf_must: None,
        der_trip_lf_may: None,
        der_trip_hf_must: None,
        der_trip_hf_may: None,
        droop_ctl: match b.op_mod_freq_droop {
            Some(d) => Some(droop_ctl_of(d)),
            None => None,
        },
        es: match b.op_mod_connect {
            Some(x) => Some(if x { Es::Enabled } else { Es::Disabled }),
            None => None,
        },
        esv_hi: match c.set_es_high_volt {
            Some(v) => Some(hundredths(v as u16)),
            None => None,
        },
        esv_lo: match c.set_es_low_volt {
            Some(v) => Some(hundredths(v as u16)),
            None => None,
        },
        es_hz_hi: match c.set_es_high_freq {
            Some(v) => Some(hundredths(v as u32)),
            None => None,
        },
        es_hz_lo: match c.set_es_low_freq {
            Some(v) => Some(hundredths(v as u32)),
            None => None,
        },
        es_dly_tms: match c.set_es_delay {
            Some(v) => Some(hundredths_to_seconds_spec(v) as u32),
            None => None,
        },
        es_rnd_tms: match c.set_es_random_delay {
            Some(v) => Some(hundredths_to_seconds_spec(v) as u32),
            None => None,
        },
        es_rmp_tms: match c.set_es_ramp_tms {
            Some(v) => Some(hundredths_to_seconds_spec(v) as u32),
            None => None,
        },
        w_max_lim_pct_ena: Some(if b.op_mod_max_lim_w is Some { WMaxLimPctEna::Enabled } else { WMaxLimPctEna::Disabled }),
        w_max_lim_pct: match b.op_mod_max_lim_w {
            Some(p) => Some(hundredths(p.spec_get())),
            None => None,
        },
        w_set_pct: match b.op_mod_fixed_w {
            Some(p) => Some(hundredths(p.spec_get())),
            None => None,
        },
        w_set_ena: Some(if b.op_mod_fixed_w is Some || b.op_mod_target_w is Some { WSetEna::Enabled } else { WSetEna::Disabled }),
        w_set_mod: if b.op_mod_fixed_w is Some {
            Some(WSetMod::WMaxPct)
        } else if b.op_mod_target_w is Some {
            Some(WSetMod::Watts)
        } else {
            None
        },
        w_set: match b.op_mod_target_w {
            Some(p) => Some(ScaledValue { value: p.value as i32, sf: exponent_of(p.multiplier) as i16 }),
            None => None,
        },
    }
}

/// The index of the first curve in `curves` linked by the optional link.
fn linked_curve_index(curves: &Vec<(String, DERCurve)>, link: &Option<DERCurveLink>) -> (r: Option<usize>)
    ensures
        match linked_curve(curves@, *link) {
            Some(c) => r matches Some(i) && i < curves@.len() && curves@[i as int].1 == c,
            None => r is None,
        },
{
    find_curve(curves, link)
}

fn pf_scaled(p: &Option<PowerFactorWithExcitation>) -> (r: Option<ScaledValue<u16>>)
    ensures
        r == (match *p {
            Some(p) => Some(ScaledValue { value: p.displacement, sf: exponent_of(p.multiplier) as i16 }),
            None => None,
        }),
{
    match p {
        Some(p) => Some(ScaledValue::new(p.displacement, multiplier_exponent(p.multiplier))),
        None => None,
    }
}

fn scaled_hundredths_u32(v: Option<u16>) -> (r: Option<ScaledValue<u32>>)
    ensures
        r == (match v {
            Some(t) => Some(hundredths(t as u32)),
            None => None,
        }),
{
    match v {
        Some(t) => Some(ScaledValue::new(t as u32, SEP2_HUNDREDTHS_SF)),
        None => None,
    }
}

fn seconds_of(v: Option<u32>) -> (r: Option<u32>)
    ensures
        r == (match v {
            Some(t) => Some(hundredths_to_seconds_spec(t) as u32),
            None => None,
        }),
{
    match v {
        Some(t) => Some(hundredths_to_seconds(t)),
        None => None,
    }
}

fn es_volt(v: Option<i16>) -> (r: Result<Option<ScaledValue<u16>>, Error>)
    ensures
        match es_volt_err(v) {
            Some(e) => r == Err::<Option<ScaledValue<u16>>, Error>(e),
            None => r == Ok::<Option<ScaledValue<u16>>, Error>(match v {
                Some(x) => Some(hundredths(x as u16)),
                None => None,
            }),
        },
{
    match v {
        Some(x) => if x < 0 {
            Err(Error::UnsignedNegative)
        } else {
            Ok(Some(ScaledValue::new(x as u16, SEP2_HUNDREDTHS_SF)))
        },
        None => Ok(None),
    }
}

impl Model711Ctl {
    /// The frequency droop control for a SEP2 frequency droop.
    pub fn from_droop(d: FreqDroopType) -> (r: Model711Ctl)
        ensures
            r == droop_ctl_of(d),
    {
        Model711Ctl {
            db_of: ScaledValue::new(d.d_bof, SEP2_THOUSANDTHS_SF),
            db_uf: ScaledValue::new(d.d_buf, SEP2_THOUSANDTHS_SF),
            k_of: ScaledValue::new(d.k_of, SEP2_THOUSANDTHS_SF),
            k_uf: ScaledValue::new(d.k_uf, SEP2_THOUSANDTHS_SF),
            rsp_tms: ScaledValue::new(d.open_loop_tms as u32, SEP2_HUNDREDTHS_SF),
        }
    }
}

/// The volt-var, reactive power and volt-watt parameters that can fail to
/// translate.
pub struct VoltParts {
    pub der_volt_var: Option<ModbusCurve<u16, i16>>,
    pub der_volt_var_dept_ref: Option<VoltVarDeptRef>,
    pub vref_auto_tms: Option<u16>,
    pub var_set_mod: Option<VarSetMod>,
    pub der_volt_watt: Option<ModbusCurve<u16, i16>>,
    pub der_volt_watt_dept_ref: Option<VoltWattDeptRef>,
}

/// The trip curves.
pub struct TripCurves {
    pub der_trip_lv_must: Option<ModbusCurve<u16, u32>>,
    pub der_trip_lv_may: Option<ModbusCurve<u16, u32>>,
    pub der_trip_lv_mom_cess: Option<ModbusCurve<u16, u32>>,
    pub der_trip_hv_must: Option<ModbusCurve<u16, u32>>,
    pub der_trip_hv_may: Option<ModbusCurve<u16, u32>>,
    pub der_trip_hv_mom_cess: Option<ModbusCurve<u16, u32>>,
    pub der_trip_lf_must: Option<ModbusCurve<u32, u32>>,
    pub der_trip_lf_may: Option<ModbusCurve<u32, u32>>,
    pub der_trip_hf_must: Option<ModbusCurve<u32, u32>>,
    pub der_trip_hf_may: Option<ModbusCurve<u32, u32>>,
}

fn translate_volt_parts(attrs: &ControlAttributes, vv_index: Option<usize>, vw_index: Option<usize>) -> (r: Result<VoltParts, NamedError>)
    requires
        match linked_curve(attrs.curves@, attrs.inner.der_control_base.op_mod_volt_var) {
            Some(c) => vv_index matches Some(i) && i < attrs.curves@.len() && attrs.curves@[i as int].1 == c,
            None => vv_index is None,
        },
        match linked_curve(attrs.curves@, attrs.inner.der_control_base.op_mod_volt_watt) {
            Some(c) => vw_index matches Some(i) && i < attrs.curves@.len() && attrs.curves@[i as int].1 == c,
            None => vw_index is None,
        },
    ensures
        match (r, volt_error(*attrs)) {
            (Ok(t), None) => {
                let a = *attrs;
                let x = expected_parameters(a);
                &&& curve_matches::<u16, i16>(t.der_volt_var, linked_curve(a.curves@, a.inner.der_control_base.op_mod_volt_var), false)
                &&& curve_matches::<u16, i16>(t.der_volt_watt, linked_curve(a.curves@, a.inner.der_control_base.op_mod_volt_watt), false)
                &&& t.der_volt_var_dept_ref == x.der_volt_var_dept_ref
                &&& t.vref_auto_tms == x.vref_auto_tms
                &&& t.var_set_mod == x.var_set_mod
                &&& t.der_volt_watt_dept_ref == x.der_volt_watt_dept_ref
            },
            (Err(e), Some((k, n))) => e.kind == k && e.name@ == n,
            _ => false,
        },
{
    let b = &attrs.inner.der_control_base;
    let der_volt_var = match vv_index {
        None => None,
        Some(i) => match convert_curve::<u16, i16>(&attrs.curves[i].1, false) {
            Ok(curve) => Some(curve),
            Err(e) => {
                return Err(e.name("der_volt_var"));
            },
        },
    };
    let der_volt_var_dept_ref = match vv_index {
        None => None,
        Some(i) => match volt_var_dept_ref(attrs.curves[i].1.y_ref_type) {
            Ok(d) => Some(d),
            Err(e) => {
                return Err(e.name("der_volt_var_dept_ref"));
            },
        },
    };
    let vref_auto_tms = match vv_index {
        None => None,
        Some(i) => match attrs.curves[i].1.autonomous_v_ref_time_constant {
            None => None,
            Some(t) => {
                let secs = hundredths_to_seconds(t);
                if secs > u16::MAX as u32 {
                    return Err(Error::SignedOverflow.name("vref_auto_tms"));
                }
                Some(secs as u16)
            },
        },
    };
    let var_set_mod = match &b.op_mod_fixed_var {
        None => None,
        Some(f) => match var_set_mod(f.ref_type) {
            Ok(m) => Some(m),
            Err(e) => {
                return Err(e.name("var_set_mod"));
            },
        },
    };
    let der_volt_watt = match vw_index {
        None => None,
        Some(i) => match convert_curve::<u16, i16>(&attrs.curves[i].1, false) {
            Ok(curve) => Some(curve),
            Err(e) => {
                return Err(e.name("der_volt_watt"));
            },
        },
    };
    let der_volt_watt_dept_ref = match vw_index {
        None => None,
        Some(i) => match volt_watt_dept_ref(attrs.curves[i].1.y_ref_type) {
            Ok(d) => Some(d),
            Err(e) => {
                return Err(e.name("der_volt_watt_dept_ref"));
            },
        },
    };
    Ok(VoltParts { der_volt_var, der_volt_var_dept_ref, vref_auto_tms, var_set_mod, der_volt_watt, der_volt_watt_dept_ref })
}

#[verifier::rlimit(50)]
fn translate_trip_curves(attrs: &ControlAttributes) -> (r: Result<TripCurves, NamedError>)
    ensures
        match (r, trip_error(*attrs)) {
            (Ok(t), None) => {
                let a = *attrs;
                &&& curve_matches::<u16, u32>(t.der_trip_lv_must, linked_curve(a.curves@, a.inner.der_control_base.op_mod_lvrt_must_trip), true)
                &&& curve_matches::<u16, u32>(t.der_trip_lv_may, linked_curve(a.curves@, a.inner.der_control_base.op_mod_lvrt_may_trip), true)
                &&& curve_matches::<u16, u32>(t.der_trip_lv_mom_cess, linked_curve(a.curves@, a.inner.der_control_base.op_mod_lvrt_momentary_cessation), true)
                &&& curve_matches::<u16, u32>(t.der_trip_hv_must, linked_curve(a.curves@, a.inner.der_control_base.op_mod_hvrt_must_trip), true)
                &&& curve_matches::<u16, u32>(t.der_trip_hv_may, linked_curve(a.curves@, a.inner.der_control_base.op_mod_hvrt_may_trip), true)
                &&& curve_matches::<u16, u32>(t.der_trip_hv_mom_cess, linked_curve(a.curves@, a.inner.der_control_base.op_mod_hvrt_momentary_cessation), true)
                &&& curve_matches::<u32, u32>(t.der_trip_lf_must, linked_curve(a.curves@, a.inner.der_control_base.op_mod_lfrt_must_trip), true)
                &&& curve_matches::<u32, u32>(t.der_trip_lf_may, linked_curve(a.curves@, a.inner.der_control_base.op_mod_lfrt_may_trip), true)
                &&& curve_matches::<u32, u32>(t.der_trip_hf_must, linked_curve(a.curves@, a.inner.der_control_base.op_mod_hfrt_must_trip), true)
                &&& curve_matches::<u32, u32>(t.der_trip_hf_may, linked_curve(a.curves@, a.inner.der_control_base.op_mod_hfrt_may_trip), true)
            },
            (Err(e), Some((k, n))) => e.kind == k && e.name@ == n,
            _ => false,
        },
{
    let b = &attrs.inner.der_control_base;
    let der_trip_lv_must = match linked_curve_index(&attrs.curves, &b.op_mod_lvrt_must_trip) {
        None => None,
        Some(i) => match convert_curve::<u16, u32>(&attrs.curves[i].1, true) {
            Ok(c) => Some(c),
            Err(e) => {
                return Err(e.name("der_trip_lv_must"));
            },
        },
    };
    let der_trip_lv_may = match linked_curve_index(&attrs.curves, &b.op_mod_lvrt_may_trip) {
        None => None,
        Some(i) => match convert_curve::<u16, u32>(&attrs.curves[i].1, true) {
            Ok(c) => Some(c),
            Err(e) => {
                return Err(e.name("der_trip_lv_may"));
            },
        },
    };
    let der_trip_lv_mom_cess = match linked_curve_index(&attrs.curves, &b.op_mod_lvrt_momentary_cessation) {
        None => None,
        Some(i) => match convert_curve::<u16, u32>(&attrs.curves[i].1, true) {
            Ok(c) => Some(c),
            Err(e) => {
                return Err(e.name("der_trip_lv_mom_cess"));
            },
        },
    };
    let der_trip_hv_must = match linked_curve_index(&attrs.curves, &b.op_mod_hvrt_must_trip) {
        None => None,
        Some(i) => match convert_curve::<u16, u32>(&attrs.curves[i].1, true) {
            Ok(c) => Some(c),
            Err(e) => {
                return Err(e.name("der_trip_hv_must"));
            },
        },
    };
    let der_trip_hv_may = match linked_curve_index(&attrs.curves, &b.op_mod_hvrt_may_trip) {
        None => None,
        Some(i) => match convert_curve::<u16, u32>(&attrs.curves[i].1, true) {
            Ok(c) => Some(c),
            Err(e) => {
                return Err(e.name("der_trip_hv_may"));
            },
        },
    };
    let der_trip_hv_mom_cess = match linked_curve_index(&attrs.curves, &b.op_mod_hvrt_momentary_cessation) {
        None => None,
        Some(i) => match convert_curve::<u16, u32>(&attrs.curves[i].1, true) {
            Ok(c) => Some(c),
            Err(e) => {
                return Err(e.name("der_trip_hv_mom_cess"));
            },
        },
    };
    let der_trip_lf_must = match linked_curve_index(&attrs.curves, &b.op_mod_lfrt_must_trip) {
        None => None,
        Some(i) => match convert_curve::<u32, u32>(&attrs.curves[i].1, true) {
            Ok(c) => Some(c),
            Err(e) => {
                return Err(e.name("der_trip_lf_must"));
            },
        },
    };
    let der_trip_lf_may = match linked_curve_index(&attrs.curves, &b.op_mod_lfrt_may_trip) {
        None => None,
        Some(i) => match convert_curve::<u32, u32>(&attrs.curves[i].1, true) {
            Ok(c) => Some(c),
            Err(e) => {
                return Err(e.name("der_trip_lf_may"));
            },
        },
    };
    let der_trip_hf_must = match linked_curve_index(&attrs.curves, &b.op_mod_hfrt_must_trip) {
        None => None,
        Some(i) => match convert_curve::<u32, u32>(&attrs.curves[i].1, true) {
            Ok(c) => Some(c),
            Err(e) => {
                return Err(e.name("der_trip_hf_must"));
            },
        },
    };
    let der_trip_hf_may = match linked_curve_index(&attrs.curves, &b.op_mod_hfrt_may_trip) {
        None => None,
        Some(i) => match convert_curve::<u32, u32>(&attrs.curves[i].1, true) {
            Ok(c) => Some(c),
            Err(e) => {
                return Err(e.name("der_trip_hf_may"));
            },
        },
    };
    Ok(TripCurves {
        der_trip_lv_must,
        der_trip_lv_may,
        der_trip_lv_mom_cess,
        der_trip_hv_must,
        der_trip_hv_may,
        der_trip_hv_mom_cess,
        der_trip_lf_must,
        der_trip_lf_may,
        der_trip_hf_must,
        der_trip_hf_may,
    })
}

fn translate_es_volts(attrs: &ControlAttributes) -> (r: Result<(Option<ScaledValue<u16>>, Option<ScaledValue<u16>>), NamedError>)
    ensures
        match (r, es_error(*attrs)) {
            (Ok(t), None) => t.0 == expected_parameters(*attrs).esv_hi && t.1 == expected_parameters(*attrs).esv_lo,
            (Err(e), Some((k, n))) => e.kind == k && e.name@ == n,
            _ => false,
        },
{
    let esv_hi = match es_volt(attrs.inner.set_es_high_volt) {
        Ok(v) => v,
        Err(e) => {
            return Err(e.name("esv_hi"));
        },
    };
    let esv_lo = match es_volt(attrs.inner.set_es_low_volt) {
        Ok(v) => v,
        Err(e) => {
            return Err(e.name("esv_lo"));
        },
    };
    Ok((esv_hi, esv_lo))
}

/// The parameters from the translated parts and the attributes that always
/// translate.
#[verifier::rlimit(50)]
fn assemble_parameters(
    attrs: &ControlAttributes,
    vv_index: Option<usize>,
    vw_index: Option<usize>,
    volt: VoltParts,
    trips: TripCurves,
    esv: (Option<ScaledValue<u16>>, Option<ScaledValue<u16>>),
) -> (r: ModbusParameters)
    requires
        match linked_curve(attrs.curves@, attrs.inner.der_control_base.op_mod_volt_var) {
            Some(c) => vv_index matches Some(i) && i < attrs.curves@.len() && attrs.curves@[i as int].1 == c,
            None => vv_index is None,
        },
        match linked_curve(attrs.curves@, attrs.inner.der_control_base.op_mod_volt_watt) {
            Some(c) => vw_index matches Some(i) && i < attrs.curves@.len() && attrs.curves@[i as int].1 == c,
            None => vw_index is None,
        },
        volt.der_volt_var_dept_ref == expected_parameters(*attrs).der_volt_var_dept_ref,
        volt.vref_auto_tms == expected_parameters(*attrs).vref_auto_tms,
        volt.var_set_mod == expected_parameters(*attrs).var_set_mod,
        volt.der_volt_watt_dept_ref == expected_parameters(*attrs).der_volt_watt_dept_ref,
        esv.0 == expected_parameters(*attrs).esv_hi,
        esv.1 == expected_parameters(*attrs).esv_lo,
    ensures
        without_curves(r) == without_curves(expected_parameters(*attrs)),
        r.der_volt_var == volt.der_volt_var,
        r.der_volt_watt == volt.der_volt_watt,
            r.der_trip_lv_must == trips.der_trip_lv_must,
            r.der_trip_lv_may == trips.der_trip_lv_may,
            r.der_trip_lv_mom_cess == trips.der_trip_lv_mom_cess,
            r.der_trip_hv_must == trips.der_trip_hv_must,
            r.der_trip_hv_may == trips.der_trip_hv_may,
            r.der_trip_hv_mom_cess == trips.der_trip_hv_mom_cess,
            r.der_trip_lf_must == trips.der_trip_lf_must,
            r.der_trip_lf_may == trips.der_trip_lf_may,
            r.der_trip_hf_must == trips.der_trip_hf_must,
            r.der_trip_hf_may == trips.der_trip_hf_may,
{
    let b = &attrs.inner.der_control_base;
    let c = &attrs.inner;
    let vv = match vv_index {
        None => None,
        Some(i) => Some(&attrs.curves[i].1),
    };
    let vw = match vw_index {
        None => None,
        Some(i) => Some(&attrs.curves[i].1),
    };
    let pfw_inj_ena = Some(pfw_inj_ena_of(b.op_mod_fixed_pf_inject_w.is_some()));
    let pfw_inj_pf = pf_scaled(&b.op_mod_fixed_pf_inject_w);
    let pfw_inj_ext = pfw_inj_ext_of(&b.op_mod_fixed_pf_inject_w);
    let pfw_abs_ena = Some(pfw_abs_ena_of(b.op_mod_fixed_pf_absorb_w.is_some()));
    let pfw_abs_pf = pf_scaled(&b.op_mod_fixed_pf_absorb_w);
    let pfw_abs_ext = pfw_abs_ext_of(&b.op_mod_fixed_pf_absorb_w);
    let vref = vref_of(vv);
    let vref_auto_ena = vref_auto_ena_of(vv);
    let der_volt_var_tms = curve_tms_of(vv);
    let der_volt_watt_tms = curve_tms_of(vw);
    let var_set_ena = Some(var_set_ena_of(b.op_mod_fixed_var.is_some()));
    let var_set_pct = var_set_pct_of(&b.op_mod_fixed_var);
    let droop_ctl = droop_of(b.op_mod_freq_droop);
    let es = es_of(b.op_mod_connect);
    let es_hz_hi = scaled_hundredths_u32(c.set_es_high_freq);
    let es_hz_lo = scaled_hundredths_u32(c.set_es_low_freq);
    let es_dly_tms = seconds_of(c.set_es_delay);
    let es_rnd_tms = seconds_of(c.set_es_random_delay);
    let es_rmp_tms = seconds_of(c.set_es_ramp_tms);
    let w_max_lim_pct_ena = Some(w_max_lim_pct_ena_of(b.op_mod_max_lim_w.is_some()));
    let w_max_lim_pct = percent_scaled(b.op_mod_max_lim_w);
    let w_set_pct = signed_percent_scaled(b.op_mod_fixed_w);
    let w_set_ena = Some(w_set_ena_of(b.op_mod_fixed_w.is_some() || b.op_mod_target_w.is_some()));
    let w_set_mod = w_set_mod_of(b.op_mod_fixed_w.is_some(), b.op_mod_target_w.is_some());
    let w_set = w_set_of(b.op_mod_target_w);
    ModbusParameters {
        pfw_inj_ena,
        pfw_inj_pf,
        pfw_inj_ext,
        pfw_abs_ena,
        pfw_abs_pf,
        pfw_abs_ext,
        vref,
        vref_auto_ena,
        vref_auto_tms: volt.vref_auto_tms,
        der_volt_var: volt.der_volt_var,
        der_volt_var_tms,
        der_volt_var_dept_ref: volt.der_volt_var_dept_ref,
        der_volt_watt: volt.der_volt_watt,
        der_volt_watt_tms,
        der_volt_watt_dept_ref: volt.der_volt_watt_dept_ref,
        var_set_ena,
        var_set_mod: volt.var_set_mod,
        var_set_pct,
        der_trip_lv_must: trips.der_trip_lv_must,
        der_trip_lv_may: trips.der_trip_lv_may,
        der_trip_lv_mom_cess: trips.der_trip_lv_mom_cess,
        der_trip_hv_must: trips.der_trip_hv_must,
        der_trip_hv_may: trips.der_trip_hv_may,
        der_trip_hv_mom_cess: trips.der_trip_hv_mom_cess,
        der_trip_lf_must: trips.der_trip_lf_must,
        der_trip_lf_may: trips.der_trip_lf_may,
        der_trip_hf_must: trips.der_trip_hf_must,
        der_trip_hf_may: trips.der_trip_hf_may,
        droop_ctl,
        es,
        esv_hi: esv.0,
        esv_lo: esv.1,
        es_hz_hi,
        es_hz_lo,
        es_dly_tms,
        es_rnd_tms,
        es_rmp_tms,
        w_max_lim_pct_ena,
        w_max_lim_pct,
        w_set_pct,
        w_set_ena,
        w_set_mod,
        w_set,
    }
}

fn pfw_inj_ena_of(set: bool) -> (r: PfwInjEna)
    ensures
        r == (if set { PfwInjEna::Enabled } else { PfwInjEna::Disabled }),
{
    if set { PfwInjEna::Enabled } else { PfwInjEna::Disabled }
}

fn pfw_abs_ena_of(set: bool) -> (r: PfwAbsEna)
    ensures
        r == (if set { PfwAbsEna::Enabled } else { PfwAbsEna::Disabled }),
{
    if set { PfwAbsEna::Enabled } else { PfwAbsEna::Disabled }
}

fn var_set_ena_of(set: bool) -> (r: VarSetEna)
    ensures
        r == (if set { VarSetEna::Enabled } else { VarSetEna::Disabled }),
{
    if set { VarSetEna::Enabled } else { VarSetEna::Disabled }
}

fn w_max_lim_pct_ena_of(set: bool) -> (r: WMaxLimPctEna)
    ensures
        r == (if set { WMaxLimPctEna::Enabled } else { WMaxLimPctEna::Disabled }),
{
    if set { WMaxLimPctEna::Enabled } else { WMaxLimPctEna::Disabled }
}

fn w_set_ena_of(set: bool) -> (r: WSetEna)
    ensures
        r == (if set { WSetEna::Enabled } else { WSetEna::Disabled }),
{
    if set { WSetEna::Enabled } else { WSetEna::Disabled }
}

/// Set point mode: a percentage when one is given, since AS5438 specifies
/// it, else watts when those are given.
fn w_set_mod_of(pct: bool, watts: bool) -> (r: Option<WSetMod>)
    ensures
        r == (if pct { Some(WSetMod::WMaxPct) } else if watts { Some(WSetMod::Watts) } else { None }),
{
    if pct {
        Some(WSetMod::WMaxPct)
    } else if watts {
        Some(WSetMod::Watts)
    } else {
        None
    }
}

fn pfw_inj_ext_of(p: &Option<PowerFactorWithExcitation>) -> (r: Option<PfwInjExt>)
    ensures
        r == (match *p {
            Some(p) => Some(if p.excitation { PfwInjExt::UnderExcited } else { PfwInjExt::OverExcited }),
            None => None,
        }),
{
    match p {
        Some(p) => Some(if p.excitation { PfwInjExt::UnderExcited } else { PfwInjExt::OverExcited }),
        None => None,
    }
}

fn pfw_abs_ext_of(p: &Option<PowerFactorWithExcitation>) -> (r: Option<PfwAbsExt>)
    ensures
        r == (match *p {
            Some(p) => Some(if p.excitation { PfwAbsExt::UnderExcited } else { PfwAbsExt::OverExcited }),
            None => None,
        }),
{
    match p {
        Some(p) => Some(if p.excitation { PfwAbsExt::UnderExcited } else { PfwAbsExt::OverExcited }),
        None => None,
    }
}

fn vref_of(d: Option<&DERCurve>) -> (r: Option<ScaledValue<u16>>)
    ensures
        r == (match d {
            Some(d) => match d.v_ref {
                Some(p) => Some(hundredths(p.spec_get())),
                None => None,
            },
            None => None,
        }),
{
    match d {
        Some(d) => match d.v_ref {
            Some(p) => Some(ScaledValue::new(p.get(), SEP2_HUNDREDTHS_SF)),
            None => None,
        },
        None => None,
    }
}

fn vref_auto_ena_of(d: Option<&DERCurve>) -> (r: Option<CrvVRefAutoEna>)
    ensures
        r == (match d {
            Some(d) => Some(if d.autonomous_v_ref_enable == Some(true) { CrvVRefAutoEna::Enabled } else { CrvVRefAutoEna::Disabled }),
            None => None,
        }),
{
    match d {
        Some(d) => Some(
            match d.autonomous_v_ref_enable {
                Some(true) => CrvVRefAutoEna::Enabled,
                _ => CrvVRefAutoEna::Disabled,
            },
        ),
        None => None,
    }
}

fn curve_tms_of(d: Option<&DERCurve>) -> (r: Option<ScaledValue<u32>>)
    ensures
        r == (match d {
            Some(d) => match d.open_loop_tms {
                Some(t) => Some(hundredths(t as u32)),
                None => None,
            },
            None => None,
        }),
{
    match d {
        Some(d) => scaled_hundredths_u32(d.open_loop_tms),
        None => None,
    }
}

fn var_set_pct_of(f: &Option<FixedVar>) -> (r: Option<ScaledValue<i16>>)
    ensures
        r == (match *f {
            Some(f) => Some(hundredths(f.value.spec_get())),
            None => None,
        }),
{
    match f {
        Some(f) => Some(ScaledValue::new(f.value.get(), SEP2_HUNDREDTHS_SF)),
        None => None,
    }
}

fn droop_of(d: Option<FreqDroopType>) -> (r: Option<Model711Ctl>)
    ensures
        r == (match d {
            Some(d) => Some(droop_ctl_of(d)),
            None => None,
        }),
{
    match d {
        Some(d) => Some(Model711Ctl::from_droop(d)),
        None => None,
    }
}

fn es_of(c: Option<bool>) -> (r: Option<Es>)
    ensures
        r == (match c {
            Some(x) => Some(if x { Es::Enabled } else { Es::Disabled }),
            None => None,
        }),
{
    match c {
        Some(x) => Some(if x { Es::Enabled } else { Es::Disabled }),
        None => None,
    }
}

fn percent_scaled(p: Option<Percent>) -> (r: Option<ScaledValue<u16>>)
    ensures
        r == (match p {
            Some(p) => Some(hundredths(p.spec_get())),
            None => None,
        }),
{
    match p {
        Some(p) => Some(ScaledValue::new(p.get(), SEP2_HUNDREDTHS_SF)),
        None => None,
    }
}

fn signed_percent_scaled(p: Option<SignedPercent>) -> (r: Option<ScaledValue<i16>>)
    ensures
        r == (match p {
            Some(p) => Some(hundredths(p.spec_get())),
            None => None,
        }),
{
    match p {
        Some(p) => Some(ScaledValue::new(p.get(), SEP2_HUNDREDTHS_SF)),
        None => None,
    }
}

fn w_set_of(p: Option<ActivePower>) -> (r: Option<ScaledValue<i32>>)
    ensures
        r == (match p {
            Some(p) => Some(ScaledValue { value: p.value as i32, sf: exponent_of(p.multiplier) as i16 }),
            None => None,
        }),
{
    match p {
        Some(p) => Some(ScaledValue::new(p.value as i32, multiplier_exponent(p.multiplier))),
        None => None,
    }
}

/// `r` is the translation of `a`: the parameters that it calls for, or the
/// first parameter that cannot be translated, named.
pub open spec fn parameters_translation(a: ControlAttributes, r: Result<ModbusParameters, NamedError>) -> bool {
    match (r, parameters_error(a)) {
        (Ok(p), None) => {
            &&& without_curves(p) == without_curves(expected_parameters(a))
            &&& curve_matches::<u16, i16>(p.der_volt_var, linked_curve(a.curves@, a.inner.der_control_base.op_mod_volt_var), false)
            &&& curve_matches::<u16, i16>(p.der_volt_watt, linked_curve(a.curves@, a.inner.der_control_base.op_mod_volt_watt), false)
            &&& curve_matches::<u16, u32>(p.der_trip_lv_must, linked_curve(a.curves@, a.inner.der_control_base.op_mod_lvrt_must_trip), true)
            &&& curve_matches::<u16, u32>(p.der_trip_lv_may, linked_curve(a.curves@, a.inner.der_control_base.op_mod_lvrt_may_trip), true)
            &&& curve_matches::<u16, u32>(p.der_trip_lv_mom_cess, linked_curve(a.curves@, a.inner.der_control_base.op_mod_lvrt_momentary_cessation), true)
            &&& curve_matches::<u16, u32>(p.der_trip_hv_must, linked_curve(a.curves@, a.inner.der_control_base.op_mod_hvrt_must_trip), true)
            &&& curve_matches::<u16, u32>(p.der_trip_hv_may, linked_curve(a.curves@, a.inner.der_control_base.op_mod_hvrt_may_trip), true)
            &&& curve_matches::<u16, u32>(p.der_trip_hv_mom_cess, linked_curve(a.curves@, a.inner.der_control_base.op_mod_hvrt_momentary_cessation), true)
            &&& curve_matches::<u32, u32>(p.der_trip_lf_must, linked_curve(a.curves@, a.inner.der_control_base.op_mod_lfrt_must_trip), true)
            &&& curve_matches::<u32, u32>(p.der_trip_lf_may, linked_curve(a.curves@, a.inner.der_control_base.op_mod_lfrt_may_trip), true)
            &&& curve_matches::<u32, u32>(p.der_trip_hf_must, linked_curve(a.curves@, a.inner.der_control_base.op_mod_hfrt_must_trip), true)
            &&& curve_matches::<u32, u32>(p.der_trip_hf_may, linked_curve(a.curves@, a.inner.der_control_base.op_mod_hfrt_may_trip), true)
        },
        (Err(e), Some((k, n))) => e.kind == k && e.name@ == n,
        _ => false,
    }
}

impl ModbusParameters {
    /// Translates the controls to apply into the parameters written to the
    /// device (AS5438 Tables F.3 to F.12 onto E.3 to E.12), or names the
    /// first parameter that cannot be translated.
    pub fn try_from(attrs: &ControlAttributes) -> (r: Result<ModbusParameters, NamedError>)
        ensures
            parameters_translation(*attrs, r),
    {
        let vv_index = linked_curve_index(&attrs.curves, &attrs.inner.der_control_base.op_mod_volt_var);
        let vw_index = linked_curve_index(&attrs.curves, &attrs.inner.der_control_base.op_mod_volt_watt);
        let volt = match translate_volt_parts(attrs, vv_index, vw_index) {
            Ok(v) => v,
            Err(e) => {
                return Err(e);
            },
        };
        let trips = match translate_trip_curves(attrs) {
            Ok(t) => t,
            Err(e) => {
                return Err(e);
            },
        };
        let esv = match translate_es_volts(attrs) {
            Ok(v) => v,
            Err(e) => {
                return Err(e);
            },
        };
        Ok(assemble_parameters(attrs, vv_index, vw_index, volt, trips, esv))
    }
}

} // verus!
