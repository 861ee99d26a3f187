//! The SEP2 (IEEE 2030.5, CSIP-AUS) resources and values that the scheduling
//! and translation logic reads, held as plain values.
use vstd::prelude::*;

verus! {

/// A power of ten multiplier, from 10^-9 to 10^9.
#[derive(Clone, Copy, Debug, PartialEq, Eq, Structural)]
pub enum PowerOfTenMultiplierType {
    Nano,
    NegativeEight,
    NegativeSeven,
    Micro,
    NegativeFive,
    NegativeFour,
    Milli,
    Centi,
    Deci,
    Unit,
    Deca,
    Hecto,
    Kilo,
    Four,
    Five,
    Mega,
    Seven,
    Eight,
    Giga,
}

/// A percentage in hundredths of a percent, from 0 to 100%.
#[derive(Clone, Copy, Debug, PartialEq, Eq, Structural)]
pub struct Percent(u16);

impl Percent {
    #[verifier::type_invariant]
    spec fn within_range(self) -> bool {
        self.0 <= 10_000
    }

    /// The value in hundredths of a percent.
    pub closed spec fn spec_get(self) -> u16 {
        self.0
    }

    /// A percentage, or `None` above 100%.
    pub fn new(val: u16) -> (r: Option<Percent>)
        ensures
            r is Some <==> val <= 10_000,
            r matches Some(p) ==> p.spec_get() == val && p == percent_of(val),
    {
        if val > 10_000 {
            None
        } else {
            Some(Percent(val))
        }
    }

    pub fn get(&self) -> (r: u16)
        ensures
            r == self.spec_get(),
            r <= 10_000,
    {
        proof {
            use_type_invariant(self);
        }
        self.0
    }
}

/// The percentage of `val` hundredths of a percent.
pub closed spec fn percent_of(val: u16) -> Percent {
    Percent(val)
}

pub proof fn lemma_percent_of(val: u16)
    ensures
        percent_of(val).spec_get() == val,
{
}

/// A signed percentage in hundredths of a percent, from -100% to 100%.
#[derive(Clone, Copy, Debug, PartialEq, Eq, Structural)]
pub struct SignedPercent(i16);

impl SignedPercent {
    #[verifier::type_invariant]
    spec fn within_range(self) -> bool {
        -10_000 <= self.0 <= 10_000
    }

    /// The value in hundredths of a percent.
    pub closed spec fn spec_get(self) -> i16 {
        self.0
    }

    /// A signed percentage, or `None` beyond 100% either way.
    pub fn new(val: i16) -> (r: Option<SignedPercent>)
        ensures
            r is Some <==> -10_000 <= val <= 10_000,
            r matches Some(p) ==> p.spec_get() == val,
    {
        if val < -10_000 || val > 10_000 {
            None
        } else {
            Some(SignedPercent(val))
        }
    }

    pub fn get(&self) -> (r: i16)
        ensures
            r == self.spec_get(),
            -10_000 <= r <= 10_000,
    {
        proof {
            use_type_invariant(self);
        }
        self.0
    }
}

/// The reference that a percentage is relative to.
#[derive(Clone, Copy, Debug, PartialEq, Eq, Structural)]
pub enum DERUnitRefType {
    NotApplicable,
    SetMaxW,
    SetMaxVar,
    StatVarAvail,
    SetEffectiveV,
    SetMaxChargeRateW,
    SetMaxDischargeRateW,
    StatWAvail,
}

#[derive(Clone, Copy, Debug, PartialEq, Eq, Structural)]
pub struct ActivePower {
    pub multiplier: PowerOfTenMultiplierType,
    pub value: i16,
}

#[derive(Clone, Copy, Debug, PartialEq, Eq, Structural)]
pub struct ApparentPower {
    pub multiplier: PowerOfTenMultiplierType,
    pub value: u16,
}

#[derive(Clone, Copy, Debug, PartialEq, Eq, Structural)]
pub struct ReactivePower {
    pub multiplier: PowerOfTenMultiplierType,
    pub value: i16,
}

#[derive(Clone, Copy, Debug, PartialEq, Eq, Structural)]
pub struct PowerFactor {
    pub displacement: u16,
    pub multiplier: PowerOfTenMultiplierType,
}

#[derive(Clone, Copy, Debug, PartialEq, Eq, Structural)]
pub struct VoltageRMS {
    pub multiplier: PowerOfTenMultiplierType,
    pub value: u16,
}

#[derive(Clone, Copy, Debug, PartialEq, Eq, Structural)]
pub struct ReactiveSusceptance {
    pub multiplier: PowerOfTenMultiplierType,
    pub value: u16,
}

#[derive(Clone, Copy, Debug, PartialEq, Eq, Structural)]
pub struct PowerFactorWithExcitation {
    pub displacement: u16,
    pub excitation: bool,
    pub multiplier: PowerOfTenMultiplierType,
}

#[derive(Clone, Copy, Debug, PartialEq, Eq, Structural)]
pub struct FixedVar {
    pub ref_type: DERUnitRefType,
    pub value: SignedPercent,
}

/// Frequency droop parameters: dead bands and droops in thousandths, the
/// open loop response time in hundredths of a second.
#[derive(Clone, Copy, Debug, PartialEq, Eq, Structural)]
pub struct FreqDroopType {
    pub d_bof: u32,
    pub d_buf: u32,
    pub k_of: u16,
    pub k_uf: u16,
    pub open_loop_tms: u16,
}

/// A link to a DERCurve.
#[derive(Clone, Debug, PartialEq, Eq)]
pub struct DERCurveLink {
    pub href: String,
}

/// One point of a curve.
#[derive(Clone, Copy, Debug, PartialEq, Eq, Structural)]
pub struct CurveData {
    pub excitation: Option<bool>,
    pub xvalue: i32,
    pub yvalue: i32,
}

/// A DER curve: its points with the multipliers of each axis.
#[derive(Clone, Debug, PartialEq, Eq)]
pub struct DERCurve {
    pub mrid: u128,
    pub autonomous_v_ref_enable: Option<bool>,
    /// In hundredths of a second.
    pub autonomous_v_ref_time_constant: Option<u32>,
    pub creation_time: i64,
    pub curve_data: Vec<CurveData>,
    /// In hundredths of a second.
    pub open_loop_tms: Option<u16>,
    pub v_ref: Option<Percent>,
    pub x_multiplier: PowerOfTenMultiplierType,
    pub y_multiplier: PowerOfTenMultiplierType,
    pub y_ref_type: DERUnitRefType,
    pub href: Option<String>,
}

/// The control attributes shared by scheduled and default controls.
#[derive(Clone, Debug, PartialEq, Eq)]
pub struct DERControlBase {
    pub op_mod_connect: Option<bool>,
    pub op_mod_energize: Option<bool>,
    pub op_mod_fixed_pf_absorb_w: Option<PowerFactorWithExcitation>,
    pub op_mod_fixed_pf_inject_w: Option<PowerFactorWithExcitation>,
    pub op_mod_fixed_var: Option<FixedVar>,
    pub op_mod_fixed_w: Option<SignedPercent>,
    pub op_mod_freq_droop: Option<FreqDroopType>,
    pub op_mod_freq_watt: Option<DERCurveLink>,
    pub op_mod_hfrt_may_trip: Option<DERCurveLink>,
    pub op_mod_hfrt_must_trip: Option<DERCurveLink>,
    pub op_mod_hvrt_may_trip: Option<DERCurveLink>,
    pub op_mod_hvrt_momentary_cessation: Option<DERCurveLink>,
    pub op_mod_hvrt_must_trip: Option<DERCurveLink>,
    pub op_mod_lfrt_may_trip: Option<DERCurveLink>,
    pub op_mod_lfrt_must_trip: Option<DERCurveLink>,
    pub op_mod_lvrt_may_trip: Option<DERCurveLink>,
    pub op_mod_lvrt_momentary_cessation: Option<DERCurveLink>,
    pub op_mod_lvrt_must_trip: Option<DERCurveLink>,
    pub op_mod_max_lim_w: Option<Percent>,
    pub op_mod_target_var: Option<ReactivePower>,
    pub op_mod_target_w: Option<ActivePower>,
    pub op_mod_volt_var: Option<DERCurveLink>,
    pub op_mod_volt_watt: Option<DERCurveLink>,
    pub op_mod_watt_pf: Option<DERCurveLink>,
    pub op_mod_watt_var: Option<DERCurveLink>,
    /// In hundredths of a second.
    pub ramp_tms: Option<u16>,
    pub op_mod_imp_lim_w: Option<ActivePower>,
    pub op_mod_exp_lim_w: Option<ActivePower>,
    pub op_mod_gen_lim_w: Option<ActivePower>,
    pub op_mod_load_lim_w: Option<ActivePower>,
}

/// A default control: the base attributes and the enter service settings.
#[derive(Clone, Debug, PartialEq, Eq)]
pub struct DefaultDERControl {
    pub der_control_base: DERControlBase,
    /// In hundredths of a second.
    pub set_es_delay: Option<u32>,
    /// In hundredths of a Hz.
    pub set_es_high_freq: Option<u16>,
    /// In hundredths of a percent.
    pub set_es_high_volt: Option<i16>,
    /// In hundredths of a Hz.
    pub set_es_low_freq: Option<u16>,
    /// In hundredths of a percent.
    pub set_es_low_volt: Option<i16>,
    /// In hundredths of a second.
    pub set_es_ramp_tms: Option<u32>,
    /// In hundredths of a second.
    pub set_es_random_delay: Option<u32>,
    pub set_grad_w: Option<u16>,
    pub set_soft_grad_w: Option<u16>,
    pub href: Option<String>,
}

/// Base attributes with nothing set.
pub open spec fn empty_base() -> DERControlBase {
    DERControlBase {
        op_mod_connect: None,
        op_mod_energize: None,
        op_mod_fixed_pf_absorb_w: None,
        op_mod_fixed_pf_inject_w: None,
        op_mod_fixed_var: None,
        op_mod_fixed_w: None,
        op_mod_freq_droop: None,
        op_mod_freq_watt: None,
        op_mod_hfrt_may_trip: None,
        op_mod_hfrt_must_trip: None,
        op_mod_hvrt_may_trip: None,
        op_mod_hvrt_momentary_cessation: None,
        op_mod_hvrt_must_trip: None,
        op_mod_lfrt_may_trip: None,
        op_mod_lfrt_must_trip: None,
        op_mod_lvrt_may_trip: None,
        op_mod_lvrt_momentary_cessation: None,
        op_mod_lvrt_must_trip: None,
        op_mod_max_lim_w: None,
        op_mod_target_var: None,
        op_mod_target_w: None,
        op_mod_volt_var: None,
        op_mod_volt_watt: None,
        op_mod_watt_pf: None,
        op_mod_watt_var: None,
        ramp_tms: None,
        op_mod_imp_lim_w: None,
        op_mod_exp_lim_w: None,
        op_mod_gen_lim_w: None,
        op_mod_load_lim_w: None,
    }
}

/// A default control with nothing set.
pub open spec fn empty_default_control() -> DefaultDERControl {
    DefaultDERControl {
        der_control_base: empty_base(),
        set_es_delay: None,
        set_es_high_freq: None,
        set_es_high_volt: None,
        set_es_low_freq: None,
        set_es_low_volt: None,
        set_es_ramp_tms: None,
        set_es_random_delay: None,
        set_grad_w: None,
        set_soft_grad_w: None,
        href: None,
    }
}

impl DERControlBase {
    /// Base attributes with nothing set.
    pub fn empty() -> (r: DERControlBase)
        ensures
            r == empty_base(),
    {
        DERControlBase {
            op_mod_connect: None,
            op_mod_energize: None,
            op_mod_fixed_pf_absorb_w: None,
            op_mod_fixed_pf_inject_w: None,
            op_mod_fixed_var: None,
            op_mod_fixed_w: None,
            op_mod_freq_droop: None,
            op_mod_freq_watt: None,
            op_mod_hfrt_may_trip: None,
            op_mod_hfrt_must_trip: None,
            op_mod_hvrt_may_trip: None,
            op_mod_hvrt_momentary_cessation: None,
            op_mod_hvrt_must_trip: None,
            op_mod_lfrt_may_trip: None,
            op_mod_lfrt_must_trip: None,
            op_mod_lvrt_may_trip: None,
            op_mod_lvrt_momentary_cessation: None,
            op_mod_lvrt_must_trip: None,
            op_mod_max_lim_w: None,
            op_mod_target_var: None,
            op_mod_target_w: None,
            op_mod_volt_var: None,
            op_mod_volt_watt: None,
            op_mod_watt_pf: None,
            op_mod_watt_var: None,
            ramp_tms: None,
            op_mod_imp_lim_w: None,
            op_mod_exp_lim_w: None,
            op_mod_gen_lim_w: None,
            op_mod_load_lim_w: None,
        }
    }
}

impl DefaultDERControl {
    /// A default control with nothing set.
    pub fn empty() -> (r: DefaultDERControl)
        ensures
            r == empty_default_control(),
    {
        DefaultDERControl {
            der_control_base: DERControlBase::empty(),
            set_es_delay: None,
            set_es_high_freq: None,
            set_es_high_volt: None,
            set_es_low_freq: None,
            set_es_low_volt: None,
            set_es_ramp_tms: None,
            set_es_random_delay: None,
            set_grad_w: None,
            set_soft_grad_w: None,
            href: None,
        }
    }
}

/// Operational mode of a DER.
#[derive(Clone, Copy, Debug, PartialEq, Eq, Structural)]
pub enum OperationalModeStatusValue {
    NotApplicable,
    Off,
    Operational,
    Test,
}

#[derive(Clone, Copy, Debug, PartialEq, Eq, Structural)]
pub struct OperationalModeStatusType {
    pub date_time: i64,
    pub value: OperationalModeStatusValue,
}

/// Connection status: the bits of `ConnectStatusValue`.
#[derive(Clone, Copy, Debug, PartialEq, Eq, Structural)]
pub struct ConnectStatusType {
    pub date_time: i64,
    pub value: u8,
}

/// The `Connected` bit of a connection status.
pub const CONNECT_STATUS_CONNECTED: u8 = 1;

#[derive(Clone, Copy, Debug, PartialEq, Eq, Structural)]
pub struct StateOfChargeStatusType {
    pub date_time: i64,
    pub value: Percent,
}

/// The bits of `DERAlarmStatus`.
pub const DER_FAULT_OVER_CURRENT: u32 = 1;
pub const DER_FAULT_OVER_VOLTAGE: u32 = 2;
pub const DER_FAULT_UNDER_VOLTAGE: u32 = 4;
pub const DER_FAULT_OVER_FREQUENCY: u32 = 8;
pub const DER_FAULT_UNDER_FREQUENCY: u32 = 16;
pub const DER_FAULT_EMERGENCY_LOCAL: u32 = 128;

/// The status of a DER reported to the server.
#[derive(Clone, Copy, Debug, PartialEq, Eq, Structural)]
pub struct DERStatus {
    /// The bits of `DERAlarmStatus`.
    pub alarm_status: Option<u32>,
    pub gen_connect_status: Option<ConnectStatusType>,
    pub operational_mode_status: Option<OperationalModeStatusType>,
    pub reading_time: i64,
    pub state_of_charge_status: Option<StateOfChargeStatusType>,
    pub stor_connect_status: Option<ConnectStatusType>,
}

/// The settings of a DER reported to the server.
#[derive(Clone, Copy, Debug, PartialEq, Eq, Structural)]
pub struct DERSettings {
    /// In hundredths of a percent.
    pub set_es_high_volt: Option<i16>,
    pub updated_time: i64,
}

/// The ratings of a DER reported to the server.
#[derive(Clone, Copy, Debug, PartialEq, Eq, Structural)]
pub struct DERCapability {
    /// The bits of `DERControlType`.
    pub modes_supported: u32,
    pub rtg_max_charge_rate_va: Option<ApparentPower>,
    pub rtg_max_charge_rate_w: Option<ActivePower>,
    pub rtg_max_v: Option<VoltageRMS>,
    pub rtg_max_va: Option<ApparentPower>,
    pub rtg_max_var: Option<ReactivePower>,
    pub rtg_max_var_neg: Option<ReactivePower>,
    pub rtg_max_w: ActivePower,
    pub rtg_min_v: Option<VoltageRMS>,
    pub rtg_over_excited_pf: Option<PowerFactor>,
    pub rtg_over_excited_w: Option<ActivePower>,
    pub rtg_reactive_susceptance: Option<ReactiveSusceptance>,
    pub rtg_under_excited_pf: Option<PowerFactor>,
    pub rtg_under_excited_w: Option<ActivePower>,
    pub rtg_v_nom: Option<VoltageRMS>,
}

/// The phases a reading applies to.
#[derive(Clone, Copy, Debug, PartialEq, Eq, Structural)]
pub enum PhaseCode {
    NotApplicable,
    PhaseC,
    PhaseCN,
    PhaseCA,
    PhaseB,
    PhaseBN,
    PhaseBC,
    PhaseA,
    PhaseAN,
    PhaseAB,
    PhaseABC,
}

#[derive(Clone, Copy, Debug, PartialEq, Eq, Structural)]
pub enum FlowDirectionType {
    NotApplicable,
    /// Delivered to customer.
    Forward,
    /// Received from customer.
    Reverse,
}

#[derive(Clone, Copy, Debug, PartialEq, Eq, Structural)]
pub enum KindType {
    NotApplicable,
    Power,
}

#[derive(Clone, Copy, Debug, PartialEq, Eq, Structural)]
pub enum UomType {
    NotApplicable,
    Voltage,
    W,
    VAr,
    Hz,
}

/// An instantaneous, secondary metered reading mirrored to the server, over
/// an interval of zero duration starting at `time`.
#[derive(Clone, Debug, PartialEq, Eq)]
pub struct MirrorMeterReading {
    pub mrid: u128,
    pub description: String,
    pub flow_direction: FlowDirectionType,
    pub kind: Option<KindType>,
    pub uom: UomType,
    pub power_of_ten_multiplier: Option<PowerOfTenMultiplierType>,
    pub phase: Option<PhaseCode>,
    pub value: i64,
    pub time: i64,
}

/// A copy of an optional string.
pub fn copy_string(s: &Option<String>) -> (r: Option<String>)
    ensures
        r == *s,
{
    match s {
        Some(x) => Some(x.clone()),
        None => None,
    }
}

/// A copy of an optional curve link.
pub fn copy_link(l: &Option<DERCurveLink>) -> (r: Option<DERCurveLink>)
    ensures
        r == *l,
{
    match l {
        Some(x) => Some(DERCurveLink { href: x.href.clone() }),
        None => None,
    }
}

impl DERControlBase {
    /// A copy of the attributes.
    pub fn duplicate(&self) -> (r: DERControlBase)
        ensures
            r == *self,
    {
        DERControlBase {
            op_mod_connect: self.op_mod_connect,
            op_mod_energize: self.op_mod_energize,
            op_mod_fixed_pf_absorb_w: self.op_mod_fixed_pf_absorb_w,
            op_mod_fixed_pf_inject_w: self.op_mod_fixed_pf_inject_w,
            op_mod_fixed_var: self.op_mod_fixed_var,
            op_mod_fixed_w: self.op_mod_fixed_w,
            op_mod_freq_droop: self.op_mod_freq_droop,
            op_mod_freq_watt: copy_link(&self.op_mod_freq_watt),
            op_mod_hfrt_may_trip: copy_link(&self.op_mod_hfrt_may_trip),
            op_mod_hfrt_must_trip: copy_link(&self.op_mod_hfrt_must_trip),
            op_mod_hvrt_may_trip: copy_link(&self.op_mod_hvrt_may_trip),
            op_mod_hvrt_momentary_cessation: copy_link(&self.op_mod_hvrt_momentary_cessation),
            op_mod_hvrt_must_trip: copy_link(&self.op_mod_hvrt_must_trip),
            op_mod_lfrt_may_trip: copy_link(&self.op_mod_lfrt_may_trip),
            op_mod_lfrt_must_trip: copy_link(&self.op_mod_lfrt_must_trip),
            op_mod_lvrt_may_trip: copy_link(&self.op_mod_lvrt_may_trip),
            op_mod_lvrt_momentary_cessation: copy_link(&self.op_mod_lvrt_momentary_cessation),
            op_mod_lvrt_must_trip: copy_link(&self.op_mod_lvrt_must_trip),
            op_mod_max_lim_w: self.op_mod_max_lim_w,
            op_mod_target_var: self.op_mod_target_var,
            op_mod_target_w: self.op_mod_target_w,
            op_mod_volt_var: copy_link(&self.op_mod_volt_var),
            op_mod_volt_watt: copy_link(&self.op_mod_volt_watt),
            op_mod_watt_pf: copy_link(&self.op_mod_watt_pf),
            op_mod_watt_var: copy_link(&self.op_mod_watt_var),
            ramp_tms: self.ramp_tms,
            op_mod_imp_lim_w: self.op_mod_imp_lim_w,
            op_mod_exp_lim_w: self.op_mod_exp_lim_w,
            op_mod_gen_lim_w: self.op_mod_gen_lim_w,
            op_mod_load_lim_w: self.op_mod_load_lim_w,
        }
    }
}

impl DefaultDERControl {
    /// A copy of the control.
    pub fn duplicate(&self) -> (r: DefaultDERControl)
        ensures
            r == *self,
    {
        DefaultDERControl {
            der_control_base: self.der_control_base.duplicate(),
            set_es_delay: self.set_es_delay,
            set_es_high_freq: self.set_es_high_freq,
            set_es_high_volt: self.set_es_high_volt,
            set_es_low_freq: self.set_es_low_freq,
            set_es_low_volt: self.set_es_low_volt,
            set_es_ramp_tms: self.set_es_ramp_tms,
            set_es_random_delay: self.set_es_random_delay,
            set_grad_w: self.set_grad_w,
            set_soft_grad_w: self.set_soft_grad_w,
            href: copy_string(&self.href),
        }
    }
}

/// Two curves agree in every field, their points by value.
pub open spec fn same_curve(a: DERCurve, b: DERCurve) -> bool {
    &&& a.mrid == b.mrid
    &&& a.autonomous_v_ref_enable == b.autonomous_v_ref_enable
    &&& a.autonomous_v_ref_time_constant == b.autonomous_v_ref_time_constant
    &&& a.creation_time == b.creation_time
    &&& a.curve_data@ == b.curve_data@
    &&& a.open_loop_tms == b.open_loop_tms
    &&& a.v_ref == b.v_ref
    &&& a.x_multiplier == b.x_multiplier
    &&& a.y_multiplier == b.y_multiplier
    &&& a.y_ref_type == b.y_ref_type
    &&& a.href == b.href
}

impl DERCurve {
    /// A copy of the curve.
    pub fn duplicate(&self) -> (r: DERCurve)
        ensures
            same_curve(r, *self),
    {
        let mut points: Vec<CurveData> = Vec::new();
        let mut i: usize = 0;
        while i < self.curve_data.len()
            invariant
                i <= self.curve_data@.len(),
                points@ == self.curve_data@.take(i as int),
            decreases self.curve_data@.len() - i,
        {
            points.push(self.curve_data[i]);
            assert(points@ =~= self.curve_data@.take(i as int + 1));
            i = i + 1;
        }
        assert(points@ =~= self.curve_data@);
        DERCurve {
            mrid: self.mrid,
            autonomous_v_ref_enable: self.autonomous_v_ref_enable,
            autonomous_v_ref_time_constant: self.autonomous_v_ref_time_constant,
            creation_time: self.creation_time,
            curve_data: points,
            open_loop_tms: self.open_loop_tms,
            v_ref: self.v_ref,
            x_multiplier: self.x_multiplier,
            y_multiplier: self.y_multiplier,
            y_ref_type: self.y_ref_type,
            href: copy_string(&self.href),
        }
    }
}

/// The status of a scheduled control as given by the server.
#[derive(Clone, Copy, Debug, PartialEq, Eq, Structural)]
pub enum EventStatusType {
    Scheduled,
    Active,
    Cancelled,
    CancelledRandom,
    Superseded,
}

/// The status of a control in a response to the server.
#[derive(Clone, Copy, Debug, PartialEq, Eq, Structural)]
pub enum ResponseStatus {
    EventReceived,
    EventStarted,
    EventCompleted,
    EventOptOut,
    EventOptIn,
    EventCancelled,
    EventSuperseded,
    EventPartialOptOut,
    EventPartialOptIn,
    EventCompletedNoUserParticipation,
    EventAcknowledge,
    EventNoDisplay,
    EventAbortedServer,
    EventAbortedProgram,
    EventNotApplicable,
    EventInvalid,
    EventExpired,
}

/// The `MessageReceived` bit of `ResponseRequired`.
pub const RESPONSE_MESSAGE_RECEIVED: u8 = 1;

/// The `SpecificResponse` bit of `ResponseRequired`.
pub const RESPONSE_SPECIFIC_RESPONSE: u8 = 2;

/// The `ResponseRequired` bit of `ResponseRequired`.
pub const RESPONSE_RESPONSE_REQUIRED: u8 = 4;

/// The primacy of a program: lower values take precedence.
#[derive(Clone, Copy, Debug, PartialEq, Eq, Structural)]
pub enum PrimacyType {
    InHomeEnergyManagementSystem,
    ContractedPremisesServiceProvider,
    NonContractualServiceProvider,
}

/// A scheduled control as given by the server.
#[derive(Clone, Debug, PartialEq, Eq)]
pub struct DERControl {
    pub mrid: u128,
    pub creation_time: i64,
    pub current_status: EventStatusType,
    /// The start of the scheduled interval.
    pub interval_start: i64,
    /// The duration of the scheduled interval in seconds.
    pub interval_duration: u32,
    /// The range in seconds by which the duration may be randomised.
    pub randomize_duration: Option<i16>,
    /// The range in seconds by which the start may be randomised.
    pub randomize_start: Option<i16>,
    pub der_control_base: DERControlBase,
    pub reply_to: Option<String>,
    /// The bits of `ResponseRequired`.
    pub response_required: Option<u8>,
    pub href: Option<String>,
}

impl DERControl {
    /// A copy of the control.
    pub fn duplicate(&self) -> (r: DERControl)
        ensures
            r == *self,
    {
        DERControl {
            mrid: self.mrid,
            creation_time: self.creation_time,
            current_status: self.current_status,
            interval_start: self.interval_start,
            interval_duration: self.interval_duration,
            randomize_duration: self.randomize_duration,
            randomize_start: self.randomize_start,
            der_control_base: self.der_control_base.duplicate(),
            reply_to: copy_string(&self.reply_to),
            response_required: self.response_required,
            href: copy_string(&self.href),
        }
    }
}

} // verus!
