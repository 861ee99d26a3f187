//! Translation of IEEE 2030.5 (SEP2) controls into SunSpec Modbus parameters
//! and back: the scheduling model, the control layering, the value
//! translation and the decisions of the connection tasks.
use vstd::prelude::*;

pub mod attributes;
pub mod clock;
pub mod config;
pub mod device_writes;
pub mod dispatch;
pub mod links;
pub mod modbus_connection;
pub mod scaled_value;
pub mod scheduler;
pub mod sep2_connection;
pub mod sep2_model;
pub mod sep2_types;
pub mod store;
pub mod sunspec;
pub mod translation;

pub use scaled_value::ScaledValue;
pub use scaled_value::ScaledValueInner;

verus! {

/// Errors of the service as a whole.
#[derive(Debug)]
pub enum Error {
    /// Device returned from server was not known to us.
    UnexpectedDevice,
    /// Server rejected our update.
    ServerRejected,
    /// Invalid input, with a description.
    InvalidInput(String),
    /// Item known by its href or MRID but can't be found in the model.
    ItemDetailsUnknown,
    /// Channel was closed when trying to send.
    ChannelClosed,
}

/// Allows referencing types of SEP2 resources at runtime.
#[derive(Clone, Copy, Debug, PartialEq, Eq, Structural)]
pub enum ResourceKind {
    Time,
    EndDeviceList,
    EndDevice,
    FunctionSetAssignmentsList,
    FunctionSetAssignments,
    DERProgramList,
    DERProgram,
    DefaultDERControl,
    DERControlList,
    DERControl,
    DERCurveList,
    DERCurve,
}

} // verus!
