//! Plain values that stand for what crosses the boundary to the Bluetooth
//! stack: what the client hands to it and what it hands back.

use vstd::prelude::*;
use crate::error::Error;

verus! {

/// The code with which the stack reports success.
pub const SUCCESS: i32 = 0;

/// The code with which the stack reports that the peripheral could not be reached.
pub const UNREACHABLE: i32 = 1;

/// The code with which the stack reports a GATT protocol error.
pub const PROTOCOL_ERROR: i32 = 2;

/// The code with which the stack reports that access was denied.
pub const ACCESS_DENIED: i32 = 3;

/// The status with which the stack completes a GATT operation, as the raw
/// code that it reports. Every code but `SUCCESS` is a failure.
#[derive(Clone, Copy, Debug, PartialEq, Eq, Structural)]
pub struct GattCommunicationStatus {
    pub code: i32,
}

impl GattCommunicationStatus {
    /// Whether the status reports success.
    pub open spec fn succeeded(self) -> bool {
        self.code == SUCCESS
    }

    /// Whether the status reports success.
    pub fn is_success(&self) -> (success: bool)
        ensures
            success == self.succeeded(),
    {
        self.code == SUCCESS
    }
}

/// The mode in which the stack is asked to write a value.
#[derive(Clone, Copy, Debug, PartialEq, Eq, Structural)]
pub enum GattWriteOption {
    WriteWithResponse,
    WriteWithoutResponse,
}

/// The value written to the Client Characteristic Configuration Descriptor.
#[derive(Clone, Copy, Debug, PartialEq, Eq, Structural)]
pub enum DescriptorValue {
    /// The peripheral sends nothing unasked.
    Disabled,
    /// The peripheral sends a notification whenever the value changes.
    Notify,
}

/// The token that the stack returns when a value-changed handler is
/// registered, and that removes the handler again.
#[derive(Clone, Copy, Debug, PartialEq, Eq, Structural)]
pub struct EventRegistrationToken {
    pub value: i64,
}

/// What the stack hands back when it has read the characteristic's value:
/// the status of the read and, taken out of the stack's buffer by the caller,
/// the bytes of the value or the failure to take them out.
#[derive(Debug, PartialEq, Eq)]
pub struct GattReadResult {
    pub status: GattCommunicationStatus,
    pub value: Result<Vec<u8>, Error>,
}

/// What the stack is asked to write: the bytes, and the mode of the write.
#[derive(Debug, PartialEq, Eq)]
pub struct WriteRequest {
    pub data: Vec<u8>,
    pub option: GattWriteOption,
}

/// What the stack is asked to do when the subscription changes, in this
/// order: to remove the handler registered under `remove`, if there is one,
/// and to write `descriptor` to the Client Characteristic Configuration
/// Descriptor. A failure to remove the handler is recorded for diagnostics
/// and changes nothing else; the answer to the descriptor write decides the
/// operation's result.
#[derive(Clone, Copy, Debug, PartialEq, Eq, Structural)]
pub struct SubscriptionChange {
    pub remove: Option<EventRegistrationToken>,
    pub descriptor: DescriptorValue,
}

} // verus!
