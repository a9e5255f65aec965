//! A client for one remote GATT characteristic of a connected Bluetooth Low
//! Energy peripheral, written without any input or output of its own.
//!
//! The client decides and the caller acts. For each operation the client says
//! what is to be asked of the Bluetooth stack and turns what the stack
//! answered into a uniform `Result`; between the two the caller talks to the
//! stack and waits for it:
//!
//! - to write a value: `write_value` gives the request, and the stack's
//!   answer goes to `write_completed`;
//! - to read the value: what the stack read goes to `read_value`;
//! - to subscribe: the caller registers its value-changed handler and hands
//!   the stack's answer to `subscribe`; it then performs the
//!   `SubscriptionChange` that comes back, and the answer to the descriptor
//!   write goes to `subscribe_completed`, which undoes the registration if
//!   the write failed and hands its token back for removal;
//! - to unsubscribe: the caller performs the `SubscriptionChange` that
//!   `unsubscribe` gives, and the answer to the descriptor write goes to
//!   `unsubscribe_completed`;
//! - when the stack reports a changed value: the handler asks
//!   `value_changed` what to pass on to the subscriber, and passes something
//!   on only while the client holds the handler's own registration;
//! - at the end of the client's life: the caller removes the handler whose
//!   token `release` gives.
//!
//! The only state is the registration token of the value-changed handler.
//! What the stack hands over (a status, a token, the bytes of a value) is
//! held as plain values, see `platform`.
//!
//! Every function here is verified: none panics, and each contract states the
//! function's result for every input. What holds across several calls is
//! stated and proved in `laws`.

pub mod api;
pub mod characteristic;
pub mod error;
pub mod laws;
pub mod platform;
pub mod text;

pub use api::WriteType;
pub use characteristic::BLECharacteristic;
pub use error::Error;
pub use platform::{
    DescriptorValue, EventRegistrationToken, GattCommunicationStatus, GattReadResult,
    GattWriteOption, SubscriptionChange, WriteRequest, ACCESS_DENIED, PROTOCOL_ERROR, SUCCESS,
    UNREACHABLE,
};
pub use text::{decimal, failure_message, removal_report, Operation};
