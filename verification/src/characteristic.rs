//! The client of one characteristic: what it asks of the Bluetooth stack for
//! each operation, what it makes of the answer, and when it holds a
//! registration.

use vstd::prelude::*;
use vstd::slice::slice_to_vec;
use vstd::std_specs::convert::FromSpecImpl;
use crate::api::WriteType;
use crate::error::{bytes_outcome, outcome, Error};
use crate::platform::{
    DescriptorValue, EventRegistrationToken, GattCommunicationStatus, GattReadResult,
    GattWriteOption, SubscriptionChange, WriteRequest,
};
use crate::text::{failure_message, failure_text, Operation};

verus! {

/// The mode that the stack is asked for, for each way of writing.
pub open spec fn write_option(write_type: WriteType) -> GattWriteOption {
    match write_type {
        WriteType::WithoutResponse => GattWriteOption::WriteWithoutResponse,
        WriteType::WithResponse => GattWriteOption::WriteWithResponse,
    }
}

/// The result of an operation that the stack completed with `reply`: success
/// if and only if the call went through and the status is `SUCCESS`; the
/// caller's failure where the call itself failed; else the failure that
/// names the operation and the status.
pub open spec fn status_outcome(
    operation: Operation,
    reply: Result<GattCommunicationStatus, Error>,
) -> Result<(), Seq<char>> {
    match reply {
        Err(error) => Err(error@),
        Ok(status) => if status.succeeded() {
            Ok(())
        } else {
            Err(failure_text(operation, status))
        },
    }
}

/// The result of a read that the stack completed with `reply`: the bytes of
/// the value, all of them and no others, if the call went through, the status
/// is `SUCCESS` and the bytes could be taken out of the stack's buffer.
pub open spec fn read_outcome(reply: Result<GattReadResult, Error>) -> Result<Seq<u8>, Seq<char>> {
    match reply {
        Err(error) => Err(error@),
        Ok(result) => if result.status.succeeded() {
            bytes_outcome(result.value)
        } else {
            Err(failure_text(Operation::Read, result.status))
        },
    }
}

/// The registration held after `subscribe`: the new one if the handler was
/// registered, else the one held before.
pub open spec fn token_after_subscribe(
    token: Option<EventRegistrationToken>,
    registration: Result<EventRegistrationToken, Error>,
) -> Option<EventRegistrationToken> {
    match registration {
        Ok(new_token) => Some(new_token),
        Err(_) => token,
    }
}

/// What `subscribe` asks of the stack next: if the handler was registered, to
/// remove the registration held before, if any, and to write `Notify`; else
/// nothing, and the operation has failed as the registration did.
pub open spec fn subscribe_step(
    token: Option<EventRegistrationToken>,
    registration: Result<EventRegistrationToken, Error>,
) -> Result<SubscriptionChange, Seq<char>> {
    match registration {
        Ok(_) => Ok(SubscriptionChange { remove: token, descriptor: DescriptorValue::Notify }),
        Err(error) => Err(error@),
    }
}

/// The registration held after `subscribe_completed`: the one held before
/// if the descriptor write succeeded, else none.
pub open spec fn token_after_subscribe_completed(
    token: Option<EventRegistrationToken>,
    reply: Result<GattCommunicationStatus, Error>,
) -> Option<EventRegistrationToken> {
    if status_outcome(Operation::Subscribe, reply) is Ok {
        token
    } else {
        None
    }
}

/// The registration that `subscribe_completed` hands back for removal: none
/// if the descriptor write succeeded, else the one held before.
pub open spec fn undone_by_subscribe_completed(
    token: Option<EventRegistrationToken>,
    reply: Result<GattCommunicationStatus, Error>,
) -> Option<EventRegistrationToken> {
    if status_outcome(Operation::Subscribe, reply) is Ok {
        None
    } else {
        token
    }
}

/// What `unsubscribe` asks of the stack: to remove the registration held, if
/// any, and to write `Disabled`.
pub open spec fn unsubscribe_step(token: Option<EventRegistrationToken>) -> SubscriptionChange {
    SubscriptionChange { remove: token, descriptor: DescriptorValue::Disabled }
}

/// What is passed on to the subscriber when the stack reports a changed value
/// to the handler registered under `registration`, while the client holds
/// `token`: nothing unless the handler's registration is the one held, and
/// nothing when the event has no arguments; else the bytes of the value,
/// once; or the failure to take them out of the stack's buffer.
pub open spec fn delivery(
    token: Option<EventRegistrationToken>,
    registration: Option<EventRegistrationToken>,
    args: Option<Result<Vec<u8>, Error>>,
) -> Result<Option<Seq<u8>>, Seq<char>> {
    if token is Some && token == registration {
        match args {
            Some(Ok(bytes)) => Ok(Some(bytes@)),
            Some(Err(error)) => Err(error@),
            None => Ok(None),
        }
    } else {
        Ok(None)
    }
}

/// What the value-changed handler returns, as the contracts read it.
pub open spec fn delivery_outcome(result: Result<Option<Vec<u8>>, Error>) -> Result<
    Option<Seq<u8>>,
    Seq<char>,
> {
    match result {
        Ok(Some(bytes)) => Ok(Some(bytes@)),
        Ok(None) => Ok(None),
        Err(error) => Err(error@),
    }
}

impl From<WriteType> for GattWriteOption {
    /// The mode that the stack is asked for, for each way of writing.
    fn from(write_type: WriteType) -> (option: GattWriteOption) {
        match write_type {
            WriteType::WithoutResponse => GattWriteOption::WriteWithoutResponse,
            WriteType::WithResponse => GattWriteOption::WriteWithResponse,
        }
    }
}

impl FromSpecImpl<WriteType> for GattWriteOption {
    open spec fn obeys_from_spec() -> bool {
        true
    }

    open spec fn from_spec(write_type: WriteType) -> GattWriteOption {
        write_option(write_type)
    }
}

/// Turns the status with which the stack completed `operation`, or the
/// failure of the call, into the operation's result.
fn status_result(operation: Operation, reply: Result<GattCommunicationStatus, Error>) -> (result:
    Result<(), Error>)
    ensures
        outcome(result) == status_outcome(operation, reply),
{
    match reply {
        Err(error) => Err(error),
        Ok(status) => {
            if status.is_success() {
                Ok(())
            } else {
                Err(Error::Other(failure_message(operation, status)))
            }
        },
    }
}

/// The client of one remote GATT characteristic.
///
/// It owns the handle of the characteristic, which it never looks into, and
/// the registration token of the value-changed handler. The token is held
/// from the moment the stack has registered the handler until the
/// subscription fails, or until `unsubscribe` or `release`.
pub struct BLECharacteristic<H> {
    characteristic: H,
    notify_token: Option<EventRegistrationToken>,
}

impl<H> BLECharacteristic<H> {
    /// The handle that the client was made with.
    pub closed spec fn handle(&self) -> H {
        self.characteristic
    }

    /// The registration that the client holds.
    pub closed spec fn token(&self) -> Option<EventRegistrationToken> {
        self.notify_token
    }

    /// Whether the client holds a registration.
    pub open spec fn subscribed(&self) -> bool {
        self.token() is Some
    }

    /// Wraps the handle of a characteristic. The client holds no registration.
    pub fn new(characteristic: H) -> (client: Self)
        ensures
            client.handle() == characteristic,
            client.token() is None,
    {
        BLECharacteristic { characteristic, notify_token: None }
    }

    /// The handle on which the caller performs what the client asks for.
    pub fn characteristic(&self) -> (handle: &H)
        ensures
            *handle == self.handle(),
    {
        &self.characteristic
    }

    /// The registration that the client holds.
    pub fn notify_token(&self) -> (token: Option<EventRegistrationToken>)
        ensures
            token == self.token(),
    {
        self.notify_token
    }

    /// Whether the client holds a registration.
    pub fn is_subscribed(&self) -> (subscribed: bool)
        ensures
            subscribed == self.subscribed(),
    {
        self.notify_token.is_some()
    }

    /// Takes the registration of the handler that the caller has just asked
    /// the stack for, and says what to ask of the stack next.
    ///
    /// If the handler was registered, the client holds the new token, and a
    /// registration held before is replaced and handed back for removal, so
    /// that it is not lost. The stack's answer to the descriptor write then
    /// goes to `subscribe_completed`, which decides whether the subscription
    /// stands; until then the handler is registered and passes on what
    /// reaches it. If the handler was not registered, nothing changes and
    /// the failure is the operation's result.
    pub fn subscribe(&mut self, registration: Result<EventRegistrationToken, Error>) -> (step:
        Result<SubscriptionChange, Error>)
        ensures
            final(self).handle() == old(self).handle(),
            final(self).token() == token_after_subscribe(old(self).token(), registration),
            outcome(step) == subscribe_step(old(self).token(), registration),
    {
        match registration {
            Ok(token) => {
                let displaced = self.notify_token;
                self.notify_token = Some(token);
                Ok(SubscriptionChange { remove: displaced, descriptor: DescriptorValue::Notify })
            },
            Err(error) => Err(error),
        }
    }

    /// Turns the answer of the stack to the descriptor write of a
    /// subscription into the operation's result, and undoes the
    /// registration if the write failed.
    ///
    /// After a success the client holds what it held and nothing is to be
    /// removed. After a failure, of the call or by its status, the client
    /// holds no registration, and the token that it held, the one of the
    /// handler just registered, is handed back for removal: the peripheral
    /// was not told to notify, so nothing is left registered. This is so
    /// after a repeated subscription too: the registration that it replaced
    /// was handed back by `subscribe` already, so that both are removed.
    pub fn subscribe_completed(&mut self, reply: Result<GattCommunicationStatus, Error>) -> (done: (
        Result<(), Error>,
        Option<EventRegistrationToken>,
    ))
        ensures
            final(self).handle() == old(self).handle(),
            outcome(done.0) == status_outcome(Operation::Subscribe, reply),
            final(self).token() == token_after_subscribe_completed(old(self).token(), reply),
            done.1 == undone_by_subscribe_completed(old(self).token(), reply),
            done.0 is Ok ==> final(self).token() == old(self).token() && done.1 is None,
            done.0 is Err ==> final(self).token() is None && done.1 == old(self).token(),
    {
        let result = status_result(Operation::Subscribe, reply);
        if result.is_ok() {
            (result, None)
        } else {
            let undone = self.notify_token;
            self.notify_token = None;
            (result, undone)
        }
    }

    /// Gives up the registration and says what to ask of the stack: to
    /// remove the handler, if one is registered, and to write `Disabled`.
    ///
    /// The client holds no registration from now on, whatever the stack
    /// answers. A client that holds none asks for the descriptor write alone.
    /// The stack's answer to the descriptor write goes to
    /// `unsubscribe_completed`.
    pub fn unsubscribe(&mut self) -> (step: SubscriptionChange)
        ensures
            final(self).handle() == old(self).handle(),
            final(self).token() is None,
            step == unsubscribe_step(old(self).token()),
    {
        let held = self.notify_token;
        self.notify_token = None;
        SubscriptionChange { remove: held, descriptor: DescriptorValue::Disabled }
    }

    /// Turns the answer of the stack to the descriptor write of an
    /// unsubscription into the operation's result. The client has given up
    /// its registration already and stays as it is.
    pub fn unsubscribe_completed(&self, reply: Result<GattCommunicationStatus, Error>) -> (result:
        Result<(), Error>)
        ensures
            outcome(result) == status_outcome(Operation::Unsubscribe, reply),
    {
        status_result(Operation::Unsubscribe, reply)
    }

    /// Turns the answer of the stack to a read of the value into the
    /// operation's result.
    pub fn read_value(&self, reply: Result<GattReadResult, Error>) -> (result: Result<
        Vec<u8>,
        Error,
    >)
        ensures
            bytes_outcome(result) == read_outcome(reply),
    {
        match reply {
            Err(error) => Err(error),
            Ok(read) => {
                if read.status.is_success() {
                    read.value
                } else {
                    Err(Error::Other(failure_message(Operation::Read, read.status)))
                }
            },
        }
    }

    /// Says what to ask of the stack to write `data`: a buffer that holds
    /// the bytes of `data`, written in the mode that `write_type` stands for.
    /// The stack's answer goes to `write_completed`.
    pub fn write_value(&self, data: &[u8], write_type: WriteType) -> (request: WriteRequest)
        ensures
            request.data@ == data@,
            request.option == write_option(write_type),
    {
        WriteRequest { data: slice_to_vec(data), option: GattWriteOption::from(write_type) }
    }

    /// Turns the answer of the stack to a write of the value into the
    /// operation's result.
    pub fn write_completed(&self, reply: Result<GattCommunicationStatus, Error>) -> (result: Result<
        (),
        Error,
    >)
        ensures
            outcome(result) == status_outcome(Operation::Write, reply),
    {
        status_result(Operation::Write, reply)
    }

    /// Decides what is passed on to the subscriber when the stack reports a
    /// changed value to a handler. `registration` is the token under which
    /// that handler was registered, if the handler knows it yet; `args` is
    /// what the event carried: nothing, or the bytes that the caller took out
    /// of the stack's buffer, or the failure to do so.
    ///
    /// While the client holds the handler's registration, each event with a
    /// value yields that value once; a failure to take the value out is the
    /// handler's own failure. A handler whose registration the client does
    /// not hold, because it was replaced, undone or given up, or because the
    /// stack failed to remove it, passes nothing on.
    pub fn value_changed(
        &self,
        registration: Option<EventRegistrationToken>,
        args: Option<Result<Vec<u8>, Error>>,
    ) -> (result: Result<Option<Vec<u8>>, Error>)
        ensures
            delivery_outcome(result) == delivery(self.token(), registration, args),
    {
        let own = match (self.notify_token, registration) {
            (Some(held), Some(registered)) => held == registered,
            _ => false,
        };
        if !own {
            return Ok(None);
        }
        match args {
            Some(Ok(bytes)) => Ok(Some(bytes)),
            Some(Err(error)) => Err(error),
            None => Ok(None),
        }
    }

    /// Gives up the registration at the end of the client's life, and hands
    /// back the token of the handler that the caller is to remove, if one is
    /// registered. Nothing is written to the peripheral, and there is no
    /// failure to report: see `removal_report` for the stack's answer.
    pub fn release(&mut self) -> (remove: Option<EventRegistrationToken>)
        ensures
            final(self).handle() == old(self).handle(),
            final(self).token() is None,
            remove == old(self).token(),
    {
        let held = self.notify_token;
        self.notify_token = None;
        held
    }
}

} // verus!
