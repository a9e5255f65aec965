//! What holds of the client across its operations.

use vstd::multiset::Multiset;
use vstd::prelude::*;
use crate::characteristic::{
    delivery, read_outcome, status_outcome, subscribe_step, token_after_subscribe,
    token_after_subscribe_completed, undone_by_subscribe_completed, unsubscribe_step,
};
use crate::error::Error;
use crate::platform::{
    DescriptorValue, EventRegistrationToken, GattCommunicationStatus, GattReadResult,
    SubscriptionChange,
};
use crate::text::{failure_text, Operation};

verus! {

/// A call that can change the registration which the client holds.
pub enum Call {
    /// `subscribe`, with what the stack answered to the registration of the handler.
    Subscribe(Result<EventRegistrationToken, Error>),
    /// `subscribe_completed`, with what the stack answered to the descriptor write.
    SubscribeCompleted(Result<GattCommunicationStatus, Error>),
    /// `unsubscribe`.
    Unsubscribe,
    /// `release`.
    Release,
}

/// The registration that the client holds after `call`.
pub open spec fn token_after_call(token: Option<EventRegistrationToken>, call: Call) -> Option<
    EventRegistrationToken,
> {
    match call {
        Call::Subscribe(registration) => token_after_subscribe(token, registration),
        Call::SubscribeCompleted(reply) => token_after_subscribe_completed(token, reply),
        Call::Unsubscribe => None,
        Call::Release => None,
    }
}

/// The registration that the stack made for `call`.
pub open spec fn registered_for_call(call: Call) -> Option<EventRegistrationToken> {
    match call {
        Call::Subscribe(Ok(token)) => Some(token),
        _ => None,
    }
}

/// The registration that `call` hands back for removal.
pub open spec fn handed_back_by_call(token: Option<EventRegistrationToken>, call: Call) -> Option<
    EventRegistrationToken,
> {
    match call {
        Call::Subscribe(registration) => match subscribe_step(token, registration) {
            Ok(change) => change.remove,
            Err(_) => None,
        },
        Call::SubscribeCompleted(reply) => undone_by_subscribe_completed(token, reply),
        Call::Unsubscribe => unsubscribe_step(token).remove,
        Call::Release => token,
    }
}

/// The registration that a client without one holds after a whole
/// subscription: the handler is registered under `token`, and the stack
/// answers the descriptor write with `reply`.
pub open spec fn token_after_subscription(
    held: Option<EventRegistrationToken>,
    token: EventRegistrationToken,
    reply: Result<GattCommunicationStatus, Error>,
) -> Option<EventRegistrationToken> {
    token_after_call(
        token_after_call(held, Call::Subscribe(Ok(token))),
        Call::SubscribeCompleted(reply),
    )
}

/// After a subscription that succeeded, every event that reaches the handler
/// just registered and carries a value passes exactly that value on, once,
/// whatever registration was held before and whatever the bytes are, none
/// included.
pub proof fn subscribed_passes_each_value_on(
    held: Option<EventRegistrationToken>,
    token: EventRegistrationToken,
    status: GattCommunicationStatus,
    payload: Vec<u8>,
)
    requires
        status.succeeded(),
    ensures
        token_after_subscription(held, token, Ok(status)) == Some(token),
        delivery(token_after_subscription(held, token, Ok(status)), Some(token), Some(Ok(payload)))
            == Ok::<Option<Seq<u8>>, Seq<char>>(Some(payload@)),
{
}

/// A subscription whose descriptor write failed, by its status or because
/// the call failed, leaves the client without a registration, whatever it
/// held before: the token of the handler just registered is handed back for
/// removal, the registration held before was handed back when it was
/// replaced, and no event passes anything on afterwards.
pub proof fn failed_subscription_is_undone(
    held: Option<EventRegistrationToken>,
    token: EventRegistrationToken,
    reply: Result<GattCommunicationStatus, Error>,
    registration: Option<EventRegistrationToken>,
    args: Option<Result<Vec<u8>, Error>>,
)
    requires
        status_outcome(Operation::Subscribe, reply) is Err,
    ensures
        handed_back_by_call(held, Call::Subscribe(Ok(token))) == held,
        token_after_subscription(held, token, reply) is None,
        handed_back_by_call(
            token_after_call(held, Call::Subscribe(Ok(token))),
            Call::SubscribeCompleted(reply),
        ) == Some(token),
        delivery(token_after_subscription(held, token, reply), registration, args) == Ok::<
            Option<Seq<u8>>,
            Seq<char>,
        >(None),
{
}

/// A value is passed on only by the handler whose registration the client
/// holds: a handler that was replaced, undone or given up passes nothing on,
/// also where the stack failed to remove it.
pub proof fn only_the_held_registration_passes_values_on(
    held: Option<EventRegistrationToken>,
    registration: Option<EventRegistrationToken>,
    args: Option<Result<Vec<u8>, Error>>,
)
    ensures
        delivery(held, registration, args) != Ok::<Option<Seq<u8>>, Seq<char>>(None) ==> held
            is Some && held == registration,
{
}

/// Unsubscribing twice in a row leaves the client without a registration
/// after the first call and after the second, whatever the stack answers;
/// the second call asks for no removal, only for the descriptor write, and
/// succeeds if the stack reports success for that write.
pub proof fn unsubscribe_twice(held: Option<EventRegistrationToken>, status: GattCommunicationStatus)
    requires
        status.succeeded(),
    ensures
        token_after_call(held, Call::Unsubscribe) is None,
        token_after_call(token_after_call(held, Call::Unsubscribe), Call::Unsubscribe) is None,
        unsubscribe_step(token_after_call(held, Call::Unsubscribe)) == (SubscriptionChange {
            remove: None,
            descriptor: DescriptorValue::Disabled,
        }),
        status_outcome(Operation::Unsubscribe, Ok(status)) == Ok::<(), Seq<char>>(()),
{
}

/// After `unsubscribe`, and after `release` at the end of the client's life,
/// nothing is passed on to the subscriber any more, whichever handler the
/// event reaches, whatever it carries and whatever the stack answered to the
/// removal of the handler.
pub proof fn nothing_is_passed_on_after_the_end(
    held: Option<EventRegistrationToken>,
    registration: Option<EventRegistrationToken>,
    args: Option<Result<Vec<u8>, Error>>,
)
    ensures
        delivery(token_after_call(held, Call::Unsubscribe), registration, args) == Ok::<
            Option<Seq<u8>>,
            Seq<char>,
        >(None),
        delivery(token_after_call(held, Call::Release), registration, args) == Ok::<
            Option<Seq<u8>>,
            Seq<char>,
        >(None),
{
}

/// An operation succeeds if and only if the call went through and the stack
/// reported success, and a read if, besides, the value could be taken out of
/// the stack's buffer.
pub proof fn success_is_the_success_of_the_stack(
    operation: Operation,
    reply: Result<GattCommunicationStatus, Error>,
    read: Result<GattReadResult, Error>,
)
    ensures
        status_outcome(operation, reply) is Ok <==> (reply matches Ok(status)
            && status.succeeded()),
        read_outcome(read) is Ok <==> (read matches Ok(result) && result.status.succeeded()
            && result.value is Ok),
{
}

/// A write, a subscription or an unsubscription that the stack completed
/// with a status other than success fails with the text that names the
/// operation and the status, and so does a read, whatever came with it.
pub proof fn failure_status_is_a_failure(
    operation: Operation,
    status: GattCommunicationStatus,
    value: Result<Vec<u8>, Error>,
)
    requires
        !status.succeeded(),
    ensures
        status_outcome(operation, Ok(status)) == Err::<(), Seq<char>>(
            failure_text(operation, status),
        ),
        read_outcome(Ok(GattReadResult { status, value })) == Err::<Seq<u8>, Seq<char>>(
            failure_text(Operation::Read, status),
        ),
{
}

/// A call that failed before the stack could report a status fails the
/// operation with the call's own failure.
pub proof fn failed_call_is_a_failure(operation: Operation, error: Error)
    ensures
        status_outcome(operation, Err(error)) == Err::<(), Seq<char>>(error@),
        read_outcome(Err(error)) == Err::<Seq<u8>, Seq<char>>(error@),
{
}

/// A read that the stack completed with success returns the bytes of the
/// value, as many as there are and in their order.
pub proof fn read_returns_the_value(status: GattCommunicationStatus, bytes: Vec<u8>)
    requires
        status.succeeded(),
    ensures
        read_outcome(Ok(GattReadResult { status, value: Ok(bytes) })) == Ok::<
            Seq<u8>,
            Seq<char>,
        >(bytes@),
{
}

/// The registrations that a client holds: the one of its token, or none.
pub open spec fn held_registrations(token: Option<EventRegistrationToken>) -> Multiset<
    EventRegistrationToken,
> {
    match token {
        Some(token) => Multiset::singleton(token),
        None => Multiset::empty(),
    }
}

/// The registration that the client holds after `calls`, made in their order.
pub open spec fn token_after_calls(token: Option<EventRegistrationToken>, calls: Seq<Call>) -> Option<
    EventRegistrationToken,
>
    decreases calls.len(),
{
    if calls.len() == 0 {
        token
    } else {
        token_after_call(token_after_calls(token, calls.drop_last()), calls.last())
    }
}

/// The registrations that the stack made for `calls`.
pub open spec fn registered_for_calls(calls: Seq<Call>) -> Multiset<EventRegistrationToken>
    decreases calls.len(),
{
    if calls.len() == 0 {
        Multiset::empty()
    } else {
        registered_for_calls(calls.drop_last()).add(
            held_registrations(registered_for_call(calls.last())),
        )
    }
}

/// The registrations that `calls`, made in their order, hand back for removal.
pub open spec fn handed_back_by_calls(
    token: Option<EventRegistrationToken>,
    calls: Seq<Call>,
) -> Multiset<EventRegistrationToken>
    decreases calls.len(),
{
    if calls.len() == 0 {
        Multiset::empty()
    } else {
        handed_back_by_calls(token, calls.drop_last()).add(
            held_registrations(
                handed_back_by_call(token_after_calls(token, calls.drop_last()), calls.last()),
            ),
        )
    }
}

/// One call loses no registration: the one held before the call and the one
/// that the stack made for it are those handed back and held after it.
proof fn call_keeps_every_registration(token: Option<EventRegistrationToken>, call: Call)
    ensures
        held_registrations(token).add(held_registrations(registered_for_call(call)))
            == held_registrations(handed_back_by_call(token, call)).add(
            held_registrations(token_after_call(token, call)),
        ),
{
    assert(held_registrations(token).add(held_registrations(registered_for_call(call)))
        =~= held_registrations(handed_back_by_call(token, call)).add(
        held_registrations(token_after_call(token, call)),
    ));
}

/// No registration is ever lost, and none is handed back twice: whatever
/// calls are made in whatever order and whatever the stack answers, each
/// registration that the client held at first or that the stack made since
/// is either held at the end or was handed back for removal, once.
pub proof fn every_registration_is_held_or_handed_back(
    token: Option<EventRegistrationToken>,
    calls: Seq<Call>,
)
    ensures
        held_registrations(token).add(registered_for_calls(calls)) == handed_back_by_calls(
            token,
            calls,
        ).add(held_registrations(token_after_calls(token, calls))),
    decreases calls.len(),
{
    if calls.len() > 0 {
        every_registration_is_held_or_handed_back(token, calls.drop_last());
        call_keeps_every_registration(token_after_calls(token, calls.drop_last()), calls.last());
    }
    assert(held_registrations(token).add(registered_for_calls(calls)) =~= handed_back_by_calls(
        token,
        calls,
    ).add(held_registrations(token_after_calls(token, calls))));
}

/// A client that is released at the end holds nothing afterwards: every
/// registration that it held or that the stack made for it has been handed
/// back for removal.
pub proof fn released_client_has_handed_back_every_registration(
    token: Option<EventRegistrationToken>,
    calls: Seq<Call>,
)
    ensures
        token_after_calls(token, calls.push(Call::Release)) is None,
        handed_back_by_calls(token, calls.push(Call::Release)) == held_registrations(token).add(
            registered_for_calls(calls),
        ),
{
    let all = calls.push(Call::Release);
    assert(all.drop_last() =~= calls);
    every_registration_is_held_or_handed_back(token, all);
    assert(registered_for_calls(all) =~= registered_for_calls(calls));
    assert(handed_back_by_calls(token, all) =~= held_registrations(token).add(
        registered_for_calls(calls),
    ));
}

} // verus!
