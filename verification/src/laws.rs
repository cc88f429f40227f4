//! What holds of a connection whatever the callers and the engine do.

use crate::connection::{next_after, registered, Invocation, TonConnection};
use crate::step::{
    classified, pending_after, requested, resolved, send_failure, step_for, uncorrelated, Delivery,
    Step,
};
use crate::error::{TlError, TonClientError};
use crate::table::RequestData;
use crate::tag::{lemma_tag_round_trip, tag_of};
use crate::channel::position;
use crate::observer::{send_observed, Observation};
use crate::types::{method_name_of, notification_of, TonFunction, TonNotification, TonResult};
use vstd::prelude::*;

verus! {

/// The identity handed out `count` requests after `first`.
pub open spec fn issued(first: u32, count: nat) -> u32
    decreases count,
{
    if count == 0 {
        first
    } else {
        next_after(issued(first, (count - 1) as nat))
    }
}

/// The identities are handed out in counting order, starting over after the
/// last 32-bit value.
pub proof fn lemma_issued_counts(first: u32, count: nat)
    ensures
        issued(first, count) == (first + count) % 0x1_0000_0000,
    decreases count,
{
    if count > 0 {
        lemma_issued_counts(first, (count - 1) as nat);
    }
}

/// Fewer than 2^32 requests apart, two requests of one connection never get
/// the same identity, and so never travel under the same tag.
pub proof fn lemma_identities_unique(first: u32, earlier: nat, later: nat)
    requires
        earlier < later < earlier + 0x1_0000_0000,
    ensures
        issued(first, earlier) != issued(first, later),
        tag_of(issued(first, earlier)) != tag_of(issued(first, later)),
{
    lemma_issued_counts(first, earlier);
    lemma_issued_counts(first, later);
    lemma_tag_round_trip(issued(first, earlier));
    lemma_tag_round_trip(issued(first, later));
}

/// A result echoed under the tag of a request in flight goes to the caller
/// of that request, with what the table held for it, and takes it out of
/// flight. Every other request stays in flight as it was.
pub proof fn lemma_result_reaches_its_request(
    pending: Map<u32, RequestData>,
    request_id: u32,
    outcome: Result<TonResult, TlError>,
    extra: Option<String>,
)
    requires
        pending.contains_key(request_id),
        extra matches Some(tag) && tag@ == tag_of(request_id),
    ensures
        step_for(pending, outcome, extra) == Step::Deliver(
            Delivery { request_id, data: pending[request_id], result: classified(outcome) },
        ),
        pending_after(pending, extra) == pending.remove(request_id),
        !pending_after(pending, extra).contains_key(request_id),
        forall|other: u32|
            other != request_id ==> {
                &&& #[trigger] pending_after(pending, extra).contains_key(other)
                    == pending.contains_key(other)
                &&& pending_after(pending, extra)[other] == pending[other]
            },
{
    lemma_tag_round_trip(request_id);
}

/// What the engine yields under the tag that a request was registered with
/// goes to that request: to the entry that its registration made, with the
/// name of its call and the time it was registered at.
pub proof fn lemma_answer_finds_its_invocation(
    before: TonConnection,
    after: TonConnection,
    function: TonFunction,
    invocation: Invocation,
    now: u64,
    outcome: Result<TonResult, TlError>,
    extra: Option<String>,
)
    requires
        registered(before, after, function, invocation, now),
        extra matches Some(tag) && tag@ == invocation.extra@,
    ensures
        step_for(after.pending(), outcome, extra) matches Step::Deliver(delivery) && {
            &&& delivery.request_id == invocation.request_id
            &&& delivery.data == after.pending()[invocation.request_id]
            &&& delivery.data.method@ == method_name_of(function)
            &&& delivery.data.send_time == now
            &&& delivery.result == classified(outcome)
        },
        pending_after(after.pending(), extra) == before.pending().remove(invocation.request_id),
{
    lemma_tag_round_trip(invocation.request_id);
}

/// The order in which the engine answers two requests in flight changes
/// nothing of what either caller gets, nor of what stays in flight.
pub proof fn lemma_completion_order_is_free(
    pending: Map<u32, RequestData>,
    first_id: u32,
    second_id: u32,
    first_outcome: Result<TonResult, TlError>,
    first_extra: Option<String>,
    second_extra: Option<String>,
)
    requires
        first_id != second_id,
        pending.contains_key(first_id),
        pending.contains_key(second_id),
        first_extra matches Some(tag) && tag@ == tag_of(first_id),
        second_extra matches Some(tag) && tag@ == tag_of(second_id),
    ensures
        step_for(pending_after(pending, second_extra), first_outcome, first_extra) == step_for(
            pending,
            first_outcome,
            first_extra,
        ),
        pending_after(pending_after(pending, second_extra), first_extra) == pending_after(
            pending_after(pending, first_extra),
            second_extra,
        ),
{
    lemma_tag_round_trip(first_id);
    lemma_tag_round_trip(second_id);
    assert(pending.remove(second_id).remove(first_id) =~= pending.remove(first_id).remove(
        second_id,
    ));
}

/// What the engine yields under no tag, under a tag that names no request
/// identity, or under the tag of a request that is not in flight, reaches no
/// caller and leaves the table as it was. If it is a result, it is offered
/// as a notification where it has the shape of one and reported as
/// unreadable where it has not; if it is an error, it is dropped.
pub proof fn lemma_uncorrelated_reaches_no_caller(
    pending: Map<u32, RequestData>,
    outcome: Result<TonResult, TlError>,
    extra: Option<String>,
)
    requires
        requested(extra) matches Some(request_id) ==> !pending.contains_key(request_id),
    ensures
        !(step_for(pending, outcome, extra) is Deliver),
        pending_after(pending, extra) == pending,
        step_for(pending, outcome, extra) == uncorrelated(requested(extra), classified(outcome)),
        classified(outcome) matches Ok(result) ==> step_for(pending, outcome, extra) == (
        match notification_of(result) {
            Some(notification) => Step::Notify { notification },
            None => Step::Unparsed { result },
        }),
        classified(outcome) matches Err(error) ==> step_for(pending, outcome, extra) == (
        Step::Ignored { request_id: requested(extra), error }),
{
}

/// A request in flight whose call could not be sent resolves to the
/// transport error then and there, through the channel that the table held
/// for it, and the observer is due that same error, once. The request
/// leaves nothing behind in the table: whatever the engine may still yield
/// under its tag reaches no caller.
pub proof fn lemma_failed_send_resolves(
    pending: Map<u32, RequestData>,
    request_id: u32,
    error: TlError,
    later: Result<TonResult, TlError>,
    extra: Option<String>,
)
    requires
        pending.contains_key(request_id),
        extra matches Some(tag) && tag@ == tag_of(request_id),
    ensures
        send_failure(pending, request_id, error) matches Some(delivery) && {
            &&& delivery.request_id == request_id
            &&& delivery.data == pending[request_id]
            &&& resolved(Ok(delivery.result)) == Err::<TonResult, TonClientError>(
                TonClientError::TlError(error),
            )
        },
        send_observed(&Err::<(), TlError>(error)) == seq![Observation::TlError { error: &error }],
        !pending.remove(request_id).contains_key(request_id),
        !(step_for(pending.remove(request_id), later, extra) is Deliver),
{
    lemma_tag_round_trip(request_id);
}

/// What lies ahead of a subscription that starts at `start`, on a bus on
/// which `published` has been published: everything from `start` on.
pub open spec fn ahead_of(published: Seq<TonNotification>, start: nat) -> Seq<TonNotification> {
    published.skip(start as int)
}

/// A subscription starts after everything published before it was made:
/// nothing published earlier lies ahead of it, and what is published later
/// lies ahead of it in full and in the order of publication, whatever other
/// subscriptions there are. How much of that a slow subscriber still finds
/// held back is up to the bus's backlog.
pub proof fn lemma_subscription_starts_after_the_past(
    earlier: Seq<TonNotification>,
    later: Seq<TonNotification>,
    start: nat,
)
    requires
        earlier.len() < 0x1_0000_0000_0000_0000,
        start == position(earlier.len()),
    ensures
        ahead_of(earlier, start) == Seq::<TonNotification>::empty(),
        ahead_of(earlier + later, start) == later,
{
    assert(ahead_of(earlier + later, start) =~= later);
}

/// Once something echoed under a tag has been dealt with, nothing more that
/// arrives under that tag reaches a caller, until the identity is handed out
/// again: a request is answered at most once.
pub proof fn lemma_answered_at_most_once(
    pending: Map<u32, RequestData>,
    later: Result<TonResult, TlError>,
    extra: Option<String>,
)
    ensures
        !(step_for(pending_after(pending, extra), later, extra) is Deliver),
        pending_after(pending_after(pending, extra), extra) == pending_after(pending, extra),
{
}

} // verus!
