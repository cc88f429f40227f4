//! What becomes of everything the engine yields: whose request it answers,
//! if anybody's, and what is to be done with it if nobody's.

use crate::channel::complete;
use crate::error::{TlError, TonClientError};
use crate::table::{taken, InvokeResult, RequestData};
use crate::tag::{parse_request_id, tag_value};
use crate::types::{notification_of, TonNotification, TonResult};
use tokio::sync::oneshot;
use vstd::prelude::*;

verus! {

/// A result on its way to the caller that waits for it.
#[derive(Debug)]
pub struct Delivery {
    /// The identity of the request that is being answered.
    pub request_id: u32,
    /// What the table held for that request.
    pub data: RequestData,
    /// What the request resolves to.
    pub result: InvokeResult,
}

/// The time from `then` to `now`, and none at all if `now` is the earlier.
pub open spec fn elapsed_between(now: u64, then: u64) -> u64 {
    if now >= then {
        (now - then) as u64
    } else {
        0
    }
}

impl Delivery {
    /// How long the request has been in flight at `now`.
    pub fn elapsed(&self, now: u64) -> (elapsed: u64)
        ensures
            elapsed == elapsed_between(now, self.data.send_time),
    {
        if now >= self.data.send_time {
            now - self.data.send_time
        } else {
            0
        }
    }

    /// Hands the result to the waiting caller. Where the caller has given up
    /// waiting, the result comes back unchanged.
    pub fn complete(self) -> (bounced: Result<(), InvokeResult>)
        ensures
            bounced matches Err(result) ==> result == self.result,
    {
        complete(self.data.sender, self.result)
    }
}

/// What to do with something the engine yielded.
#[derive(Debug)]
pub enum Step {
    /// It answers a request in flight.
    Deliver(Delivery),
    /// It answers nothing and is a notification.
    Notify { notification: TonNotification },
    /// It answers nothing and is no notification either.
    Unparsed { result: TonResult },
    /// It is an error that answers nothing.
    Ignored { request_id: Option<u32>, error: TonClientError },
}

/// The request identity that an echoed tag names, if it names one.
pub open spec fn requested(extra: Option<String>) -> Option<u32> {
    match extra {
        Some(tag) => tag_value(tag@),
        None => None,
    }
}

/// What a yield of the engine means to a caller: an error that the engine
/// reported, a failure of the binding, or a result.
pub open spec fn classified(outcome: Result<TonResult, TlError>) -> InvokeResult {
    match outcome {
        Ok(TonResult::Error { code, message }) => Err(TonClientError::TonlibError { code, message }),
        Ok(result) => Ok(result),
        Err(error) => Err(TonClientError::TlError(error)),
    }
}

/// What to do with a result that answers no request in flight.
pub open spec fn uncorrelated(request_id: Option<u32>, result: InvokeResult) -> Step {
    match result {
        Ok(result) => match notification_of(result) {
            Some(notification) => Step::Notify { notification },
            None => Step::Unparsed { result },
        },
        Err(error) => Step::Ignored { request_id, error },
    }
}

/// What to do with `outcome`, echoed under `extra`, while `pending` is in flight.
pub open spec fn step_for(
    pending: Map<u32, RequestData>,
    outcome: Result<TonResult, TlError>,
    extra: Option<String>,
) -> Step {
    match requested(extra) {
        Some(request_id) => match taken(pending, request_id) {
            Some(data) => Step::Deliver(
                Delivery { request_id, data, result: classified(outcome) },
            ),
            None => uncorrelated(Some(request_id), classified(outcome)),
        },
        None => uncorrelated(None, classified(outcome)),
    }
}

/// What stays in flight once something echoed under `extra` has been dealt with.
pub open spec fn pending_after(pending: Map<u32, RequestData>, extra: Option<String>) -> Map<
    u32,
    RequestData,
> {
    match requested(extra) {
        Some(request_id) => pending.remove(request_id),
        None => pending,
    }
}

/// Classifies a yield of the engine. See [`classified`].
pub fn classify(outcome: Result<TonResult, TlError>) -> (result: InvokeResult)
    ensures
        result == classified(outcome),
{
    match outcome {
        Ok(TonResult::Error { code, message }) => Err(TonClientError::TonlibError { code, message }),
        Ok(result) => Ok(result),
        Err(error) => Err(TonClientError::TlError(error)),
    }
}

/// Decides what to do with a result that answers no request in flight. See
/// [`uncorrelated`].
pub fn route_uncorrelated(request_id: Option<u32>, result: InvokeResult) -> (step: Step)
    ensures
        step == uncorrelated(request_id, result),
{
    match result {
        Ok(result) => match TonNotification::from_result(&result) {
            Some(notification) => Step::Notify { notification },
            None => Step::Unparsed { result },
        },
        Err(error) => Step::Ignored { request_id, error },
    }
}

/// Reads the tag that the engine echoed, if it echoed one.
pub fn requested_id(extra: &Option<String>) -> (request_id: Option<u32>)
    ensures
        request_id == requested(*extra),
{
    match extra {
        Some(tag) => parse_request_id(tag.as_str()),
        None => None,
    }
}

/// What a request resolves to, given what came out of the channel that its
/// caller waited on: the delivered result, or an internal error where the
/// channel closed without one.
pub open spec fn resolved(received: Result<InvokeResult, oneshot::error::RecvError>) -> InvokeResult {
    match received {
        Ok(delivered) => delivered,
        Err(_) => Err(TonClientError::InternalError),
    }
}

/// What the caller of a request gets, given what came out of the channel it
/// waited on. See [`resolved`].
pub fn resolve(received: Result<InvokeResult, oneshot::error::RecvError>) -> (result: InvokeResult)
    ensures
        result == resolved(received),
{
    match received {
        Ok(delivered) => delivered,
        Err(_) => Err(TonClientError::InternalError),
    }
}

/// What taking a request whose call could not be sent out of flight gives:
/// for a request in flight, its resolution to the transport error.
pub open spec fn send_failure(pending: Map<u32, RequestData>, request_id: u32, error: TlError) -> Option<
    Delivery,
> {
    match taken(pending, request_id) {
        Some(data) => Some(Delivery { request_id, data, result: Err(TonClientError::TlError(error)) }),
        None => None,
    }
}

} // verus!
