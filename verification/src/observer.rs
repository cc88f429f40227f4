//! What the connection's observer is told, and when.
//!
//! The observer is whoever wants to watch a connection at work. This module
//! says, for every turn a request can take, which observations are due and
//! in which order; telling the observer is up to whoever drives the
//! connection.

use crate::connection::Invocation;
use crate::step::{elapsed_between, Delivery, Step};
use crate::error::{TlError, TonClientError};
use crate::table::InvokeResult;
use crate::types::{TonNotification, TonResult};
use vstd::prelude::*;

verus! {

/// One thing the observer is told.
#[derive(Debug, PartialEq, Eq)]
pub enum Observation<'a> {
    /// A request was registered and is about to be sent.
    Invoke { request_id: u32 },
    /// The engine answered a request in flight.
    InvokeResult { request_id: u32, method: &'static str, elapsed: u64, result: &'a InvokeResult },
    /// The answer to a request found nobody waiting for it.
    InvokeResultSendError { request_id: u32, elapsed: u64, result: &'a InvokeResult },
    /// The engine binding failed to send or to receive.
    TlError { error: &'a TlError },
    /// The engine understood a call and rejected it.
    TonlibError { request: Option<u32>, code: i32, message: &'a String },
    /// The engine pushed a notification.
    Notification { notification: &'a TonNotification },
    /// The engine yielded a result that answers no request and is no
    /// notification either.
    TonResultParseError { ton_result: &'a TonResult },
}

/// The observation due for an error, if one is due: errors that the engine
/// reported and failures of its binding are observed, others are not.
pub open spec fn failure_observed<'a>(request_id: Option<u32>, error: &'a TonClientError) -> Option<
    Observation<'a>,
> {
    match error {
        TonClientError::TonlibError { code, message } => Some(
            Observation::TonlibError { request: request_id, code: *code, message },
        ),
        TonClientError::TlError(error) => Some(Observation::TlError { error }),
        _ => None,
    }
}

/// The observations due for `step` at `now`, in order.
pub open spec fn observations_of<'a>(step: &'a Step, now: u64) -> Seq<Observation<'a>> {
    match step {
        Step::Deliver(delivery) => {
            let answered = Observation::InvokeResult {
                request_id: delivery.request_id,
                method: delivery.data.method,
                elapsed: elapsed_between(now, delivery.data.send_time),
                result: &delivery.result,
            };
            match &delivery.result {
                Ok(_) => seq![answered],
                Err(error) => match failure_observed(Some(delivery.request_id), error) {
                    Some(failure) => seq![failure, answered],
                    None => seq![answered],
                },
            }
        },
        Step::Notify { notification } => seq![Observation::Notification { notification }],
        Step::Unparsed { result } => seq![Observation::TonResultParseError { ton_result: result }],
        Step::Ignored { request_id, error } => match failure_observed(*request_id, error) {
            Some(failure) => seq![failure],
            None => seq![],
        },
    }
}

/// The observation due for an error, if one is due. See [`failure_observed`].
pub fn observe_failure<'a>(request_id: Option<u32>, error: &'a TonClientError) -> (observation: Option<
    Observation<'a>,
>)
    ensures
        observation == failure_observed(request_id, error),
{
    match error {
        TonClientError::TonlibError { code, message } => Some(
            Observation::TonlibError { request: request_id, code: *code, message },
        ),
        TonClientError::TlError(error) => Some(Observation::TlError { error }),
        _ => None,
    }
}

/// The hooks through which a connection can be watched. Every hook may do
/// nothing; none of them may fail. Times are in the unit of the clock that
/// drives the connection.
pub trait TonConnectionCallback {
    /// A request was registered and is about to be sent.
    fn on_invoke(&self, request_id: u32);

    /// The engine answered a request in flight.
    fn on_invoke_result(&self, request_id: u32, method: &str, elapsed: u64, result: &InvokeResult);

    /// The answer to a request found nobody waiting for it.
    fn on_invoke_result_send_error(&self, request_id: u32, elapsed: u64, result: &InvokeResult);

    /// The engine binding failed to send or to receive.
    fn on_tl_error(&self, error: &TlError);

    /// The engine understood a call and rejected it.
    fn on_tonlib_error(&self, request_id: &Option<u32>, code: i32, message: &str);

    /// The engine pushed a notification.
    fn on_notification(&self, notification: &TonNotification);

    /// The engine yielded a result that answers no request and is no
    /// notification either.
    fn on_ton_result_parse_error(&self, result: &TonResult);
}

/// The observer that watches nothing.
#[derive(Debug, Clone, Copy)]
pub struct NoopCallback;

impl TonConnectionCallback for NoopCallback {
    fn on_invoke(&self, request_id: u32) {
    }

    fn on_invoke_result(&self, request_id: u32, method: &str, elapsed: u64, result: &InvokeResult) {
    }

    fn on_invoke_result_send_error(&self, request_id: u32, elapsed: u64, result: &InvokeResult) {
    }

    fn on_tl_error(&self, error: &TlError) {
    }

    fn on_tonlib_error(&self, request_id: &Option<u32>, code: i32, message: &str) {
    }

    fn on_notification(&self, notification: &TonNotification) {
    }

    fn on_ton_result_parse_error(&self, result: &TonResult) {
    }
}

/// Tells `observer` of `observation`, through the hook of the same name.
pub fn tell<C: TonConnectionCallback + ?Sized>(observer: &C, observation: &Observation<'_>) {
    match observation {
        Observation::Invoke { request_id } => observer.on_invoke(*request_id),
        Observation::InvokeResult { request_id, method, elapsed, result } => {
            observer.on_invoke_result(*request_id, method, *elapsed, result)
        },
        Observation::InvokeResultSendError { request_id, elapsed, result } => {
            observer.on_invoke_result_send_error(*request_id, *elapsed, result)
        },
        Observation::TlError { error } => observer.on_tl_error(error),
        Observation::TonlibError { request, code, message } => {
            observer.on_tonlib_error(request, *code, message.as_str())
        },
        Observation::Notification { notification } => observer.on_notification(notification),
        Observation::TonResultParseError { ton_result: result } => observer.on_ton_result_parse_error(result),
    }
}

/// Tells `observer` of every observation in `due`, first to last.
pub fn tell_all<C: TonConnectionCallback + ?Sized>(observer: &C, due: &Vec<Observation<'_>>) {
    let mut i: usize = 0;
    while i < due.len()
        invariant
            i <= due.len(),
        decreases due.len() - i,
    {
        tell(observer, &due[i]);
        i = i + 1;
    }
}

impl Delivery {
    /// Hands the result to the waiting caller. Where the caller has given
    /// up waiting, `observer` hears of it and the result comes back
    /// unchanged.
    pub fn hand_over<C: TonConnectionCallback + ?Sized>(self, now: u64, observer: &C) -> (bounced: Result<
        (),
        InvokeResult,
    >)
        ensures
            bounced matches Err(result) ==> result == self.result,
    {
        let request_id = self.request_id;
        let elapsed = self.elapsed(now);
        let bounced = self.complete();
        match observe_bounce(request_id, elapsed, &bounced) {
            Some(observation) => tell(observer, &observation),
            None => {},
        }
        bounced
    }
}

/// The observation due once a delivery has been tried: none where the
/// caller took the result, and the bounce where the result came back.
pub open spec fn bounce_observed<'a>(
    request_id: u32,
    elapsed: u64,
    bounced: &'a Result<(), InvokeResult>,
) -> Option<Observation<'a>> {
    match bounced {
        Ok(_) => None,
        Err(result) => Some(Observation::InvokeResultSendError { request_id, elapsed, result }),
    }
}

/// The observation due once a delivery has been tried. See
/// [`bounce_observed`].
pub fn observe_bounce<'a>(request_id: u32, elapsed: u64, bounced: &'a Result<(), InvokeResult>) -> (observation: Option<
    Observation<'a>,
>)
    ensures
        observation == bounce_observed(request_id, elapsed, bounced),
{
    match bounced {
        Ok(_) => None,
        Err(result) => Some(Observation::InvokeResultSendError { request_id, elapsed, result }),
    }
}

/// The observations due when a request has been registered, before its
/// call is handed to the engine: that it is being invoked, once.
pub open spec fn registration_observed<'a>(invocation: &'a Invocation) -> Seq<Observation<'a>> {
    seq![Observation::Invoke { request_id: invocation.request_id }]
}

/// The observations due once the call of a registered request has been
/// handed to the engine, given the engine's answer: none where it took the
/// call, and the failure of the binding, once, where it did not.
pub open spec fn send_observed<'a>(sent: &'a Result<(), TlError>) -> Seq<Observation<'a>> {
    match sent {
        Ok(_) => seq![],
        Err(error) => seq![Observation::TlError { error }],
    }
}

impl Invocation {
    /// The observations due now that the request is registered, all of them
    /// before its call is handed to the engine.
    pub fn observations<'a>(&'a self) -> (due: Vec<Observation<'a>>)
        ensures
            due@ == registration_observed(self),
    {
        let mut due: Vec<Observation<'a>> = Vec::new();
        due.push(Observation::Invoke { request_id: self.request_id });
        due
    }
}

/// The observations due once the call of a registered request has been
/// handed to the engine. See [`send_observed`].
pub fn observe_send<'a>(sent: &'a Result<(), TlError>) -> (due: Vec<Observation<'a>>)
    ensures
        due@ == send_observed(sent),
{
    let mut due: Vec<Observation<'a>> = Vec::new();
    match sent {
        Ok(_) => {},
        Err(error) => due.push(Observation::TlError { error }),
    }
    due
}

impl Step {
    /// The observations due for this step at `now`, in the order in which
    /// the observer is to hear of them, all of them before the step is
    /// carried out.
    pub fn observations<'a>(&'a self, now: u64) -> (due: Vec<Observation<'a>>)
        ensures
            due@ == observations_of(self, now),
    {
        let mut due: Vec<Observation<'a>> = Vec::new();
        match self {
            Step::Deliver(delivery) => {
                match &delivery.result {
                    Ok(_) => {},
                    Err(error) => match observe_failure(Some(delivery.request_id), error) {
                        Some(failure) => due.push(failure),
                        None => {},
                    },
                }
                due.push(
                    Observation::InvokeResult {
                        request_id: delivery.request_id,
                        method: delivery.data.method,
                        elapsed: delivery.elapsed(now),
                        result: &delivery.result,
                    },
                );
            },
            Step::Notify { notification } => due.push(Observation::Notification { notification }),
            Step::Unparsed { result } => due.push(Observation::TonResultParseError { ton_result: result }),
            Step::Ignored { request_id, error } => match observe_failure(*request_id, error) {
                Some(failure) => due.push(failure),
                None => {},
            },
        }
        due
    }
}

} // verus!
