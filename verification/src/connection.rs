//! One connection's bookkeeping: it hands out request identities, keeps the
//! requests that are in flight, and decides for everything the engine yields
//! whether it answers one of them or is a notification.
//!
//! The connection has one owner. Whoever shares it between the callers and
//! the polling worker serialises access to it; in return each contract here
//! says exactly what a call did.

use crate::bus::{NotificationBus, TonNotificationReceiver, NOTIFICATION_BACKLOG};
use crate::calls::{init_call, init_call_of, init_call_with, keystore_for, slice_text};
use crate::channel::{completion_channel, position, starts_at};
use crate::error::{TlError, TonClientError};
use crate::step::{
    classify, pending_after, requested_id, route_uncorrelated, send_failure, step_for, Delivery,
    Step,
};
use crate::table::{InvokeResult, RequestData, RequestTable};
use crate::tag::{decimal_digits, format_request_id, push_decimal, tag_of};
use crate::types::{
    method_name_of, KeyStoreType, SmcMethodId, TonConnectionParams, TonFunction, TonNotification,
    TonResult, TvmStackEntry,
};
use std::sync::Arc;
use tokio::sync::oneshot;
use vstd::prelude::*;

verus! {

/// A request that has been registered and now has to be sent.
#[derive(Debug)]
pub struct Invocation {
    /// The identity the request was given.
    pub request_id: u32,
    /// The tag to send the call under.
    pub extra: String,
    /// Where the caller waits for the result.
    pub receiver: oneshot::Receiver<InvokeResult>,
}

/// The identity handed out after `id`. The sequence starts over after the
/// last 32-bit value.
pub open spec fn next_after(id: u32) -> u32 {
    if id == u32::MAX {
        0
    } else {
        (id + 1) as u32
    }
}

/// The diagnostic name of the connection with serial number `serial`.
pub open spec fn connection_tag(serial: u32) -> Seq<char> {
    "ton-conn-"@ + decimal_digits(serial as nat)
}

/// The state of one connection.
#[derive(Debug)]
pub struct TonConnection {
    tag: String,
    counter: u32,
    requests: RequestTable,
    notifications: NotificationBus,
}

/// Whether `after` is `before` with `function` registered at `now` as
/// `invocation` says: the request has the identity that was next and
/// travels under its tag, and it is in flight with its name and time. The
/// other requests in flight, the connection's name and its notification bus
/// are as they were.
pub open spec fn registered(
    before: TonConnection,
    after: TonConnection,
    function: TonFunction,
    invocation: Invocation,
    now: u64,
) -> bool {
    &&& invocation.request_id == before.next_request_id()
    &&& invocation.extra@ == tag_of(invocation.request_id)
    &&& after.next_request_id() == next_after(before.next_request_id())
    &&& after.name() == before.name()
    &&& after.notifications() == before.notifications()
    &&& after.pending().dom() == before.pending().dom().insert(invocation.request_id)
    &&& after.pending()[invocation.request_id].method@ == method_name_of(function)
    &&& after.pending()[invocation.request_id].send_time == now
    &&& after.pending().remove(invocation.request_id) == before.pending().remove(
        invocation.request_id,
    )
}

impl TonConnection {
    /// The requests in flight, by request identity.
    pub closed spec fn pending(&self) -> Map<u32, RequestData> {
        self.requests@
    }

    /// The identity that the next request will get.
    pub closed spec fn next_request_id(&self) -> u32 {
        self.counter
    }

    /// The connection's diagnostic name.
    pub closed spec fn name(&self) -> Seq<char> {
        self.tag@
    }

    /// The bus on which the connection's notifications are published.
    pub closed spec fn notifications(&self) -> NotificationBus {
        self.notifications
    }

    /// A connection with nothing in flight, named after `serial`, whose
    /// first request gets identity 0. Nothing has been published on its bus,
    /// which holds back at least [`NOTIFICATION_BACKLOG`] notifications for
    /// every subscriber. Nothing has been asked of the engine.
    pub fn new(serial: u32) -> (connection: TonConnection)
        ensures
            connection.name() == connection_tag(serial),
            connection.next_request_id() == 0,
            connection.pending() == Map::<u32, RequestData>::empty(),
            connection.notifications().backlog() >= NOTIFICATION_BACKLOG,
            connection.notifications().published() == Seq::<TonNotification>::empty(),
    {
        let mut tag = "ton-conn-".to_owned();
        push_decimal(&mut tag, serial);
        TonConnection {
            tag,
            counter: 0,
            requests: RequestTable::new(),
            notifications: NotificationBus::new(),
        }
    }

    /// The connection's diagnostic name.
    pub fn tag(&self) -> (tag: &str)
        ensures
            tag@ == self.name(),
    {
        self.tag.as_str()
    }

    /// Registers a request for `function` handed to the engine at `now`.
    ///
    /// The request gets the next identity and a fresh completion channel,
    /// and is in flight from here on. What comes back says under which tag
    /// to send the call and where to wait for its result. Should the
    /// identity still belong to a request in flight, 2^32 requests old, that
    /// request gives way to the new one.
    pub fn invoke(&mut self, function: &TonFunction, now: u64) -> (invocation: Invocation)
        ensures
            registered(*old(self), *final(self), *function, invocation, now),
    {
        let request_id = self.counter;
        self.counter = if request_id == u32::MAX {
            0
        } else {
            request_id + 1
        };
        let extra = format_request_id(request_id);
        let (sender, receiver) = completion_channel();
        let data = RequestData { method: function.method_name(), send_time: now, sender };
        let _ = self.requests.insert(request_id, data);
        assert(self.requests@.remove(request_id) =~= old(self).requests@.remove(request_id));
        Invocation { request_id, extra, receiver }
    }

    /// Takes a request whose call the engine refused to send out of flight.
    ///
    /// Where the request was in flight, what comes back resolves it to the
    /// transport error at once, without a word from the engine. Where it was
    /// not, there is nobody to tell and nothing changes.
    pub fn send_failed(&mut self, request_id: u32, error: TlError) -> (delivery: Option<Delivery>)
        ensures
            final(self).pending() == old(self).pending().remove(request_id),
            final(self).next_request_id() == old(self).next_request_id(),
            final(self).name() == old(self).name(),
            final(self).notifications() == old(self).notifications(),
            !final(self).pending().contains_key(request_id),
            delivery == send_failure(old(self).pending(), request_id, error),
    {
        match self.requests.remove(request_id) {
            Some(data) => Some(
                Delivery { request_id, data, result: Err(TonClientError::TlError(error)) },
            ),
            None => None,
        }
    }

    /// Decides what to do with `outcome`, which the engine yielded under the
    /// tag `extra`.
    ///
    /// Where the tag names a request in flight, that request leaves the
    /// table and the outcome goes to its caller. Everything else reaches no
    /// caller: a result of a notification's shape is to be published, any
    /// other result is to be reported as unreadable, and an error is dropped.
    pub fn correlate(&mut self, outcome: Result<TonResult, TlError>, extra: Option<String>) -> (step: Step)
        ensures
            step == step_for(old(self).pending(), outcome, extra),
            final(self).pending() == pending_after(old(self).pending(), extra),
            final(self).next_request_id() == old(self).next_request_id(),
            final(self).name() == old(self).name(),
            final(self).notifications() == old(self).notifications(),
    {
        let request_id = requested_id(&extra);
        let found = match request_id {
            Some(id) => self.requests.remove(id),
            None => None,
        };
        let result = classify(outcome);
        match found {
            Some(data) => Step::Deliver(Delivery { request_id: request_id.unwrap(), data, result }),
            None => route_uncorrelated(request_id, result),
        }
    }

    /// A new subscription to the connection's notifications. It starts
    /// after everything published so far: it is to see every notification
    /// published from now on, in the order of publication, and none
    /// published before.
    pub fn subscribe(&self) -> (receiver: TonNotificationReceiver)
        ensures
            starts_at(receiver) == position(self.notifications().published().len()),
    {
        self.notifications.subscribe()
    }

    /// Offers `notification` to every current subscription, without ever
    /// waiting for one. The answer is the channel's own. Where it is the
    /// number of subscriptions there were, at least one, the notification is
    /// the latest published on the connection's bus. Where it is the
    /// notification handed back, because there was no subscription, nothing
    /// was published. The requests in flight are not touched.
    pub fn publish(&mut self, notification: TonNotification) -> (answer: Result<
        usize,
        Arc<TonNotification>,
    >)
        ensures
            final(self).pending() == old(self).pending(),
            final(self).next_request_id() == old(self).next_request_id(),
            final(self).name() == old(self).name(),
            final(self).notifications().backlog() == old(self).notifications().backlog(),
            final(self).notifications().own_subscription() == old(self).notifications().own_subscription(),
            match answer {
                Ok(receivers) => {
                    &&& receivers >= 1
                    &&& final(self).notifications().published() == old(self).notifications().published().push(notification)
                },
                Err(returned) => {
                    &&& *returned == notification
                    &&& final(self).notifications().published() == old(self).notifications().published()
                },
            },
    {
        self.notifications.publish(notification)
    }

    /// Registers the initialization call and returns it with its invocation.
    pub fn init(
        &mut self,
        config: &str,
        blockchain_name: Option<&str>,
        use_callbacks_for_network: bool,
        ignore_cache: bool,
        keystore_type: KeyStoreType,
        now: u64,
    ) -> (call: (TonFunction, Invocation))
        ensures
            call.0@ == init_call_with(
                config@,
                slice_text(blockchain_name),
                use_callbacks_for_network,
                ignore_cache,
                keystore_type@,
            ),
            registered(*old(self), *final(self), call.0, call.1, now),
    {
        let function = init_call(
            config,
            blockchain_name,
            use_callbacks_for_network,
            ignore_cache,
            keystore_type,
        );
        let invocation = self.invoke(&function, now);
        (function, invocation)
    }

    /// Registers a run of the get-method `method` of the contract that the
    /// engine knows as `id`, on the arguments `stack`, and returns the call
    /// with its invocation.
    pub fn smc_run_get_method(
        &mut self,
        id: i64,
        method: SmcMethodId,
        stack: Vec<TvmStackEntry>,
        now: u64,
    ) -> (call: (TonFunction, Invocation))
        ensures
            call.0 == (TonFunction::SmcRunGetMethod { id, method, stack }),
            registered(*old(self), *final(self), call.0, call.1, now),
    {
        let function = TonFunction::SmcRunGetMethod { id, method, stack };
        let invocation = self.invoke(&function, now);
        (function, invocation)
    }

    /// A new connection with its initialization call registered as its
    /// first request. Its bus is as [`TonConnection::new`] makes it.
    pub fn connect(params: &TonConnectionParams, serial: u32, now: u64) -> (opened: (
        TonConnection,
        TonFunction,
        Invocation,
    ))
        ensures
            opened.0.name() == connection_tag(serial),
            opened.0.next_request_id() == 1,
            opened.1@ == init_call_of(*params),
            opened.2.request_id == 0,
            opened.2.extra@ == tag_of(0),
            opened.0.pending().dom() == set![0u32],
            opened.0.pending()[0].method@ == "Init"@,
            opened.0.pending()[0].send_time == now,
            opened.0.notifications().backlog() >= NOTIFICATION_BACKLOG,
            opened.0.notifications().published() == Seq::<TonNotification>::empty(),
    {
        let mut connection = TonConnection::new(serial);
        let keystore_type = keystore_for(params);
        let blockchain_name = match &params.blockchain_name {
            Some(name) => Some(name.as_str()),
            None => None,
        };
        let (function, invocation) = connection.init(
            params.config.as_str(),
            blockchain_name,
            params.use_callbacks_for_network,
            params.ignore_cache,
            keystore_type,
            now,
        );
        (connection, function, invocation)
    }
}

} // verus!
