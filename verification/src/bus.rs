//! Fan-out of notifications to any number of independent subscribers.

use crate::channel::{
    backlog_of, broadcast_channel, broadcast_send, broadcast_subscribe, position, published_by,
    starts_at,
};
use crate::types::TonNotification;
use std::sync::Arc;
use tokio::sync::broadcast;
use vstd::prelude::*;

verus! {

/// One subscription to a connection's notifications.
pub type TonNotificationReceiver = broadcast::Receiver<Arc<TonNotification>>;

/// How many notifications a bus is asked to hold back for a subscriber that
/// falls behind. The bus holds back at least as many.
pub const NOTIFICATION_BACKLOG: usize = 10000;

/// The publishing side of a connection's notifications.
///
/// The bus keeps one subscription of its own that it never reads, so that
/// publishing finds a receiver even while nobody else has subscribed. The
/// bus has one owner: publishing goes through `&mut self`.
#[derive(Debug)]
pub struct NotificationBus {
    sender: broadcast::Sender<Arc<TonNotification>>,
    _receiver: TonNotificationReceiver,
}

/// The number of subscriptions that a publish reached, given what the
/// channel answered.
pub open spec fn reached_by(answer: Result<usize, Arc<TonNotification>>) -> usize {
    match answer {
        Ok(receivers) => receivers,
        Err(_) => 0,
    }
}

/// Reads the channel's answer to a publish as the number of subscriptions
/// reached: none at all where the channel handed the notification back.
pub fn reached(answer: Result<usize, Arc<TonNotification>>) -> (count: usize)
    ensures
        count == reached_by(answer),
{
    match answer {
        Ok(receivers) => receivers,
        Err(_) => 0,
    }
}

impl NotificationBus {
    /// How many notifications this bus holds back for a subscriber that
    /// falls behind, before that subscriber starts to lose the oldest ones.
    pub closed spec fn backlog(&self) -> nat {
        backlog_of(self.sender)
    }

    /// Every notification that has been published on this bus, oldest first.
    pub closed spec fn published(&self) -> Seq<TonNotification> {
        published_by(self.sender)
    }

    /// The subscription that the bus keeps for itself.
    pub closed spec fn own_subscription(&self) -> TonNotificationReceiver {
        self._receiver
    }

    /// A bus on which nothing has been published, and which holds back at
    /// least [`NOTIFICATION_BACKLOG`] notifications for every subscriber.
    pub fn new() -> (bus: NotificationBus)
        ensures
            bus.backlog() >= NOTIFICATION_BACKLOG,
            bus.published() == Seq::<TonNotification>::empty(),
            starts_at(bus.own_subscription()) == 0,
    {
        let (sender, receiver) = broadcast_channel(NOTIFICATION_BACKLOG);
        NotificationBus { sender, _receiver: receiver }
    }

    /// A new subscription. It starts after everything published so far: it
    /// is to see every notification published from now on, in the order of
    /// publication, and none published before.
    pub fn subscribe(&self) -> (receiver: TonNotificationReceiver)
        ensures
            starts_at(receiver) == position(self.published().len()),
    {
        broadcast_subscribe(&self.sender)
    }

    /// Offers `notification` to every current subscription, without ever
    /// waiting for one. The answer is the channel's own. Where it is the
    /// number of subscriptions there were, at least one, the notification is
    /// the latest published on the bus. Where it is the notification handed
    /// back, because there was no subscription, nothing was published.
    pub fn publish(&mut self, notification: TonNotification) -> (answer: Result<
        usize,
        Arc<TonNotification>,
    >)
        ensures
            final(self).backlog() == old(self).backlog(),
            final(self).own_subscription() == old(self).own_subscription(),
            match answer {
                Ok(receivers) => {
                    &&& receivers >= 1
                    &&& final(self).published() == old(self).published().push(notification)
                },
                Err(returned) => {
                    &&& *returned == notification
                    &&& final(self).published() == old(self).published()
                },
            },
    {
        broadcast_send(&mut self.sender, Arc::new(notification))
    }
}

} // verus!
