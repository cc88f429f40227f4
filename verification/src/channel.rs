//! The channels of `tokio::sync` that this layer hands values through: the
//! single-use channel that completes one request, and the broadcast channel
//! that fans notifications out.
//!
//! Verus sees none of tokio's code. What is stated here about it is taken on
//! trust from its source and documentation.

use crate::types::TonNotification;
use std::sync::Arc;
use tokio::sync::{broadcast, oneshot};
use vstd::prelude::*;

verus! {

/// `tokio::sync::oneshot::Sender`: the sending half of a single-use channel.
#[verifier::external_type_specification]
#[verifier::external_body]
#[verifier::reject_recursive_types(T)]
pub struct ExOneshotSender<T>(oneshot::Sender<T>);

/// `tokio::sync::oneshot::Receiver`: the receiving half of a single-use channel.
#[verifier::external_type_specification]
#[verifier::external_body]
#[verifier::reject_recursive_types(T)]
pub struct ExOneshotReceiver<T>(oneshot::Receiver<T>);

/// `tokio::sync::oneshot::error::RecvError`: the sender went away without sending.
#[verifier::external_type_specification]
#[verifier::external_body]
pub struct ExOneshotRecvError(oneshot::error::RecvError);

/// `tokio::sync::broadcast::Sender`: the publishing side of a broadcast channel.
#[verifier::external_type_specification]
#[verifier::external_body]
#[verifier::reject_recursive_types(T)]
pub struct ExBroadcastSender<T>(broadcast::Sender<T>);

/// `tokio::sync::broadcast::Receiver`: one subscription to a broadcast channel.
#[verifier::external_type_specification]
#[verifier::external_body]
#[verifier::reject_recursive_types(T)]
pub struct ExBroadcastReceiver<T>(broadcast::Receiver<T>);

/// Calls `tokio::sync::oneshot::channel`. Nothing is claimed of the two
/// halves it returns.
#[verifier::external_body]
pub(crate) fn completion_channel<T>() -> (halves: (oneshot::Sender<T>, oneshot::Receiver<T>)) {
    oneshot::channel()
}

/// Calls `tokio::sync::oneshot::Sender::send`. The call never blocks. It
/// fails exactly when the receiving half is already gone, and then hands
/// back the very value it was given; whether it fails is not ours to know.
#[verifier::external_body]
pub(crate) fn complete<T>(sender: oneshot::Sender<T>, value: T) -> (refused: Result<(), T>)
    ensures
        refused matches Err(returned) ==> returned == value,
{
    sender.send(value)
}

/// The number of slots of a notification channel: how many notifications it
/// holds back for a receiver that falls behind, before that receiver starts
/// to lose the oldest ones. It is settled when the channel is made.
pub uninterp spec fn backlog_of(sender: broadcast::Sender<Arc<TonNotification>>) -> nat;

/// Every notification that has been sent on a channel, oldest first. The
/// channel itself holds back only the latest of them, one per slot.
pub uninterp spec fn published_by(sender: broadcast::Sender<Arc<TonNotification>>) -> Seq<
    TonNotification,
>;

/// The position, in the history of its channel, of the next notification
/// that a receiver is to read.
pub uninterp spec fn starts_at(receiver: broadcast::Receiver<Arc<TonNotification>>) -> nat;

/// The position that follows `count` notifications. tokio counts positions
/// in 64 bits and starts over after the last.
pub open spec fn position(count: nat) -> nat {
    count % 0x1_0000_0000_0000_0000
}

/// Whether `n` is a power of two.
pub open spec fn is_power_of_two(n: nat) -> bool
    decreases n,
{
    n == 1 || (n > 1 && n % 2 == 0 && is_power_of_two(n / 2))
}

/// Calls `tokio::sync::broadcast::channel`, which panics on a capacity of
/// zero or above `usize::MAX / 2`. The channel it makes has as many slots as
/// the least power of two that is no less than the capacity asked for.
/// Nothing has been sent on it, and the receiver that comes with it starts
/// at the first position.
#[verifier::external_body]
pub(crate) fn broadcast_channel(capacity: usize) -> (ends: (
    broadcast::Sender<Arc<TonNotification>>,
    broadcast::Receiver<Arc<TonNotification>>,
))
    requires
        0 < capacity <= usize::MAX / 2,
    ensures
        capacity <= backlog_of(ends.0) < 2 * capacity,
        is_power_of_two(backlog_of(ends.0)),
        published_by(ends.0) =~= Seq::empty(),
        starts_at(ends.1) == 0,
{
    broadcast::channel(capacity)
}

/// Calls `tokio::sync::broadcast::Sender::send` on a sender that nobody
/// else can reach meanwhile. The call never blocks. With no live receiver it
/// fails, hands the value back and leaves the channel as it was. Otherwise
/// the value is the latest that was sent on the channel, and the call gives
/// the number of live receivers, which is then at least one. The number of
/// slots stays.
#[verifier::external_body]
pub(crate) fn broadcast_send(
    sender: &mut broadcast::Sender<Arc<TonNotification>>,
    value: Arc<TonNotification>,
) -> (reached: Result<usize, Arc<TonNotification>>)
    ensures
        backlog_of(*final(sender)) == backlog_of(*old(sender)),
        match reached {
            Ok(receivers) => receivers >= 1 && published_by(*final(sender)) == published_by(
                *old(sender),
            ).push(*value),
            Err(returned) => returned == value && published_by(*final(sender)) == published_by(
                *old(sender),
            ),
        },
{
    match sender.send(value) {
        Ok(receivers) => Ok(receivers),
        Err(broadcast::error::SendError(returned)) => Err(returned),
    }
}

/// Calls `tokio::sync::broadcast::Sender::subscribe`, which panics only once
/// the channel already has the largest number of receivers that tokio can
/// count, a number beyond what memory holds. The new receiver starts at the
/// position after everything sent so far: it is to read what is sent from
/// now on, and nothing that was sent before.
#[verifier::external_body]
pub(crate) fn broadcast_subscribe(sender: &broadcast::Sender<Arc<TonNotification>>) -> (receiver:
    broadcast::Receiver<Arc<TonNotification>>)
    ensures
        starts_at(receiver) == position(published_by(*sender).len()),
{
    sender.subscribe()
}

} // verus!
