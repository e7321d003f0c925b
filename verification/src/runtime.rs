//! The pieces of the asynchronous runtime that the multiplexer holds: the two
//! ends of its event queue and its cancellation token.
//!
//! Both are shared with the background task, so nothing here says what a
//! queue contains or whether a token is cancelled: another holder may change
//! either at any moment. What is assumed of each call is written on it.

use vstd::prelude::*;
use tokio::sync::mpsc::{UnboundedReceiver, UnboundedSender};
use tokio_util::sync::CancellationToken;
use crate::event::Event;

verus! {

/// `tokio_util::sync::CancellationToken`, carried as an opaque value.
#[verifier::external_type_specification]
#[verifier::external_body]
pub struct ExCancellationToken(CancellationToken);

/// `tokio::sync::mpsc::UnboundedSender`, carried as an opaque value.
#[verifier::external_type_specification]
#[verifier::external_body]
#[verifier::reject_recursive_types(T)]
pub struct ExUnboundedSender<T>(UnboundedSender<T>);

/// `tokio::sync::mpsc::UnboundedReceiver`, carried as an opaque value.
#[verifier::external_type_specification]
#[verifier::external_body]
#[verifier::reject_recursive_types(T)]
pub struct ExUnboundedReceiver<T>(UnboundedReceiver<T>);

/// `CancellationToken::new` makes a token of its own. Nothing is assumed of
/// the token here.
pub assume_specification[ CancellationToken::new ]() -> (token: CancellationToken)
;

/// `CancellationToken::cancel` signals the token and all its clones. It
/// returns nothing and may be called any number of times; nothing is assumed
/// of it here.
pub assume_specification[ CancellationToken::cancel ](token: &CancellationToken)
;

/// `CancellationToken::is_cancelled` says whether the token has been
/// signalled. Any holder of a clone may signal it at any moment, so nothing
/// is assumed of the answer.
pub assume_specification[ CancellationToken::is_cancelled ](token: &CancellationToken) -> (b: bool)
;

/// `tokio::sync::mpsc::unbounded_channel` makes the two ends of a new queue.
/// Nothing is assumed of them here.
pub assume_specification<T>[ tokio::sync::mpsc::unbounded_channel::<T> ]() -> (ends: (
    UnboundedSender<T>,
    UnboundedReceiver<T>,
))
;

/// `Clone::clone` of `CancellationToken`: a second handle on the same token.
/// Assumed: the clone equals the token it was made from, as the token's own equality has
/// it (two tokens are equal exactly when cancelling one cancels the other).
#[verifier::external_body]
pub(crate) fn share_token(token: &CancellationToken) -> (other: CancellationToken)
    ensures
        other == *token,
{
    token.clone()
}

/// `Clone::clone` of `UnboundedSender`: a second producer handle on the same
/// queue. Assumed: the clone equals the handle it was made from.
#[verifier::external_body]
pub(crate) fn share_sender(tx: &UnboundedSender<Event>) -> (other: UnboundedSender<Event>)
    ensures
        other == *tx,
{
    tx.clone()
}

/// `UnboundedSender::send`: enqueues `event` without waiting. The result is
/// whether the queue took it; it does not once the consumer end is closed or
/// dropped. Which of the two happens depends on the other end, so nothing is
/// assumed of the result.
#[verifier::external_body]
pub(crate) fn send_event(tx: &UnboundedSender<Event>, event: Event) -> (taken: bool)
{
    tx.send(event).is_ok()
}

} // verus!
