//! The finalized-header feed as a sequence that the caller pulls from.
//!
//! The node pushes notifications into a channel from a context of its own; the
//! subscription owns the receiving end, so one consumer drains it, in the order
//! in which the notifications were pushed. Dropping the subscription closes
//! the channel. A subscription that has ended is not restarted: open another.

use vstd::prelude::*;
use crate::error::ChainError;
use crate::header::{decode_header, decodes_to, Header};
use crate::retry::{retry, MAX_ATTEMPTS};

verus! {

/// `std::sync::mpsc::Receiver`, the receiving end of a channel; it is only
/// carried and received from.
#[verifier::external_type_specification]
#[verifier::external_body]
#[verifier::reject_recursive_types(T)]
pub struct ExReceiver<T>(std::sync::mpsc::Receiver<T>);

/// The receiving end of a subscription to finalized headers.
pub struct FinalizedHeadSubscription {
    stream: std::sync::mpsc::Receiver<String>,
}

/// Calls `Receiver::recv`, which blocks until a message arrives or every
/// sender is gone; nothing is known of what arrives, so nothing is stated.
#[verifier::external_body]
fn receive(stream: &std::sync::mpsc::Receiver<String>) -> (message: Option<String>) {
    match stream.recv() {
        Ok(payload) => Some(payload),
        Err(_) => None,
    }
}

/// What the subscription hands out for a received message, or for the end of
/// the channel.
pub fn deliver(message: Option<String>) -> (item: Option<Result<Header, ChainError>>)
    ensures
        match message {
            Some(payload) => item matches Some(outcome) && decodes_to(payload@, outcome),
            None => item is None,
        },
{
    match message {
        Some(payload) => Some(decode_header(payload.as_str())),
        None => None,
    }
}

impl FinalizedHeadSubscription {
    /// The channel that the subscription reads from.
    pub closed spec fn channel(&self) -> std::sync::mpsc::Receiver<String> {
        self.stream
    }

    /// Wraps the receiving end of the channel that the node pushes into.
    pub fn new(stream: std::sync::mpsc::Receiver<String>) -> (subscription: Self)
        ensures
            subscription.channel() == stream,
    {
        FinalizedHeadSubscription { stream }
    }

    /// Opens a subscription: `subscribe` asks the node for the feed and gives
    /// the receiving end of its channel. The request runs under the retry
    /// rule, so a dropped connection while subscribing is tried again. The
    /// subscription reads from a channel that `subscribe` gave, and a failure
    /// is one that `subscribe` gave.
    pub fn open<F: Fn() -> Result<std::sync::mpsc::Receiver<String>, ChainError>>(
        subscribe: &F,
    ) -> (opened: Result<Self, ChainError>)
        requires
            subscribe.requires(()),
        ensures
            match opened {
                Ok(subscription) => subscribe.ensures((), Ok(subscription.channel())),
                Err(e) => subscribe.ensures((), Err(e)),
            },
    {
        match retry(subscribe, MAX_ATTEMPTS) {
            Ok(stream) => Ok(FinalizedHeadSubscription::new(stream)),
            Err(e) => Err(e),
        }
    }

    /// Blocks until the next notification arrives and decodes it. A payload
    /// that does not decode gives an error for this call only; the next call
    /// reads the next notification. `None` means that the channel is closed
    /// and nothing will arrive any more.
    pub fn next(&mut self) -> (item: Option<Result<Header, ChainError>>)
        ensures
            item matches Some(outcome) ==> exists|payload: Seq<char>| decodes_to(payload, outcome),
    {
        let message = receive(&self.stream);
        let ghost received = message;
        let item = deliver(message);
        proof {
            if item is Some {
                assert(decodes_to(received.unwrap()@, item.unwrap()));
            }
        }
        item
    }
}

} // verus!
