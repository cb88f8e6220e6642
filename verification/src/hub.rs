//! The subscriber's side of the broadcast hub.
//!
//! The hub hands every published update to every subscriber and retains a
//! bounded number of them. A subscriber that falls behind by more than that
//! misses what was overwritten and goes on with what is left; the publisher
//! never waits for it.

use vstd::prelude::*;
use crate::models::{AccountInfo, Address, TransactionInfo};

verus! {

/// The number of published updates that the hub retains for subscribers
/// that lag.
pub const DEFAULT_HUB_CAPACITY: usize = 1024;

/// What a subscriber gets when it asks the hub for its next update.
#[derive(Debug, PartialEq, Eq)]
pub enum Received<T> {
    /// The next update.
    Message(T),
    /// The subscriber fell behind, and this many updates are lost to it.
    Lagged(u64),
    /// The hub is gone.
    Closed,
}

/// What a subscriber does with what it got.
#[derive(Debug, PartialEq, Eq)]
pub enum SubscriberStep<T> {
    /// Pass the update on to the client, then ask again.
    Deliver(T),
    /// Pass nothing on, and ask again.
    Skip,
    /// Stop asking.
    Stop,
}

/// What a subscriber to the updates of one account does with what it got:
/// it passes on the updates of that account and no others, it goes on after
/// having lagged, and it stops when the hub is gone.
pub fn account_subscriber_step(received: Received<AccountInfo>, wanted: &Address) -> (step:
    SubscriberStep<AccountInfo>)
    ensures
        step == match received {
            Received::Message(account) => if account.pubkey@ == wanted@ {
                SubscriberStep::Deliver(account)
            } else {
                SubscriberStep::Skip
            },
            Received::Lagged(_) => SubscriberStep::Skip,
            Received::Closed => SubscriberStep::Stop,
        },
{
    match received {
        Received::Message(account) => if account.pubkey == *wanted {
            SubscriberStep::Deliver(account)
        } else {
            SubscriberStep::Skip
        },
        Received::Lagged(_) => SubscriberStep::Skip,
        Received::Closed => SubscriberStep::Stop,
    }
}

/// What a subscriber to transactions does with what it got: it passes on
/// every transaction, it goes on after having lagged, and it stops when the
/// hub is gone.
pub fn transaction_subscriber_step(received: Received<TransactionInfo>) -> (step: SubscriberStep<
    TransactionInfo,
>)
    ensures
        step == match received {
            Received::Message(transaction) => SubscriberStep::Deliver(transaction),
            Received::Lagged(_) => SubscriberStep::Skip,
            Received::Closed => SubscriberStep::Stop,
        },
{
    match received {
        Received::Message(transaction) => SubscriberStep::Deliver(transaction),
        Received::Lagged(_) => SubscriberStep::Skip,
        Received::Closed => SubscriberStep::Stop,
    }
}

} // verus!
