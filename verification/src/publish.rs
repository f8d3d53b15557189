//! Hand-off of canonical trades to the publisher.
//!
//! Connectors offer trades to a bounded channel without waiting: when the
//! channel is full the new trade is dropped, so that a slow publisher never
//! backs up into a websocket read loop.
use vstd::prelude::*;
use tokio::sync::mpsc::Sender;
use tokio::sync::mpsc::error::TrySendError;
use crate::types::Trade;

verus! {

/// The sending half of a bounded `tokio` channel, carried through unopened.
#[verifier::external_type_specification]
#[verifier::external_body]
#[verifier::reject_recursive_types(T)]
pub struct ExSender<T>(Sender<T>);

/// The capacity of the channel between the connectors and the publisher.
pub const PUBLISH_CHANNEL_CAPACITY: usize = 10_000;

/// What became of one trade offered to the channel.
#[derive(Clone, Copy, Debug, PartialEq, Eq, Structural)]
pub enum Offer {
    /// The channel took the trade.
    Accepted,
    /// The channel was full; the trade was dropped.
    Full,
    /// The receiving half is gone; the trade was dropped.
    Closed,
}

/// `Sender::try_send`: hands `trade` to the channel if it has room, without
/// waiting. Which outcome comes back depends on the channel's state, which
/// other tasks share, so nothing is promised of it.
#[verifier::external_body]
fn try_send_trade(tx: &Sender<Trade>, trade: Trade) -> Offer {
    match tx.try_send(trade) {
        Ok(()) => Offer::Accepted,
        Err(TrySendError::Full(_)) => Offer::Full,
        Err(TrySendError::Closed(_)) => Offer::Closed,
    }
}

/// How many of the offered trades the channel took and how many were
/// dropped, and why.
#[derive(Clone, Copy, Debug, PartialEq, Eq, Structural)]
pub struct Delivery {
    pub accepted: usize,
    pub dropped_full: usize,
    pub dropped_closed: usize,
}

impl Delivery {
    /// The tally after one more trade met `offer`.
    pub fn record(&self, offer: Offer) -> (d: Delivery)
        requires
            self.accepted + self.dropped_full + self.dropped_closed < usize::MAX,
        ensures
            d == (match offer {
                Offer::Accepted => Delivery { accepted: (self.accepted + 1) as usize, ..*self },
                Offer::Full => Delivery { dropped_full: (self.dropped_full + 1) as usize, ..*self },
                Offer::Closed => Delivery {
                    dropped_closed: (self.dropped_closed + 1) as usize,
                    ..*self
                },
            }),
    {
        match offer {
            Offer::Accepted => Delivery { accepted: self.accepted + 1, ..*self },
            Offer::Full => Delivery { dropped_full: self.dropped_full + 1, ..*self },
            Offer::Closed => Delivery { dropped_closed: self.dropped_closed + 1, ..*self },
        }
    }
}

/// Offers `trades` to the channel one by one, in order, dropping each that the
/// channel does not take at once: every trade is accounted for exactly once.
pub fn publish(tx: &Sender<Trade>, trades: Vec<Trade>) -> (d: Delivery)
    ensures
        d.accepted + d.dropped_full + d.dropped_closed == trades@.len(),
{
    let len = trades.len();
    let ghost n = trades@.len();
    let mut d = Delivery { accepted: 0, dropped_full: 0, dropped_closed: 0 };
    for t in it: trades.into_iter()
        invariant
            d.accepted + d.dropped_full + d.dropped_closed == it.index(),
            it.seq().len() == n,
            n == len,
            it.index() <= n,
    {
        let offer = try_send_trade(tx, t);
        d = d.record(offer);
    }
    d
}

} // verus!
