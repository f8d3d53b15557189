use vstd::prelude::*;

verus! {

/// The exchanges that the normalizer knows.
#[derive(Clone, Copy, Debug, PartialEq, Eq, Structural)]
pub enum Exchange {
    Binance,
    Coinbase,
    Kraken,
}

/// The taker side of a trade.
#[derive(Clone, Copy, Debug, PartialEq, Eq, Structural)]
pub enum Side {
    Buy,
    Sell,
}

/// A trade in the canonical schema that every connector publishes.
///
/// Prices and quantities are carried as the decimal text that the exchange
/// sent, exactly; consumers turn them into numbers.
#[derive(Clone, Debug)]
pub struct Trade {
    pub exchange: Exchange,
    pub symbol: String,
    pub price: String,
    pub quantity: String,
    pub side: Side,
    pub exchange_ts_ms: u64,
    pub recv_ts_ms: u64,
}

/// The mathematical content of a [`Trade`].
pub struct TradeView {
    pub exchange: Exchange,
    pub symbol: Seq<char>,
    pub price: Seq<char>,
    pub quantity: Seq<char>,
    pub side: Side,
    pub exchange_ts_ms: u64,
    pub recv_ts_ms: u64,
}

impl View for Trade {
    type V = TradeView;

    open spec fn view(&self) -> TradeView {
        TradeView {
            exchange: self.exchange,
            symbol: self.symbol@,
            price: self.price@,
            quantity: self.quantity@,
            side: self.side,
            exchange_ts_ms: self.exchange_ts_ms,
            recv_ts_ms: self.recv_ts_ms,
        }
    }
}

/// Whole milliseconds in `d`.
#[verifier::external_body]
fn duration_as_millis(d: &core::time::Duration) -> u128 {
    d.as_millis()
}

/// Time elapsed since the Unix epoch by the system clock, `None` where the
/// clock reads a time before the epoch.
#[verifier::external_body]
fn elapsed_since_unix_epoch() -> Option<core::time::Duration> {
    match std::time::UNIX_EPOCH.elapsed() {
        Ok(d) => Some(d),
        Err(_) => None,
    }
}

/// The timestamp of a clock reading: the whole milliseconds elapsed since the
/// Unix epoch, truncated to 64 bits, or 0 where the clock read a time before
/// the epoch.
pub open spec fn epoch_millis_spec(elapsed_ms: Option<u128>) -> u64 {
    match elapsed_ms {
        Some(ms) => ms as u64,
        None => 0,
    }
}

/// The timestamp of a clock reading that gave `elapsed_ms` milliseconds since
/// the Unix epoch (`None` where the clock read a time before the epoch).
pub fn epoch_millis(elapsed_ms: Option<u128>) -> (ms: u64)
    ensures
        ms == epoch_millis_spec(elapsed_ms),
{
    match elapsed_ms {
        Some(ms) => ms as u64,
        None => 0,
    }
}

/// Milliseconds since the Unix epoch by the system clock, truncated to 64
/// bits. Where the clock reads a time before the epoch it returns 0 rather
/// than failing: no argument could rule such a reading out. The reading
/// itself depends on the time of the call, so nothing is promised of the
/// value; [`epoch_millis`] states how a reading becomes the timestamp.
pub fn now_millis() -> u64 {
    let elapsed_ms: Option<u128> = match elapsed_since_unix_epoch() {
        Some(d) => Some(duration_as_millis(&d)),
        None => None,
    };
    epoch_millis(elapsed_ms)
}

} // verus!
