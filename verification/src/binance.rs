//! Binance public spot trade stream.
//!
//! Binance's server pings every 20 s; the connector treats the session as dead
//! after [`BINANCE_LIVENESS_TIMEOUT_MS`] without any frame (12 times the ping
//! interval). Binance sends no application heartbeat on the trade stream.
use vstd::prelude::*;
use vstd::string::*;
use crate::json::{
    Json, as_text, as_number_text, as_bool, text_of, str_field, number_field, bool_field, text_value,
    number_value, bool_value, str_member, number_member, bool_member,
};
use crate::session::{WsEvent, SessionError, SessionStep};
use crate::text::{decimal_u64, parse_decimal_u64, text_eq};
use crate::types::{Exchange, Side, Trade, TradeView, now_millis};

verus! {

/// The base URL of Binance's public spot websocket service.
pub const BINANCE_SPOT_WS_URL: &'static str = "wss://stream.binance.com:9443";

/// Milliseconds without any frame after which a Binance session is dead.
pub const BINANCE_LIVENESS_TIMEOUT_MS: u64 = 240_000;

/// A trade message of Binance's trade stream, with the fields the normalizer
/// reads: `s` symbol, `p` price, `q` quantity, `T` trade time in ms, `m`
/// whether the buyer was the maker.
#[derive(Debug)]
pub struct BinanceTrade {
    pub symbol: String,
    pub price: String,
    pub quantity: String,
    pub timestamp: u64,
    pub maker: bool,
}

/// The mathematical content of a [`BinanceTrade`].
pub struct BinanceTradeView {
    pub symbol: Seq<char>,
    pub price: Seq<char>,
    pub quantity: Seq<char>,
    pub timestamp: u64,
    pub maker: bool,
}

impl View for BinanceTrade {
    type V = BinanceTradeView;

    open spec fn view(&self) -> BinanceTradeView {
        BinanceTradeView {
            symbol: self.symbol@,
            price: self.price@,
            quantity: self.quantity@,
            timestamp: self.timestamp,
            maker: self.maker,
        }
    }
}

/// The trade made of these field values, where each is present and the trade
/// time is an unsigned integer of 64 bits.
pub open spec fn binance_fields(
    s: Option<Seq<char>>,
    p: Option<Seq<char>>,
    q: Option<Seq<char>>,
    t: Option<Seq<char>>,
    m: Option<bool>,
) -> Option<BinanceTradeView> {
    match (s, p, q, t, m) {
        (Some(s), Some(p), Some(q), Some(t), Some(m)) => match decimal_u64(t) {
            Some(ts) => Some(
                BinanceTradeView { symbol: s, price: p, quantity: q, timestamp: ts, maker: m },
            ),
            None => None,
        },
        _ => None,
    }
}

/// The trade that `doc` carries: an object whose members `s`, `p`, `q` are
/// strings, `T` an unsigned integer of 64 bits and `m` a boolean (other
/// members are ignored), or an array of exactly these five values in this
/// order.
pub open spec fn binance_trade_of(doc: Json) -> Option<BinanceTradeView> {
    match doc {
        Json::Array(items) => if items@.len() == 5 {
            binance_fields(
                as_text(items@[0]),
                as_text(items@[1]),
                as_text(items@[2]),
                as_number_text(items@[3]),
                as_bool(items@[4]),
            )
        } else {
            None
        },
        _ => binance_fields(
            str_field(doc, "s"@),
            str_field(doc, "p"@),
            str_field(doc, "q"@),
            number_field(doc, "T"@),
            bool_field(doc, "m"@),
        ),
    }
}

/// The canonical symbol of a Binance symbol: `BTCUSDT` is `BTC/USDT`; every
/// other symbol maps to the empty text.
pub open spec fn normalize_symbol_spec(symbol: Seq<char>) -> Seq<char> {
    if symbol == "BTCUSDT"@ {
        "BTC/USDT"@
    } else {
        Seq::empty()
    }
}

/// Binance's `m` says whether the buyer was the maker; the taker side is the
/// other one.
pub open spec fn taker_side(buyer_is_maker: bool) -> Side {
    if buyer_is_maker {
        Side::Sell
    } else {
        Side::Buy
    }
}

/// The canonical trade of a Binance trade received at `recv_ts_ms`.
pub open spec fn binance_canonical(b: BinanceTradeView, recv_ts_ms: u64) -> TradeView {
    TradeView {
        exchange: Exchange::Binance,
        symbol: normalize_symbol_spec(b.symbol),
        price: b.price,
        quantity: b.quantity,
        side: taker_side(b.maker),
        exchange_ts_ms: b.timestamp,
        recv_ts_ms: recv_ts_ms,
    }
}

/// The trade made of these field values.
fn binance_from_fields(
    s: Option<String>,
    p: Option<String>,
    q: Option<String>,
    t: Option<String>,
    m: Option<bool>,
) -> (r: Option<BinanceTrade>)
    ensures
        match r {
            Some(b) => binance_fields(text_of(s), text_of(p), text_of(q), text_of(t), m) == Some(
                b@,
            ),
            None => binance_fields(text_of(s), text_of(p), text_of(q), text_of(t), m) is None,
        },
{
    match (s, p, q, t, m) {
        (Some(s), Some(p), Some(q), Some(t), Some(m)) => match parse_decimal_u64(t.as_str()) {
            Some(ts) => Some(BinanceTrade { symbol: s, price: p, quantity: q, timestamp: ts, maker: m }),
            None => None,
        },
        _ => None,
    }
}

/// Reads the Binance trade in `doc`; `None` where `doc` is not one.
pub fn decode_binance_trade(doc: &Json) -> (r: Option<BinanceTrade>)
    ensures
        match r {
            Some(b) => binance_trade_of(*doc) == Some(b@),
            None => binance_trade_of(*doc) is None,
        },
{
    match doc {
        Json::Array(items) => {
            if items.len() == 5 {
                binance_from_fields(
                    text_value(&items[0]),
                    text_value(&items[1]),
                    text_value(&items[2]),
                    number_value(&items[3]),
                    bool_value(&items[4]),
                )
            } else {
                None
            }
        },
        _ => binance_from_fields(
            str_member(doc, "s"),
            str_member(doc, "p"),
            str_member(doc, "q"),
            number_member(doc, "T"),
            bool_member(doc, "m"),
        ),
    }
}

/// The canonical symbol of a Binance symbol.
pub fn normalize_symbol(symbol: &str) -> (r: String)
    ensures
        r@ == normalize_symbol_spec(symbol@),
{
    if text_eq(symbol, "BTCUSDT") {
        "BTC/USDT".to_owned()
    } else {
        String::new()
    }
}

impl BinanceTrade {
    /// The canonical trade of this trade, received at `recv_ts_ms`.
    pub fn to_trade(&self, recv_ts_ms: u64) -> (t: Trade)
        ensures
            t@ == binance_canonical(self@, recv_ts_ms),
    {
        Trade {
            exchange: Exchange::Binance,
            symbol: normalize_symbol(self.symbol.as_str()),
            price: self.price.clone(),
            quantity: self.quantity.clone(),
            side: if self.maker { Side::Sell } else { Side::Buy },
            exchange_ts_ms: self.timestamp,
            recv_ts_ms,
        }
    }

    /// The canonical trade of this trade, received now by the system clock.
    pub fn into_trade(self) -> (t: Trade)
        ensures
            t@ == binance_canonical(self@, t.recv_ts_ms),
    {
        let now = now_millis();
        self.to_trade(now)
    }
}

/// The URL of the BTC/USDT trade stream under the service at `base`.
pub fn stream_url(base: &str) -> (url: String)
    ensures
        url@ == base@ + "/ws/btcusdt@trade"@,
{
    let mut url = base.to_owned();
    url.append("/ws/btcusdt@trade");
    url
}

/// One step of a Binance session: a text frame must hold a trade, which is
/// published, else the session fails; close frames and the end of the stream
/// end it cleanly; pings, pongs and other frames are read past; transport
/// errors and silence beyond the liveness timeout fail it.
pub fn on_event(event: WsEvent) -> (step: SessionStep)
    ensures
        match event {
            WsEvent::Text { text: _, document } => match document {
                Some(doc) => match binance_trade_of(doc) {
                    Some(b) => step matches SessionStep::Publish(trades) && trades@.len() == 1
                        && trades@[0]@ == binance_canonical(b, trades@[0].recv_ts_ms),
                    None => step == SessionStep::Failed(SessionError::MalformedMessage),
                },
                None => step == SessionStep::Failed(SessionError::MalformedMessage),
            },
            WsEvent::Ping | WsEvent::Pong | WsEvent::OtherFrame => step == SessionStep::Continue,
            WsEvent::Close | WsEvent::StreamEnded => step == SessionStep::EndedCleanly,
            WsEvent::TransportError => step == SessionStep::Failed(SessionError::Transport),
            WsEvent::LivenessTimeout => step == SessionStep::Failed(SessionError::LivenessTimeout),
        },
{
    match event {
        WsEvent::Text { text: _, document } => match document {
            Some(doc) => match decode_binance_trade(&doc) {
                Some(b) => {
                    let mut trades: Vec<Trade> = Vec::new();
                    trades.push(b.into_trade());
                    SessionStep::Publish(trades)
                },
                None => SessionStep::Failed(SessionError::MalformedMessage),
            },
            None => SessionStep::Failed(SessionError::MalformedMessage),
        },
        WsEvent::Ping | WsEvent::Pong | WsEvent::OtherFrame => SessionStep::Continue,
        WsEvent::Close | WsEvent::StreamEnded => SessionStep::EndedCleanly,
        WsEvent::TransportError => SessionStep::Failed(SessionError::Transport),
        WsEvent::LivenessTimeout => SessionStep::Failed(SessionError::LivenessTimeout),
    }
}

} // verus!
