//! Kraken v2 trade channel.
//!
//! Kraken sends an application heartbeat about every second on an idle
//! connection; the connector treats the session as dead after
//! [`KRAKEN_LIVENESS_TIMEOUT_MS`] without any frame (15 times that interval).
use vstd::prelude::*;
use crate::json::{
    Json, as_text, as_number_text, text_of, member_of, str_field, bool_field, number_field, member,
    text_value, number_value, str_member, number_member, bool_member,
};
use crate::session::{WsEvent, SessionError, SessionStep};
use crate::text::text_eq;
use crate::types::{Exchange, Side, Trade, TradeView, now_millis};

verus! {

/// The URL of Kraken's v2 market data websocket service.
pub const KRAKEN_MARKET_DATA_WS_URL: &'static str = "wss://ws.kraken.com/v2";

/// Milliseconds without any frame after which a Kraken session is dead.
pub const KRAKEN_LIVENESS_TIMEOUT_MS: u64 = 15_000;

/// What `chrono::DateTime::parse_from_rfc3339` followed by `timestamp_millis`
/// gives for `text`: the instant in milliseconds since the Unix epoch, or
/// `None` where `text` is no RFC 3339 date-time.
pub uninterp spec fn rfc3339_epoch_millis(text: Seq<char>) -> Option<i64>;

/// Parses `text` with `chrono::DateTime::parse_from_rfc3339` and reads the
/// instant with `DateTime::timestamp_millis`; the result is named, not
/// described: it depends on `text` alone.
#[verifier::external_body]
fn parse_rfc3339_millis(text: &str) -> (r: Option<i64>)
    ensures
        r == rfc3339_epoch_millis(text@),
{
    match chrono::DateTime::parse_from_rfc3339(text) {
        Ok(dt) => Some(dt.timestamp_millis()),
        Err(_) => None,
    }
}

/// One trade of Kraken's trade channel, with the fields the normalizer reads.
#[derive(Debug)]
pub struct KrakenTrade {
    pub symbol: String,
    /// `buy` or `sell`.
    pub side: String,
    /// The decimal text of the price.
    pub price: String,
    /// The decimal text of the quantity.
    pub qty: String,
    /// An RFC 3339 date-time.
    pub timestamp: String,
}

/// The mathematical content of a [`KrakenTrade`].
pub struct KrakenTradeView {
    pub symbol: Seq<char>,
    pub side: Seq<char>,
    pub price: Seq<char>,
    pub qty: Seq<char>,
    pub timestamp: Seq<char>,
}

impl View for KrakenTrade {
    type V = KrakenTradeView;

    open spec fn view(&self) -> KrakenTradeView {
        KrakenTradeView {
            symbol: self.symbol@,
            side: self.side@,
            price: self.price@,
            qty: self.qty@,
            timestamp: self.timestamp@,
        }
    }
}

/// A message of Kraken's v2 channels, told apart by its `channel` member.
#[derive(Debug)]
pub enum KrakenMessage {
    Trade { data: Vec<KrakenTrade> },
    Heartbeat,
    Other,
}

/// The mathematical content of a [`KrakenMessage`].
pub enum KrakenMessageView {
    Trade(Seq<KrakenTradeView>),
    Heartbeat,
    Other,
}

/// The views of a sequence of trades.
pub open spec fn trades_view(trades: Seq<KrakenTrade>) -> Seq<KrakenTradeView> {
    trades.map_values(|t: KrakenTrade| t@)
}

impl View for KrakenMessage {
    type V = KrakenMessageView;

    open spec fn view(&self) -> KrakenMessageView {
        match self {
            KrakenMessage::Trade { data } => KrakenMessageView::Trade(trades_view(data@)),
            KrakenMessage::Heartbeat => KrakenMessageView::Heartbeat,
            KrakenMessage::Other => KrakenMessageView::Other,
        }
    }
}

/// A text frame of a Kraken session, sorted.
#[derive(Debug)]
pub enum DispatchedMessage {
    KrakenChannel(KrakenMessage),
    /// The answer to the subscription request, with the whole text for the
    /// error report.
    SubscriptionAck { success: bool, text: String },
    /// A JSON document that is neither an answer to the subscription nor a
    /// channel message.
    Unknown(Json),
}

/// The mathematical content of a [`DispatchedMessage`].
pub enum DispatchedView {
    Channel(KrakenMessageView),
    Ack { success: bool, text: Seq<char> },
    Unknown(Json),
}

impl View for DispatchedMessage {
    type V = DispatchedView;

    open spec fn view(&self) -> DispatchedView {
        match self {
            DispatchedMessage::KrakenChannel(m) => DispatchedView::Channel(m@),
            DispatchedMessage::SubscriptionAck { success, text } => DispatchedView::Ack {
                success: *success,
                text: text@,
            },
            DispatchedMessage::Unknown(doc) => DispatchedView::Unknown(*doc),
        }
    }
}

/// A text frame that is not valid JSON.
#[derive(Debug)]
pub enum MessageError {
    InvalidJson,
}

/// The trade made of these field values, where each is present.
pub open spec fn kraken_fields(
    symbol: Option<Seq<char>>,
    side: Option<Seq<char>>,
    price: Option<Seq<char>>,
    qty: Option<Seq<char>>,
    timestamp: Option<Seq<char>>,
) -> Option<KrakenTradeView> {
    match (symbol, side, price, qty, timestamp) {
        (Some(symbol), Some(side), Some(price), Some(qty), Some(timestamp)) => Some(
            KrakenTradeView { symbol, side, price, qty, timestamp },
        ),
        _ => None,
    }
}

/// The trade that `item` carries: an object whose members `symbol`, `side`
/// and `timestamp` are strings and `price`, `qty` numbers (other members are
/// ignored), or an array of exactly these five values in this order.
pub open spec fn kraken_trade_of(item: Json) -> Option<KrakenTradeView> {
    match item {
        Json::Array(values) => if values@.len() == 5 {
            kraken_fields(
                as_text(values@[0]),
                as_text(values@[1]),
                as_number_text(values@[2]),
                as_number_text(values@[3]),
                as_text(values@[4]),
            )
        } else {
            None
        },
        _ => kraken_fields(
            str_field(item, "symbol"@),
            str_field(item, "side"@),
            number_field(item, "price"@),
            number_field(item, "qty"@),
            str_field(item, "timestamp"@),
        ),
    }
}

/// The trades that `items` carry, in order, where every item is a trade.
pub open spec fn kraken_trades_of(items: Seq<Json>) -> Option<Seq<KrakenTradeView>>
    decreases items.len(),
{
    if items.len() == 0 {
        Some(Seq::empty())
    } else {
        match (kraken_trades_of(items.drop_last()), kraken_trade_of(items.last())) {
            (Some(front), Some(last)) => Some(front.push(last)),
            _ => None,
        }
    }
}

/// The trade message whose `data` is `data`: an array of trades.
pub open spec fn trade_message_of(data: Option<Json>) -> Option<KrakenMessageView> {
    match data {
        Some(Json::Array(items)) => match kraken_trades_of(items@) {
            Some(trades) => Some(KrakenMessageView::Trade(trades)),
            None => None,
        },
        _ => None,
    }
}

/// The channel message that `doc` carries, told apart by its channel name.
///
/// In an object the channel is the string member `channel`; `trade` requires
/// a member `data` that is an array of trades, `heartbeat` is a heartbeat,
/// and any other channel is another message; other members are ignored.
/// In an array the channel is the first element, a string; `trade` must be
/// followed by exactly one element, the array of trades, and any other
/// channel by none.
pub open spec fn kraken_message_of(doc: Json) -> Option<KrakenMessageView> {
    match doc {
        Json::Array(values) => if values@.len() >= 1 {
            match values@[0] {
                Json::Str(channel) => if channel@ == "trade"@ {
                    if values@.len() == 2 {
                        trade_message_of(Some(values@[1]))
                    } else {
                        None
                    }
                } else if values@.len() == 1 {
                    if channel@ == "heartbeat"@ {
                        Some(KrakenMessageView::Heartbeat)
                    } else {
                        Some(KrakenMessageView::Other)
                    }
                } else {
                    None
                },
                _ => None,
            }
        } else {
            None
        },
        _ => match member_of(doc, "channel"@) {
            Some(Json::Str(channel)) => if channel@ == "trade"@ {
                trade_message_of(member_of(doc, "data"@))
            } else if channel@ == "heartbeat"@ {
                Some(KrakenMessageView::Heartbeat)
            } else {
                Some(KrakenMessageView::Other)
            },
            _ => None,
        },
    }
}

/// A channel message in object form is read from its `channel` and `data`
/// members alone: snapshots and updates of the trade channel (which differ
/// in their `type` member) give the same message.
pub proof fn law_message_reads_only_channel_and_data(a: Json, b: Json)
    requires
        a is Object,
        b is Object,
        member_of(a, "channel"@) == member_of(b, "channel"@),
        member_of(a, "data"@) == member_of(b, "data"@),
    ensures
        kraken_message_of(a) == kraken_message_of(b),
{
}

/// How a text frame with text `text` and JSON document `document` is sorted:
/// a document whose `method` member is the string `subscribe` is the answer
/// to the subscription, successful where its `success` member is `true`;
/// otherwise a channel message where the document is one; otherwise unknown.
/// `None` where the text is not valid JSON.
pub open spec fn dispatched_of(text: Seq<char>, document: Option<Json>) -> Option<DispatchedView> {
    match document {
        None => None,
        Some(doc) => if str_field(doc, "method"@) == Some("subscribe"@) {
            Some(DispatchedView::Ack { success: bool_field(doc, "success"@) == Some(true), text })
        } else {
            match kraken_message_of(doc) {
                Some(m) => Some(DispatchedView::Channel(m)),
                None => Some(DispatchedView::Unknown(doc)),
            }
        },
    }
}

/// The answer to the subscription succeeds exactly when its top-level
/// `success` member is the boolean `true`, and it carries the frame's text.
pub proof fn law_ack_success_is_top_level_success(text: Seq<char>, doc: Json)
    requires
        str_field(doc, "method"@) == Some("subscribe"@),
    ensures
        dispatched_of(text, Some(doc)) matches Some(DispatchedView::Ack { success, text: t })
            && t == text && (success <==> member_of(doc, "success"@) == Some(Json::Bool(true))),
{
}

/// Whether an answer to the subscription succeeds depends on its `method` and
/// `success` members alone: adding or changing any other member (such as
/// `result`) leaves the answer as it was.
pub proof fn law_ack_reads_only_method_and_success(text: Seq<char>, a: Json, b: Json)
    requires
        str_field(a, "method"@) == Some("subscribe"@),
        member_of(a, "method"@) == member_of(b, "method"@),
        member_of(a, "success"@) == member_of(b, "success"@),
    ensures
        dispatched_of(text, Some(a)) == dispatched_of(text, Some(b)),
{
}

/// A trade that is not a trade leaves every longer sequence of items
/// undecodable.
proof fn lemma_trades_prefix_fails(items: Seq<Json>, k: int)
    requires
        0 <= k <= items.len(),
        kraken_trades_of(items.take(k)) is None,
    ensures
        kraken_trades_of(items) is None,
    decreases items.len(),
{
    if k < items.len() {
        assert(items.drop_last().take(k) =~= items.take(k));
        lemma_trades_prefix_fails(items.drop_last(), k);
    } else {
        assert(items.take(k) =~= items);
    }
}

/// The trade made of these field values.
fn kraken_from_fields(
    symbol: Option<String>,
    side: Option<String>,
    price: Option<String>,
    qty: Option<String>,
    timestamp: Option<String>,
) -> (r: Option<KrakenTrade>)
    ensures
        match r {
            Some(t) => kraken_fields(
                text_of(symbol),
                text_of(side),
                text_of(price),
                text_of(qty),
                text_of(timestamp),
            ) == Some(t@),
            None => kraken_fields(
                text_of(symbol),
                text_of(side),
                text_of(price),
                text_of(qty),
                text_of(timestamp),
            ) is None,
        },
{
    match (symbol, side, price, qty, timestamp) {
        (Some(symbol), Some(side), Some(price), Some(qty), Some(timestamp)) => Some(
            KrakenTrade { symbol, side, price, qty, timestamp },
        ),
        _ => None,
    }
}

/// Reads the trade in `item`; `None` where `item` is not one.
pub fn decode_kraken_trade(item: &Json) -> (r: Option<KrakenTrade>)
    ensures
        match r {
            Some(t) => kraken_trade_of(*item) == Some(t@),
            None => kraken_trade_of(*item) is None,
        },
{
    match item {
        Json::Array(values) => {
            if values.len() == 5 {
                kraken_from_fields(
                    text_value(&values[0]),
                    text_value(&values[1]),
                    number_value(&values[2]),
                    number_value(&values[3]),
                    text_value(&values[4]),
                )
            } else {
                None
            }
        },
        _ => kraken_from_fields(
            str_member(item, "symbol"),
            str_member(item, "side"),
            number_member(item, "price"),
            number_member(item, "qty"),
            str_member(item, "timestamp"),
        ),
    }
}

/// Reads the trades in `items`, in order; `None` where one item is no trade.
pub fn decode_kraken_trades(items: &Vec<Json>) -> (r: Option<Vec<KrakenTrade>>)
    ensures
        match r {
            Some(ts) => kraken_trades_of(items@) == Some(trades_view(ts@)),
            None => kraken_trades_of(items@) is None,
        },
{
    let mut out: Vec<KrakenTrade> = Vec::new();
    let n = items.len();
    for i in 0..n
        invariant
            n == items@.len(),
            kraken_trades_of(items@.take(i as int)) == Some(trades_view(out@)),
    {
        assert(items@.take(i + 1).drop_last() =~= items@.take(i as int));
        assert(items@.take(i + 1).last() == items@[i as int]);
        match decode_kraken_trade(&items[i]) {
            Some(t) => {
                let ghost before = out@;
                out.push(t);
                assert(out@.drop_last() =~= before);
                assert(trades_view(out@) =~= trades_view(before).push(t@));
            },
            None => {
                proof {
                    lemma_trades_prefix_fails(items@, i + 1);
                }
                return None;
            },
        }
    }
    assert(items@.take(n as int) =~= items@);
    Some(out)
}

/// Reads the trade message whose `data` is `data`.
fn decode_trade_message(data: &Json) -> (r: Option<KrakenMessage>)
    ensures
        match r {
            Some(m) => trade_message_of(Some(*data)) == Some(m@),
            None => trade_message_of(Some(*data)) is None,
        },
{
    match data {
        Json::Array(items) => match decode_kraken_trades(items) {
            Some(trades) => Some(KrakenMessage::Trade { data: trades }),
            None => None,
        },
        _ => None,
    }
}

/// Reads the channel message in `doc`; `None` where `doc` is not one.
pub fn decode_kraken_message(doc: &Json) -> (r: Option<KrakenMessage>)
    ensures
        match r {
            Some(m) => kraken_message_of(*doc) == Some(m@),
            None => kraken_message_of(*doc) is None,
        },
{
    match doc {
        Json::Array(values) => {
            if values.len() >= 1 {
                match &values[0] {
                    Json::Str(channel) => {
                        if text_eq(channel.as_str(), "trade") {
                            if values.len() == 2 {
                                decode_trade_message(&values[1])
                            } else {
                                None
                            }
                        } else if values.len() == 1 {
                            if text_eq(channel.as_str(), "heartbeat") {
                                Some(KrakenMessage::Heartbeat)
                            } else {
                                Some(KrakenMessage::Other)
                            }
                        } else {
                            None
                        }
                    },
                    _ => None,
                }
            } else {
                None
            }
        },
        _ => match member(doc, "channel") {
            Some(Json::Str(channel)) => {
                if text_eq(channel.as_str(), "trade") {
                    match member(doc, "data") {
                        Some(data) => decode_trade_message(data),
                        None => None,
                    }
                } else if text_eq(channel.as_str(), "heartbeat") {
                    Some(KrakenMessage::Heartbeat)
                } else {
                    Some(KrakenMessage::Other)
                }
            },
            _ => None,
        },
    }
}

/// Sorts a text frame with text `text` whose JSON document is `document`
/// (`None` where the text is not valid JSON, which is an error).
pub fn parse_message(text: &str, document: Option<Json>) -> (r: Result<
    DispatchedMessage,
    MessageError,
>)
    ensures
        match dispatched_of(text@, document) {
            None => r is Err,
            Some(d) => r matches Ok(m) && m@ == d,
        },
{
    match document {
        None => Err(MessageError::InvalidJson),
        Some(doc) => {
            let is_ack = match str_member(&doc, "method") {
                Some(method) => text_eq(method.as_str(), "subscribe"),
                None => false,
            };
            if is_ack {
                let success = match bool_member(&doc, "success") {
                    Some(b) => b,
                    None => false,
                };
                Ok(DispatchedMessage::SubscriptionAck { success, text: text.to_owned() })
            } else {
                match decode_kraken_message(&doc) {
                    Some(m) => Ok(DispatchedMessage::KrakenChannel(m)),
                    None => Ok(DispatchedMessage::Unknown(doc)),
                }
            }
        },
    }
}

/// Kraken names the taker side: `buy` is a buy, anything else a sell.
pub open spec fn kraken_side(side: Seq<char>) -> Side {
    if side == "buy"@ {
        Side::Buy
    } else {
        Side::Sell
    }
}

/// The exchange time of a trade from the parsed instant of its timestamp:
/// the milliseconds reinterpreted as unsigned 64 bits, or 0 where the
/// timestamp did not parse.
pub open spec fn exchange_ts_of(parsed: Option<i64>) -> u64 {
    match parsed {
        Some(ms) => ms as u64,
        None => 0,
    }
}

/// The canonical trade of a Kraken trade received at `recv_ts_ms`.
pub open spec fn kraken_canonical(t: KrakenTradeView, recv_ts_ms: u64) -> TradeView {
    TradeView {
        exchange: Exchange::Kraken,
        symbol: t.symbol,
        price: t.price,
        quantity: t.qty,
        side: kraken_side(t.side),
        exchange_ts_ms: exchange_ts_of(rfc3339_epoch_millis(t.timestamp)),
        recv_ts_ms: recv_ts_ms,
    }
}

/// The exchange time of a trade from the parsed instant of its timestamp.
pub fn exchange_ts_ms(parsed: Option<i64>) -> (ms: u64)
    ensures
        ms == exchange_ts_of(parsed),
{
    match parsed {
        Some(ms) => ms as u64,
        None => 0,
    }
}

impl KrakenTrade {
    /// The canonical trade of this trade, received at `recv_ts_ms`.
    pub fn to_trade(&self, recv_ts_ms: u64) -> (t: Trade)
        ensures
            t@ == kraken_canonical(self@, recv_ts_ms),
    {
        let side = if text_eq(self.side.as_str(), "buy") {
            Side::Buy
        } else {
            Side::Sell
        };
        let parsed = parse_rfc3339_millis(self.timestamp.as_str());
        Trade {
            exchange: Exchange::Kraken,
            symbol: self.symbol.clone(),
            price: self.price.clone(),
            quantity: self.qty.clone(),
            side,
            exchange_ts_ms: exchange_ts_ms(parsed),
            recv_ts_ms,
        }
    }

    /// The canonical trade of this trade, received now by the system clock.
    pub fn into_trade(self) -> (t: Trade)
        ensures
            t@ == kraken_canonical(self@, t.recv_ts_ms),
    {
        let now = now_millis();
        self.to_trade(now)
    }
}

/// The canonical trades of `data`, in order, each stamped with the system
/// clock when it is converted.
pub fn canonical_trades(data: &Vec<KrakenTrade>) -> (trades: Vec<Trade>)
    ensures
        trades@.len() == data@.len(),
        forall|i: int|
            0 <= i < data@.len() ==> #[trigger] trades@[i]@ == kraken_canonical(
                data@[i]@,
                trades@[i].recv_ts_ms,
            ),
{
    let mut trades: Vec<Trade> = Vec::new();
    let n = data.len();
    for i in 0..n
        invariant
            n == data@.len(),
            trades@.len() == i,
            forall|j: int|
                0 <= j < i ==> #[trigger] trades@[j]@ == kraken_canonical(
                    data@[j]@,
                    trades@[j].recv_ts_ms,
                ),
    {
        let now = now_millis();
        trades.push(data[i].to_trade(now));
    }
    trades
}

/// The request that subscribes to the BTC/USD trade channel.
pub fn subscribe_request() -> (request: String)
    ensures
        request@ == "{\"method\":\"subscribe\",\"params\":{\"channel\":\"trade\",\"symbol\":[\"BTC/USD\"]}}"@,
{
    "{\"method\":\"subscribe\",\"params\":{\"channel\":\"trade\",\"symbol\":[\"BTC/USD\"]}}".to_owned()
}

/// How a text frame with text `text` and JSON document `document` moves a
/// session from `before` to `after` and what the read loop does next.
pub open spec fn message_outcome(
    before: KrakenSession,
    after: KrakenSession,
    text: Seq<char>,
    document: Option<Json>,
    step: SessionStep,
) -> bool {
    match dispatched_of(text, document) {
        None => step == SessionStep::Failed(SessionError::MalformedMessage) && after == before,
        Some(DispatchedView::Ack { success, text: answer }) => if success {
            step == SessionStep::Subscribed && after.subscribed && after.last_heartbeat_ms
                == before.last_heartbeat_ms
        } else {
            step matches SessionStep::Failed(SessionError::SubscriptionRejected(r)) && r@ == answer
                && after == before
        },
        Some(DispatchedView::Channel(KrakenMessageView::Trade(ts))) => step matches SessionStep::Publish(trades)
            && trades@.len() == ts.len() && (forall|i: int|
            0 <= i < ts.len() ==> #[trigger] trades@[i]@ == kraken_canonical(
                ts[i],
                trades@[i].recv_ts_ms,
            )) && after == before,
        Some(DispatchedView::Channel(KrakenMessageView::Heartbeat)) => step == SessionStep::Continue
            && after.subscribed == before.subscribed,
        Some(DispatchedView::Channel(KrakenMessageView::Other)) => step == SessionStep::Continue
            && after == before,
        Some(DispatchedView::Unknown(_)) => step == SessionStep::Continue && after == before,
    }
}

/// A trade-channel message is published whether or not the session is
/// subscribed: the step hands on one canonical trade per trade of the data,
/// in order (exchange Kraken, the trade's symbol, price and quantity text,
/// side Buy exactly for `buy`), and the session is left as it was.
pub proof fn law_trades_published_whatever_subscribed(
    before: KrakenSession,
    after: KrakenSession,
    text: Seq<char>,
    document: Option<Json>,
    step: SessionStep,
    ts: Seq<KrakenTradeView>,
)
    requires
        dispatched_of(text, document) == Some(
            DispatchedView::Channel(KrakenMessageView::Trade(ts)),
        ),
        message_outcome(before, after, text, document, step),
    ensures
        after == before,
        step matches SessionStep::Publish(trades) && trades@.len() == ts.len() && forall|i: int|
            0 <= i < ts.len() ==> {
                let t = #[trigger] trades@[i];
                &&& t.exchange == Exchange::Kraken
                &&& t.symbol@ == ts[i].symbol
                &&& t.price@ == ts[i].price
                &&& t.quantity@ == ts[i].qty
                &&& (t.side == Side::Buy <==> ts[i].side == "buy"@)
            },
{
    if let SessionStep::Publish(trades) = step {
        assert forall|i: int| 0 <= i < ts.len() implies {
            let t = #[trigger] trades@[i];
            &&& t.exchange == Exchange::Kraken
            &&& t.symbol@ == ts[i].symbol
            &&& t.price@ == ts[i].price
            &&& t.quantity@ == ts[i].qty
            &&& (t.side == Side::Buy <==> ts[i].side == "buy"@)
        } by {
            assert(trades@[i]@ == kraken_canonical(ts[i], trades@[i].recv_ts_ms));
        }
    }
}

/// The state of one Kraken session: whether the exchange confirmed the
/// subscription, and when the last heartbeat arrived (ms since the epoch,
/// 0 before the first).
#[derive(Debug)]
pub struct KrakenSession {
    pub subscribed: bool,
    pub last_heartbeat_ms: u64,
}

impl KrakenSession {
    /// A session that has just connected.
    pub fn new() -> (s: Self)
        ensures
            !s.subscribed,
            s.last_heartbeat_ms == 0,
    {
        KrakenSession { subscribed: false, last_heartbeat_ms: 0 }
    }

    /// Records a heartbeat that arrived when the clock read `now_ms`.
    pub fn on_heartbeat(&mut self, now_ms: u64)
        ensures
            final(self).last_heartbeat_ms == now_ms,
            final(self).subscribed == old(self).subscribed,
    {
        self.last_heartbeat_ms = now_ms;
    }

    /// Handles a text frame: a successful answer to the subscription marks
    /// the session subscribed, a refusal fails it with the answer's text;
    /// trades are published (also before the answer); a heartbeat records the
    /// time; anything else is read past. Text that is not JSON fails the
    /// session.
    pub fn handle_message(&mut self, text: &str, document: Option<Json>) -> (step: SessionStep)
        ensures
            old(self).subscribed ==> final(self).subscribed,
            message_outcome(*old(self), *final(self), text@, document, step),
    {
        match parse_message(text, document) {
            Err(_) => SessionStep::Failed(SessionError::MalformedMessage),
            Ok(DispatchedMessage::SubscriptionAck { success, text }) => {
                if success {
                    self.subscribed = true;
                    SessionStep::Subscribed
                } else {
                    SessionStep::Failed(SessionError::SubscriptionRejected(text))
                }
            },
            Ok(DispatchedMessage::KrakenChannel(KrakenMessage::Trade { data })) => {
                let trades = canonical_trades(&data);
                SessionStep::Publish(trades)
            },
            Ok(DispatchedMessage::KrakenChannel(KrakenMessage::Heartbeat)) => {
                let now = now_millis();
                self.on_heartbeat(now);
                SessionStep::Continue
            },
            Ok(DispatchedMessage::KrakenChannel(KrakenMessage::Other)) => SessionStep::Continue,
            Ok(DispatchedMessage::Unknown(_)) => SessionStep::Continue,
        }
    }

    /// One step of a Kraken session: text frames are handled as messages;
    /// pings, pongs, close frames and other frames are read past; the end of
    /// the stream ends the session cleanly; transport errors and silence
    /// beyond the liveness timeout fail it.
    pub fn on_event(&mut self, event: WsEvent) -> (step: SessionStep)
        ensures
            old(self).subscribed ==> final(self).subscribed,
            match event {
                WsEvent::Text { text, document } => message_outcome(
                    *old(self),
                    *final(self),
                    text@,
                    document,
                    step,
                ),
                WsEvent::Ping | WsEvent::Pong | WsEvent::Close | WsEvent::OtherFrame => step
                    == SessionStep::Continue && *final(self) == *old(self),
                WsEvent::StreamEnded => step == SessionStep::EndedCleanly && *final(self)
                    == *old(self),
                WsEvent::TransportError => step == SessionStep::Failed(SessionError::Transport)
                    && *final(self) == *old(self),
                WsEvent::LivenessTimeout => step == SessionStep::Failed(
                    SessionError::LivenessTimeout,
                ) && *final(self) == *old(self),
            },
    {
        match event {
            WsEvent::Text { text, document } => self.handle_message(text.as_str(), document),
            WsEvent::Ping | WsEvent::Pong | WsEvent::Close | WsEvent::OtherFrame => {
                SessionStep::Continue
            },
            WsEvent::StreamEnded => SessionStep::EndedCleanly,
            WsEvent::TransportError => SessionStep::Failed(SessionError::Transport),
            WsEvent::LivenessTimeout => SessionStep::Failed(SessionError::LivenessTimeout),
        }
    }
}

} // verus!
