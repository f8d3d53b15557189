use exchange_data_normalizer::binance::{
    decode_binance_trade, normalize_symbol, on_event, stream_url, BinanceTrade, BINANCE_SPOT_WS_URL,
};
use exchange_data_normalizer::json::{Json, Member};
use exchange_data_normalizer::session::{SessionError, SessionStep, WsEvent};
use exchange_data_normalizer::types::{Exchange, Side};
use serde_json::Value;

fn to_json(v: Value) -> Json {
    match v {
        Value::Null => Json::Null,
        Value::Bool(b) => Json::Bool(b),
        Value::Number(n) => Json::Number(n.to_string()),
        Value::String(s) => Json::Str(s),
        Value::Array(items) => Json::Array(items.into_iter().map(to_json).collect()),
        Value::Object(members) => Json::Object(
            members
                .into_iter()
                .map(|(key, value)| Member { key, value: to_json(value) })
                .collect(),
        ),
    }
}

fn doc(text: &str) -> Option<Json> {
    serde_json::from_str::<Value>(text).ok().map(to_json)
}

fn text_event(text: &str) -> WsEvent {
    WsEvent::Text { text: text.to_string(), document: doc(text) }
}

#[test]
fn parse_message_deserialization() {
    let text = r#"{
        "e": "trade",           
        "E": 1672515782136,     
        "s": "BTCUSDT",        
        "t": 12345,            
        "p": "0.001",          
        "q": "100",            
        "T": 1672515782136,     
        "m": true,              
        "M": true               
    }"#;

    let deserialized_t: BinanceTrade = decode_binance_trade(&doc(text).unwrap()).unwrap();
    assert_eq!(deserialized_t.symbol, "BTCUSDT");
    assert_eq!(deserialized_t.price, "0.001");
    assert_eq!(deserialized_t.quantity, "100");
    assert!(deserialized_t.maker);
}

#[test]
fn parse_message_trade_conversion() {
    let d_trade = BinanceTrade {
        symbol: "BTCUSDT".to_string(),
        price: "0.001".to_string(),
        quantity: "100".to_string(),
        timestamp: 1672515782136,
        maker: true,
    };
    let trade = d_trade.into_trade();
    assert_eq!(trade.symbol, "BTC/USDT");
    assert_eq!(trade.price.parse::<f64>().unwrap_or(0.0), 0.001);
    assert_eq!(trade.quantity.parse::<f64>().unwrap_or(0.0), 100_f64);
    assert_eq!(trade.side, Side::Sell);
}

#[test]
fn binance_timestamp_and_exchange_are_carried() {
    let b = BinanceTrade {
        symbol: "BTCUSDT".to_string(),
        price: "85000.1".to_string(),
        quantity: "0.001".to_string(),
        timestamp: 1672515782136,
        maker: true,
    };
    let trade = b.to_trade(42);
    assert_eq!(trade.exchange, Exchange::Binance);
    assert_eq!(trade.exchange_ts_ms, 1672515782136);
    assert_eq!(trade.recv_ts_ms, 42);
    assert_eq!(trade.price, "85000.1");
}

#[test]
fn binance_buyer_taker_is_buy() {
    let b = BinanceTrade {
        symbol: "BTCUSDT".to_string(),
        price: "1".to_string(),
        quantity: "2".to_string(),
        timestamp: 1,
        maker: false,
    };
    assert_eq!(b.to_trade(0).side, Side::Buy);
}

#[test]
fn binance_unknown_symbol_normalizes_to_empty() {
    assert_eq!(normalize_symbol("BTCUSDT"), "BTC/USDT");
    assert_eq!(normalize_symbol("ETHUSDT"), "");
    assert_eq!(normalize_symbol("btcusdt"), "");
}

#[test]
fn binance_missing_price_is_not_a_trade() {
    let text = r#"{"s": "BTCUSDT", "q": "100", "T": 1, "m": true}"#;
    assert!(decode_binance_trade(&doc(text).unwrap()).is_none());
}

#[test]
fn binance_price_must_be_text() {
    let text = r#"{"s": "BTCUSDT", "p": 0.5, "q": "100", "T": 1, "m": true}"#;
    assert!(decode_binance_trade(&doc(text).unwrap()).is_none());
}

#[test]
fn binance_trade_time_must_be_unsigned_integer() {
    for t in ["-1", "1.5", "\"1\"", "18446744073709551616"] {
        let text = format!(r#"{{"s": "BTCUSDT", "p": "1", "q": "1", "T": {}, "m": true}}"#, t);
        assert!(decode_binance_trade(&doc(&text).unwrap()).is_none(), "{}", t);
    }
    let text = r#"{"s": "BTCUSDT", "p": "1", "q": "1", "T": 18446744073709551615, "m": false}"#;
    assert_eq!(decode_binance_trade(&doc(text).unwrap()).unwrap().timestamp, u64::MAX);
}

#[test]
fn binance_text_frame_publishes_one_trade() {
    let text = r#"{"s": "BTCUSDT", "p": "85000.1", "q": "0.001", "T": 1, "m": false}"#;
    match on_event(text_event(text)) {
        SessionStep::Publish(trades) => {
            assert_eq!(trades.len(), 1);
            assert_eq!(trades[0].symbol, "BTC/USDT");
            assert_eq!(trades[0].price.parse::<f64>().unwrap(), 85000.1);
            assert_eq!(trades[0].side, Side::Buy);
            assert_eq!(trades[0].exchange_ts_ms, 1);
        }
        other => panic!("expected a trade, got {:?}", other),
    }
}

#[test]
fn binance_malformed_json_fails_session() {
    let step = on_event(text_event(r#"{"s": "BTCUSDT", "p": [malformed]}"#));
    assert!(matches!(step, SessionStep::Failed(SessionError::MalformedMessage)));
}

#[test]
fn binance_missing_field_fails_session() {
    let step = on_event(text_event(r#"{"s": "BTCUSDT", "q": "1", "T": 1, "m": true}"#));
    assert!(matches!(step, SessionStep::Failed(SessionError::MalformedMessage)));
}

#[test]
fn binance_control_frames() {
    assert!(matches!(on_event(WsEvent::Ping), SessionStep::Continue));
    assert!(matches!(on_event(WsEvent::Pong), SessionStep::Continue));
    assert!(matches!(on_event(WsEvent::OtherFrame), SessionStep::Continue));
    assert!(matches!(on_event(WsEvent::Close), SessionStep::EndedCleanly));
    assert!(matches!(on_event(WsEvent::StreamEnded), SessionStep::EndedCleanly));
    assert!(matches!(on_event(WsEvent::TransportError), SessionStep::Failed(SessionError::Transport)));
    assert!(matches!(
        on_event(WsEvent::LivenessTimeout),
        SessionStep::Failed(SessionError::LivenessTimeout)
    ));
}

#[test]
fn binance_stream_url_appends_trade_path() {
    assert_eq!(stream_url(BINANCE_SPOT_WS_URL), "wss://stream.binance.com:9443/ws/btcusdt@trade");
    assert_eq!(stream_url("ws://127.0.0.1:9000"), "ws://127.0.0.1:9000/ws/btcusdt@trade");
}

#[test]
fn binance_trade_in_array_form() {
    let text = r#"["BTCUSDT", "0.001", "100", 1672515782136, true]"#;
    let b = decode_binance_trade(&doc(text).unwrap()).unwrap();
    assert_eq!(b.symbol, "BTCUSDT");
    assert_eq!(b.timestamp, 1672515782136);
    assert!(b.maker);
    assert!(decode_binance_trade(&doc(r#"["BTCUSDT", "0.001", "100", 1]"#).unwrap()).is_none());
    assert!(decode_binance_trade(&doc(r#"["BTCUSDT", "0.001", "100", 1, true, 2]"#).unwrap()).is_none());
}
