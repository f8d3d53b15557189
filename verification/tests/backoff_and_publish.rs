use exchange_data_normalizer::backoff::{
    backoff_initial, max_jitter, next_backoff, next_backoff_with_jitter, ReconnectPolicy,
    INITIAL_BACKOFF_MS, MAX_BACKOFF_MS,
};
use exchange_data_normalizer::publish::{publish, Delivery, Offer};
use exchange_data_normalizer::types::{epoch_millis, now_millis, Exchange, Side, Trade};

fn trade(n: u64) -> Trade {
    Trade {
        exchange: Exchange::Kraken,
        symbol: "BTC/USD".to_string(),
        price: "1".to_string(),
        quantity: "1".to_string(),
        side: Side::Buy,
        exchange_ts_ms: n,
        recv_ts_ms: n,
    }
}

#[test]
fn backoff_starts_at_half_a_second() {
    assert_eq!(backoff_initial(), 500);
    assert_eq!(INITIAL_BACKOFF_MS, 500);
    assert_eq!(MAX_BACKOFF_MS, 30_000);
}

#[test]
fn backoff_doubles_then_caps() {
    assert_eq!(next_backoff_with_jitter(500, 0), 1000);
    assert_eq!(next_backoff_with_jitter(1000, 100), 2100);
    assert_eq!(next_backoff_with_jitter(15_000, 0), 30_000);
    assert_eq!(next_backoff_with_jitter(20_000, 0), 30_000);
    assert_eq!(next_backoff_with_jitter(30_000, 7_500), 30_000);
    assert_eq!(next_backoff_with_jitter(14_000, 1_000), 29_000);
    assert_eq!(next_backoff_with_jitter(14_000, 7_000), 30_000);
    assert_eq!(next_backoff_with_jitter(u64::MAX, u64::MAX), 30_000);
    assert_eq!(max_jitter(500), 250);
    assert_eq!(max_jitter(20_000), 7_500);
    assert_eq!(max_jitter(u64::MAX), 7_500);
}

#[test]
fn backoff_jitter_stays_within_a_quarter() {
    let mut seen = std::collections::BTreeSet::new();
    for _ in 0..200 {
        let next = next_backoff(500);
        assert!((1000..=1250).contains(&next), "{}", next);
        seen.insert(next);
        let capped = next_backoff(30_000);
        assert_eq!(capped, 30_000);
        let near_cap = next_backoff(13_000);
        assert!((26_000..=30_000).contains(&near_cap), "{}", near_cap);
    }
    assert!(seen.len() > 1);
}

#[test]
fn reconnect_policy_sleeps_grows_and_resets() {
    let mut p = ReconnectPolicy::new();
    assert_eq!(p.pending_delay_ms(), 500);
    assert_eq!(p.on_session_ended(), 500);
    let second = p.pending_delay_ms();
    assert!((1000..=1250).contains(&second));
    assert_eq!(p.on_session_ended(), second);
    for _ in 0..20 {
        let slept = p.on_session_ended();
        assert!((INITIAL_BACKOFF_MS..=MAX_BACKOFF_MS).contains(&slept));
    }
    assert_eq!(p.pending_delay_ms(), MAX_BACKOFF_MS);
    p.on_session_started();
    assert_eq!(p.pending_delay_ms(), 500);
    assert_eq!(p.on_session_ended(), 500);
}

#[test]
fn now_millis_reads_the_clock() {
    let a = now_millis();
    assert!(a > 1_600_000_000_000);
    let b = now_millis();
    assert!(b >= a);
}

#[test]
fn publish_drops_newest_when_full() {
    let (tx, mut rx) = tokio::sync::mpsc::channel::<Trade>(2);
    let d = publish(&tx, vec![trade(1), trade(2), trade(3)]);
    assert_eq!(d, Delivery { accepted: 2, dropped_full: 1, dropped_closed: 0 });
    assert_eq!(rx.try_recv().unwrap().exchange_ts_ms, 1);
    assert_eq!(rx.try_recv().unwrap().exchange_ts_ms, 2);
    assert!(rx.try_recv().is_err());
}

#[test]
fn publish_counts_closed_channel() {
    let (tx, rx) = tokio::sync::mpsc::channel::<Trade>(10);
    drop(rx);
    let d = publish(&tx, vec![trade(1), trade(2)]);
    assert_eq!(d, Delivery { accepted: 0, dropped_full: 0, dropped_closed: 2 });
}

#[test]
fn delivery_record_tallies_each_outcome() {
    let d = Delivery { accepted: 0, dropped_full: 0, dropped_closed: 0 };
    let d = d.record(Offer::Accepted).record(Offer::Full).record(Offer::Closed).record(Offer::Accepted);
    assert_eq!(d, Delivery { accepted: 2, dropped_full: 1, dropped_closed: 1 });
}

#[test]
fn epoch_millis_truncates_and_defaults() {
    assert_eq!(epoch_millis(Some(1_704_110_400_000)), 1_704_110_400_000);
    assert_eq!(epoch_millis(None), 0);
    assert_eq!(epoch_millis(Some((1u128 << 64) + 7)), 7);
}
