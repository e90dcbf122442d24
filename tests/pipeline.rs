use candle_dash::candle::Candle;
use candle_dash::chart::{candlestick_series, time_label_stamps, volume_series, CandleBar};
use candle_dash::dashboard::{Action, Dashboard, Key, Message, Phase, SelectionState};
use candle_dash::generator::{next_candle, Draws, TickGenerator};
use candle_dash::market::{default_instruments, Currency, Instrument};
use candle_dash::window::{RollingWindow, WindowStore, CAPACITY};

fn candle(time: i64, open: i64, close: i64) -> Candle {
    let (hi, lo) = if open >= close { (open, close) } else { (close, open) };
    Candle { time, open, high: hi + 10, low: lo - 10, close, volume: 1_000_000 }
}

#[test]
fn generated_candles_keep_wicks_around_the_body() {
    let mut g = TickGenerator::new(default_instruments(), 1_700_000_000);
    for round in 0..50 {
        let out = g.tick();
        assert_eq!(out.len(), 4);
        for c in &out {
            assert_eq!(c.time, 1_700_000_000 + 60 * round);
            assert!(c.low <= c.open.min(c.close));
            assert!(c.high >= c.open.max(c.close));
        }
    }
    assert_eq!(g.time, 1_700_000_000 + 60 * 50);
}

#[test]
fn one_tick_from_the_seed_stays_within_volatility() {
    let mut g = TickGenerator::new(default_instruments(), 0);
    let out = g.tick();
    let c = out[0];
    assert_eq!(c.open, 1_038_790_000);
    assert!(c.high <= c.open.max(c.close) + 200_000);
    assert!(c.low >= c.open.min(c.close) - 200_000);
    assert!(c.volume >= 5_000_000 && c.volume <= 50_000_000);
    assert!(c.close >= 1_038_790_000 - 1_000_000 && c.close <= 1_038_790_000 + 1_000_000);
    assert!(c.high >= c.close && c.low <= c.close);
    assert_eq!(g.prices[0], c.close);
}

#[test]
fn next_candle_follows_the_draws() {
    let inst = Instrument {
        name: "X".to_string(),
        currency: Currency::Usd,
        seed: 1_000_000,
        volatility: 1_000,
        volume_scale: 5,
    };
    let d = Draws { movement: -300, upper_wick: 100, lower_wick: 50, base_volume: 2_000_000 };
    let c = next_candle(&inst, 1_000_000, 42, d);
    assert_eq!(c, Candle { time: 42, open: 1_000_000, high: 1_000_100, low: 999_650, close: 999_700, volume: 10_000_000 });
}

#[test]
fn default_instruments_are_the_four_pairs() {
    let m = default_instruments();
    let names: Vec<&str> = m.iter().map(|i| i.name.as_str()).collect();
    assert_eq!(names, vec!["USD/BTC", "USD/ETH", "IDR/BTC", "IDR/ETH"]);
    assert_eq!(m[2].seed, 17_299_980_000_000);
    assert_eq!(m[3].currency, Currency::Idr);
}

#[test]
fn window_length_is_bounded_by_capacity() {
    let mut w = RollingWindow::new();
    for k in 1..=75i64 {
        w.ingest(candle(k * 60, 100, 100 + k));
        assert_eq!(w.len() as i64, k.min(CAPACITY as i64));
        let oldest = if k <= 30 { 1 } else { k - 29 };
        assert_eq!(w.candles[0].time, oldest * 60);
        assert_eq!(w.candles[w.len() - 1].time, k * 60);
    }
}

#[test]
fn last_delta_tracks_the_previous_close() {
    let mut w = RollingWindow::new();
    w.ingest(candle(0, 100, 150));
    assert_eq!(w.last_delta, 0);
    assert_eq!(w.last_price, Some(150));
    w.ingest(candle(60, 150, 120));
    assert_eq!(w.last_delta, -30);
    w.ingest(candle(120, 120, 200));
    assert_eq!(w.last_delta, 80);
    assert_eq!(w.last_price, Some(200));
}

#[test]
fn store_ignores_unknown_instruments() {
    let mut s = WindowStore::new(2);
    s.ingest(5, candle(0, 1, 2));
    assert_eq!(s.windows[0].len() + s.windows[1].len(), 0);
    s.ingest(1, candle(0, 1, 2));
    assert_eq!(s.windows[1].len(), 1);
    assert_eq!(s.windows[0].len(), 0);
}

#[test]
fn selection_wraps_both_ways() {
    let mut s = SelectionState::new(4);
    s.select_previous();
    assert_eq!(s.selected, 3);
    s.select_next();
    assert_eq!(s.selected, 0);
    s.select_next();
    assert_eq!(s.selected, 1);
}

#[test]
fn quit_stops_ingestion() {
    let mut d = Dashboard::new(4);
    d.receive(Message::Tick(0, candle(0, 1, 2)));
    assert_eq!(d.store.windows[0].len(), 1);
    d.receive(Message::Tick(1, candle(0, 5, 7)));
    assert_eq!(d.store.windows[0].len(), 1);
    assert_eq!(d.store.windows[1].last_price, Some(7));
    assert_eq!(d.press(Key::Down), Action::Continue);
    assert_eq!(d.selection.selected, 1);
    assert_eq!(d.press(Key::Tab), Action::Continue);
    assert_eq!(d.press(Key::Quit), Action::StopProducer);
    assert_eq!(d.phase, Phase::Shutdown);
    assert!(!d.is_running());
    d.receive(Message::Tick(0, candle(60, 2, 3)));
    assert_eq!(d.store.windows[0].len(), 1);
    assert_eq!(d.store.windows[1].len(), 1);
    assert_eq!(d.press(Key::Up), Action::Continue);
    assert_eq!(d.selection.selected, 1);
}

#[test]
fn shutdown_message_ends_the_loop() {
    let mut d = Dashboard::new(2);
    d.receive(Message::Shutdown);
    assert_eq!(d.phase, Phase::Shutdown);
}

#[test]
fn empty_window_projects_to_nothing() {
    let v: Vec<Candle> = Vec::new();
    assert!(candlestick_series(&v).is_none());
    assert!(volume_series(&v).is_none());
    assert!(time_label_stamps(&v).is_empty());
}

#[test]
fn candlestick_bounds_are_padded_by_a_tenth() {
    let v = vec![candle(0, 1_000, 1_200), candle(60, 1_200, 900)];
    let ch = candlestick_series(&v).unwrap();
    // lows 990 and 890, highs 1210 and 1210: range 320, pad 32
    assert_eq!(ch.y_min, 890 - 32);
    assert_eq!(ch.y_max, 1210 + 32);
    assert_eq!(ch.bars[0], CandleBar { wick_low: 990, wick_high: 1210, body_low: 1_000, body_high: 1_200, rising: true });
    assert_eq!(ch.bars[1], CandleBar { wick_low: 890, wick_high: 1210, body_low: 900, body_high: 1_200, rising: false });
}

#[test]
fn volume_axis_tops_at_eleven_tenths() {
    let mut a = candle(0, 1, 2);
    a.volume = 20_000_000;
    let mut b = candle(60, 2, 3);
    b.volume = 50_000_000;
    let ch = volume_series(&vec![a, b]).unwrap();
    assert_eq!(ch.volumes, vec![20_000_000, 50_000_000]);
    assert_eq!(ch.y_top, 55_000_000);
    assert_eq!(ch.y_labels, vec!["0".to_string(), "2750".to_string(), "5500".to_string()]);
}

#[test]
fn time_labels_thin_out_past_five() {
    let few: Vec<Candle> = (0..5).map(|k| candle(k * 60, 1, 2)).collect();
    assert_eq!(time_label_stamps(&few), vec![0, 60, 120, 180, 240]);
    let many: Vec<Candle> = (0..6).map(|k| candle(k * 60, 1, 2)).collect();
    assert_eq!(time_label_stamps(&many), vec![0, 300]);
}
