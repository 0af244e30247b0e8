use candlestick_rs::candle::is_bullish;
use candlestick_rs::CandleStream;

type Candle = (i64, i64, i64, i64, i64);

fn candle(t: (f64, f64, f64, f64, f64)) -> Candle {
    let cents = |x: f64| (x * 100.0).round() as i64;
    (cents(t.0), cents(t.1), cents(t.2), cents(t.3), cents(t.4))
}

fn stream_of(candles: &[(f64, f64, f64, f64, f64)]) -> CandleStream<Candle> {
    let mut s = CandleStream::new();
    for c in candles {
        s.push(candle(*c));
    }
    s
}

#[test]
fn mirrored_two_candle_patterns_exclude_each_other() {
    let s = stream_of(&[(101.0, 102.0, 99.5, 100.5, 0.0), (99.0, 103.0, 98.5, 102.5, 0.0)]);
    assert!(s.is_bullish_engulfing() && !s.is_bearish_engulfing());
    let s = stream_of(&[(100.0, 100.0, 95.0, 95.0, 0.0), (105.0, 110.0, 105.0, 110.0, 0.0)]);
    assert!(s.is_bullish_kicker() && !s.is_bearish_kicker());
    let s = stream_of(&[(100.0, 105.0, 99.5, 104.5, 0.0), (105.5, 106.0, 102.0, 101.5, 0.0)]);
    assert!(s.is_dark_cloud_cover() && !s.is_piercing_line());
    let s = stream_of(&[(100.0, 105.0, 99.0, 104.0, 0.0), (104.5, 105.0, 100.0, 100.5, 0.0)]);
    assert!(s.is_tweezer_top() && !s.is_tweezer_bottom());
}

#[test]
fn mirrored_three_candle_patterns_exclude_each_other() {
    let s = stream_of(&[
        (100.0, 102.0, 98.0, 100.0, 0.0),
        (95.0, 96.0, 94.0, 95.0, 0.0),
        (101.0, 103.0, 99.0, 101.0, 0.0),
    ]);
    assert!(s.is_bullish_tri_star() && !s.is_bearish_tri_star());
    let s = stream_of(&[
        (109.5, 112.0, 108.0, 111.0, 0.0),
        (104.5, 110.0, 104.0, 109.0, 0.0),
        (100.0, 105.0, 99.0, 104.0, 0.0),
    ]);
    assert!(s.is_downtrend() && !s.is_uptrend());
}

#[test]
fn engulfing_is_not_harami() {
    let s = stream_of(&[(101.0, 102.0, 99.5, 100.5, 0.0), (99.0, 103.0, 98.5, 102.5, 0.0)]);
    assert!(s.is_bullish_engulfing() && !s.is_bullish_harami() && !s.is_piercing_line());
}

#[test]
fn star_doji_is_star() {
    let s = stream_of(&[
        (52.0, 52.5, 48.0, 48.5, 0.0),
        (48.3, 48.9, 47.5, 48.4, 0.0),
        (48.7, 51.5, 48.5, 51.2, 0.0),
    ]);
    assert!(s.is_morning_star_doji() && s.is_morning_star());
    let s = stream_of(&[
        (100.0, 106.0, 99.5, 105.5, 0.0),
        (106.1, 107.0, 105.8, 106.1, 0.0),
        (105.0, 105.2, 99.8, 101.0, 0.0),
    ]);
    assert!(s.is_evening_star_doji() && s.is_evening_star());
}

#[test]
fn advance_block_is_three_white_soldiers() {
    let s = stream_of(&[
        (100.0, 105.0, 99.5, 104.0, 0.0),
        (105.0, 108.5, 104.5, 107.0, 0.0),
        (108.0, 112.0, 107.5, 109.0, 0.0),
    ]);
    assert!(s.is_advance_block() && s.is_three_white_soldiers());
}

#[test]
fn three_line_strike_follows_three_soldiers() {
    let mut s = stream_of(&[
        (100.0, 105.0, 99.5, 104.0, 0.0),
        (105.0, 110.0, 104.5, 109.0, 0.0),
        (110.0, 115.0, 109.5, 114.0, 0.0),
    ]);
    assert!(s.is_three_white_soldiers());
    s.push(candle((116.0, 117.0, 99.0, 99.5, 0.0)));
    assert!(s.is_bullish_three_line_strike() && !s.is_bearish_three_line_strike());

    let mut s = stream_of(&[
        (100.0, 100.5, 95.0, 96.0, 0.0),
        (95.0, 95.5, 91.0, 92.0, 0.0),
        (91.0, 91.5, 87.0, 88.0, 0.0),
    ]);
    assert!(s.is_three_black_crows());
    s.push(candle((86.0, 101.0, 85.5, 101.0, 0.0)));
    assert!(s.is_bearish_three_line_strike());
}

#[test]
fn three_inside_and_outside_confirm_two_candle_patterns() {
    let mut s = stream_of(&[(54.0, 54.5, 51.8, 52.0, 0.0), (52.2, 53.0, 52.0, 52.8, 0.0)]);
    assert!(s.is_bullish_harami());
    s.push(candle((52.9, 55.0, 52.7, 54.5, 0.0)));
    assert!(s.is_three_inside_up());

    let mut s = stream_of(&[(48.0, 50.5, 47.8, 50.0, 0.0), (49.5, 49.8, 48.5, 49.0, 0.0)]);
    assert!(s.is_bearish_harami());
    s.push(candle((48.8, 49.0, 47.5, 47.9, 0.0)));
    assert!(s.is_three_inside_down());

    let mut s = stream_of(&[(100.0, 101.0, 95.0, 96.0, 0.0), (95.0, 105.0, 94.5, 104.0, 0.0)]);
    assert!(s.is_bullish_engulfing());
    s.push(candle((104.0, 108.0, 103.0, 107.0, 0.0)));
    assert!(s.is_three_outside_up());

    let mut s = stream_of(&[(95.0, 100.0, 94.0, 99.0, 0.0), (100.0, 101.0, 90.0, 91.0, 0.0)]);
    assert!(s.is_bearish_engulfing());
    s.push(candle((91.0, 92.0, 87.0, 88.0, 0.0)));
    assert!(s.is_three_outside_down());
}

#[test]
fn harami_cross_with_leaning_doji_is_harami() {
    // The doji closes a little above its open.
    let s = stream_of(&[(100.0, 100.5, 95.0, 96.0, 0.0), (98.0, 98.5, 97.5, 98.05, 0.0)]);
    assert!(s.is_bullish_harami_cross());
    assert!(is_bullish(s.get().unwrap()));
    assert!(s.is_bullish_harami());
    // A flat doji makes a harami cross that is no harami.
    let s = stream_of(&[(100.0, 100.5, 95.0, 96.0, 0.0), (98.0, 98.5, 97.5, 98.0, 0.0)]);
    assert!(s.is_bullish_harami_cross() && !s.is_bullish_harami());
}

#[test]
fn abandoned_baby_and_star_doji() {
    let s = stream_of(&[
        (100.0, 102.0, 95.0, 96.0, 0.0),
        (90.0, 90.5, 89.5, 90.0, 0.0),
        (94.0, 100.0, 93.5, 99.0, 0.0),
    ]);
    assert!(s.is_bullish_abandoned_baby() && s.is_morning_star_doji());
    // The last candle closes below the midpoint of the first body (98): an
    // abandoned baby that is no morning star doji.
    let s = stream_of(&[
        (100.0, 102.0, 95.0, 96.0, 0.0),
        (90.0, 90.5, 89.5, 90.0, 0.0),
        (91.0, 93.0, 91.0, 92.0, 0.0),
    ]);
    assert!(s.is_bullish_abandoned_baby() && !s.is_morning_star_doji());
}

#[test]
fn patterns_need_enough_candles() {
    let mut s: CandleStream<Candle> = CandleStream::new();
    assert!(!s.is_bullish_engulfing());
    s.push(candle((101.0, 102.0, 99.5, 100.5, 0.0)));
    assert!(!s.is_bullish_engulfing());
    assert!(!s.is_downtrend() && !s.is_uptrend());
    assert!(!s.is_bearish_three_line_strike());
}

#[test]
fn patterns_look_only_at_newest_candles() {
    // Two engulfing candles after three unrelated ones.
    let s = stream_of(&[
        (1.0, 2.0, 0.5, 1.5, 0.0),
        (3.0, 4.0, 2.5, 3.5, 0.0),
        (5.0, 6.0, 4.5, 5.5, 0.0),
        (101.0, 102.0, 99.5, 100.5, 0.0),
        (99.0, 103.0, 98.5, 102.5, 0.0),
    ]);
    assert!(s.is_bullish_engulfing());
    // Five more pushes later the window has moved on entirely.
    let mut s = s;
    for i in 0..5 {
        s.push(candle((10.0 + i as f64, 11.0 + i as f64, 9.0 + i as f64, 10.0 + i as f64, 0.0)));
    }
    assert!(!s.is_bullish_engulfing());
}

#[test]
fn tweezer_with_flat_candles_is_false() {
    // Directions fit, but both ranges are zero: the relative difference of
    // the highs and of the lows is undefined.
    let s = stream_of(&[(100.0, 100.0, 100.0, 100.5, 0.0), (100.5, 100.0, 100.0, 100.0, 0.0)]);
    assert!(!s.is_tweezer_top() && !s.is_tweezer_bottom());
}

#[test]
fn deliberation_example_and_flat_third_candle() {
    let s = stream_of(&[
        (100.0, 105.0, 99.5, 104.5, 0.0),
        (105.0, 110.0, 104.5, 109.5, 0.0),
        (110.0, 112.0, 109.0, 110.5, 0.0),
    ]);
    assert!(s.is_deliberation());
    // Third candle has a body but no range: its body is not small.
    let s = stream_of(&[
        (100.0, 105.0, 99.5, 104.5, 0.0),
        (105.0, 110.0, 104.5, 109.5, 0.0),
        (110.0, 110.0, 110.0, 110.5, 0.0),
    ]);
    assert!(!s.is_deliberation());
}


#[test]
fn kicker_bodies_do_not_overlap() {
    let prev = candle((100.0, 100.0, 95.0, 95.0, 0.0));
    let curr = candle((105.0, 110.0, 105.0, 110.0, 0.0));
    let mut s: CandleStream<Candle> = CandleStream::new();
    s.push(prev).push(curr);
    assert!(s.is_bullish_kicker());
    // bottom of the newer body against the top of the older body
    assert!(curr.0.min(curr.3) >= prev.0.max(prev.3));

    let prev = candle((95.0, 100.0, 95.0, 100.0, 0.0));
    let curr = candle((90.0, 90.0, 85.0, 85.0, 0.0));
    let mut s: CandleStream<Candle> = CandleStream::new();
    s.push(prev).push(curr);
    assert!(s.is_bearish_kicker());
    assert!(curr.0.max(curr.3) <= prev.0.min(prev.3));
}

#[test]
fn star_needs_a_small_middle_body() {
    // The middle candle's body takes 13 of a 15 range: no star.
    let s = stream_of(&[
        (100.0, 106.0, 99.5, 105.5, 0.0),
        (106.0, 120.0, 105.0, 119.0, 0.0),
        (105.5, 106.0, 102.0, 101.5, 0.0),
    ]);
    assert!(!s.is_evening_star());
    // A small bearish middle body (0.2 of a 1.4 range) is a star.
    let s = stream_of(&[
        (52.0, 52.5, 48.0, 48.5, 0.0),
        (48.4, 48.9, 47.5, 48.2, 0.0),
        (48.7, 51.5, 48.5, 51.2, 0.0),
    ]);
    assert!(s.is_morning_star());
    // A bullish middle body of 0.8 of a 1.0 range is no star.
    let s = stream_of(&[
        (52.0, 52.5, 48.0, 48.5, 0.0),
        (48.1, 49.0, 48.0, 48.9, 0.0),
        (48.7, 51.5, 48.5, 51.2, 0.0),
    ]);
    assert!(!s.is_morning_star());
}

fn all_patterns(s: &CandleStream<Candle>) -> Vec<bool> {
    vec![
        s.is_bullish_doji_star(),
        s.is_bearish_doji_star(),
        s.is_bullish_engulfing(),
        s.is_bearish_engulfing(),
        s.is_bullish_kicker(),
        s.is_bearish_kicker(),
        s.is_bullish_harami(),
        s.is_bearish_harami(),
        s.is_bullish_harami_cross(),
        s.is_bearish_harami_cross(),
        s.is_dark_cloud_cover(),
        s.is_piercing_line(),
        s.is_tweezer_top(),
        s.is_tweezer_bottom(),
        s.is_evening_star(),
        s.is_evening_star_doji(),
        s.is_morning_star(),
        s.is_morning_star_doji(),
        s.is_bullish_abandoned_baby(),
        s.is_bearish_abandoned_baby(),
        s.is_bullish_tri_star(),
        s.is_bearish_tri_star(),
        s.is_three_white_soldiers(),
        s.is_three_black_crows(),
        s.is_bullish_three_line_strike(),
        s.is_bearish_three_line_strike(),
        s.is_advance_block(),
        s.is_deliberation(),
        s.is_three_inside_up(),
        s.is_three_inside_down(),
        s.is_three_outside_up(),
        s.is_three_outside_down(),
        s.is_downtrend(),
        s.is_uptrend(),
    ]
}

#[test]
fn detection_does_not_depend_on_price_scale() {
    let series: Vec<Vec<(f64, f64, f64, f64, f64)>> = vec![
        vec![(101.0, 102.0, 99.5, 100.5, 0.0), (99.0, 103.0, 98.5, 102.5, 0.0)],
        vec![(100.0, 105.0, 99.0, 104.0, 0.0), (104.5, 105.0, 100.0, 100.5, 0.0)],
        vec![(100.0, 102.0, 95.0, 96.0, 0.0), (94.0, 99.5, 93.0, 99.0, 0.0)],
        vec![(52.0, 52.5, 48.0, 48.5, 0.0), (48.3, 48.9, 47.5, 48.4, 0.0), (48.7, 51.5, 48.5, 51.2, 0.0)],
        vec![(100.0, 105.0, 99.5, 104.5, 0.0), (105.0, 110.0, 104.5, 109.5, 0.0), (110.0, 112.0, 109.0, 110.5, 0.0)],
        vec![(100.0, 105.0, 99.5, 104.0, 0.0), (105.0, 108.5, 104.5, 107.0, 0.0), (108.0, 112.0, 107.5, 109.0, 0.0)],
        vec![
            (100.0, 105.0, 99.5, 104.0, 0.0),
            (105.0, 110.0, 104.5, 109.0, 0.0),
            (110.0, 115.0, 109.5, 114.0, 0.0),
            (116.0, 117.0, 99.0, 99.5, 0.0),
        ],
    ];
    for candles in &series {
        let base = stream_of(candles);
        let expected = all_patterns(&base);
        assert!(expected.iter().any(|b| *b));
        for k in [1i64, 3, 10, 1000, 1_000_000] {
            let mut s: CandleStream<Candle> = CandleStream::new();
            for c in candles {
                let q = candle(*c);
                s.push((q.0 * k, q.1 * k, q.2 * k, q.3 * k, q.4));
            }
            assert_eq!(all_patterns(&s), expected);
        }
    }
}
