use candlestick_rs::CandleStream;

/// A candle as integer prices in hundredths of the quoted unit.
type Candle = (i64, i64, i64, i64, i64);

fn candle(t: (f64, f64, f64, f64, f64)) -> Candle {
    let cents = |x: f64| (x * 100.0).round() as i64;
    (cents(t.0), cents(t.1), cents(t.2), cents(t.3), cents(t.4))
}

#[test]
fn doc_example_bullish_doji_star() {
    let prev = candle((52.0, 52.5, 48.0, 48.5, 0.0));
    let curr = candle((47.0, 47.5, 46.8, 47.0, 0.0));
    let mut series = CandleStream::new();
    assert!(series.push(&prev).push(&curr).is_bullish_doji_star());
}

#[test]
fn doc_example_bearish_doji_star() {
    let prev = candle((48.0, 52.5, 47.8, 52.0, 0.0));
    let curr = candle((52.6, 53.2, 52.6, 52.6, 0.0));
    let mut series = CandleStream::new();
    assert!(series.push(&prev).push(&curr).is_bearish_doji_star());
}

#[test]
fn doc_example_bullish_engulfing() {
    let prev = candle((101.0, 102.0, 99.5, 100.5, 0.0)); // bearish: open > close
    let curr = candle((99.0, 103.0, 98.5, 102.5, 0.0));  // bullish: open < close, engulfs prev body
    let mut series = CandleStream::new();
    assert!(series.push(&prev).push(&curr).is_bullish_engulfing());
}

#[test]
fn doc_example_bearish_engulfing() {
    let prev = candle((99.0, 100.5, 98.5, 100.0, 0.0));  // bullish: open < close
    let curr = candle((101.5, 102.0, 97.0, 98.5, 0.0));  // bearish: open > close, engulfs prev body
    let mut series = CandleStream::new();
    assert!(series.push(&prev).push(&curr).is_bearish_engulfing());
}

#[test]
fn doc_example_bullish_kicker() {
    let prev = candle((100.0, 100.0, 95.0, 95.0, 0.0)); // bearish marubozu
    let curr = candle((105.0, 110.0, 105.0, 110.0, 0.0)); // bullish marubozu, opens >= prev.open
    let mut series = CandleStream::new();
    assert!(series.push(&prev).push(&curr).is_bullish_kicker());
}

#[test]
fn doc_example_bearish_kicker() {
    let prev = candle((95.0, 100.0, 95.0, 100.0, 0.0)); // bullish marubozu
    let curr = candle((90.0, 90.0, 85.0, 85.0, 0.0)); // bearish marubozu, opens <= prev.open
    let mut series = CandleStream::new();
    assert!(series.push(&prev).push(&curr).is_bearish_kicker());
}

#[test]
fn doc_example_bullish_harami() {
    let prev = candle((129.0, 130.0, 124.0, 125.0, 0.0));
    let curr = candle((125.2, 127.0, 124.8, 126.5, 0.0));
    let mut series = CandleStream::new();
    assert!(series.push(&prev).push(&curr).is_bullish_harami());
}

#[test]
fn doc_example_bearish_harami() {
    let prev = candle((124.0, 129.0, 122.0, 127.0, 0.0));
    let curr = candle((126.9, 129.7, 125.0, 124.8, 0.0));
    let mut series = CandleStream::new();
    assert!(series.push(&prev).push(&curr).is_bearish_harami());
}

#[test]
fn doc_example_bullish_harami_cross() {
    let prev = candle((100.0, 100.5, 95.0, 96.0, 0.0)); // bearish, body [96, 100]
    let curr = candle((98.0, 98.5, 97.5, 98.0, 0.0)); // doji inside prior body
    let mut series = CandleStream::new();
    assert!(series.push(&prev).push(&curr).is_bullish_harami_cross());
}

#[test]
fn doc_example_bearish_harami_cross() {
    let prev = candle((95.0, 100.0, 94.0, 99.0, 0.0)); // bullish, body [95, 99]
    let curr = candle((97.0, 97.5, 96.5, 97.0, 0.0)); // doji inside prior body
    let mut series = CandleStream::new();
    assert!(series.push(&prev).push(&curr).is_bearish_harami_cross());
}

#[test]
fn doc_example_dark_cloud_cover() {
    let prev = candle((100.0, 105.0, 99.5, 104.5, 0.0));
    let curr = candle((105.5, 106.0, 102.0, 101.5, 0.0));
    let mut series = CandleStream::new();
    assert!(series.push(&prev).push(&curr).is_dark_cloud_cover());
}

#[test]
fn doc_example_piercing_line() {
    let prev = candle((100.0, 102.0, 95.0, 96.0, 0.0)); // bearish, midpoint of body = 98
    let curr = candle((94.0, 99.5, 93.0, 99.0, 0.0));   // bullish, closes above 98, below 100
    let mut series = CandleStream::new();
    assert!(series.push(&prev).push(&curr).is_piercing_line());
}

#[test]
fn doc_example_tweezer_top() {
    let prev = candle((100.0, 105.0, 99.0, 104.0, 0.0)); // bullish, high 105
    let curr = candle((104.5, 105.0, 100.0, 100.5, 0.0)); // bearish, high 105
    let mut series = CandleStream::new();
    assert!(series.push(&prev).push(&curr).is_tweezer_top());
}

#[test]
fn doc_example_tweezer_bottom() {
    let prev = candle((100.0, 101.0, 95.0, 96.0, 0.0)); // bearish, low 95
    let curr = candle((96.5, 101.0, 95.0, 100.0, 0.0)); // bullish, low 95
    let mut series = CandleStream::new();
    assert!(series.push(&prev).push(&curr).is_tweezer_bottom());
}

#[test]
fn doc_example_evening_star() {
    let prev2 = candle((100.0, 106.0, 99.5, 105.5, 0.0));
    let prev1 = candle((106.2, 107.0, 105.8, 106.5, 0.0));
    let curr = candle((105.5, 106.0, 102.0, 101.5, 0.0));
    let mut series = CandleStream::new();
    assert!(series.push(&prev2).push(&prev1).push(&curr).is_evening_star());
}

#[test]
fn doc_example_evening_star_doji() {
    let prev2 =  candle((100.0, 106.0, 99.5, 105.5, 0.0));
    let prev1 =  candle((106.1, 107.0, 105.8, 106.1, 0.0));
    let curr = candle((105.0, 105.2, 99.8, 101.0, 0.0));
    let mut series = CandleStream::new();
    assert!(series.push(&prev2).push(&prev1).push(&curr).is_evening_star_doji());
}

#[test]
fn doc_example_morning_star() {
    let prev2 = candle((52.0, 52.5, 48.0, 48.5, 0.0));
    let prev1 = candle((48.2, 48.9, 47.5, 48.3, 0.0));
    let curr = candle((48.7, 51.5, 48.5, 51.2, 0.0));
    let mut series = CandleStream::new();
    assert!(series.push(&prev2).push(&prev1).push(&curr).is_morning_star());
}

#[test]
fn doc_example_morning_star_doji() {
    let prev2 = candle((52.0, 52.5, 48.0, 48.5, 0.0));
    let prev1 = candle((48.3, 48.9, 47.5, 48.4, 0.0));
    let curr =  candle((48.7, 51.5, 48.5, 51.2, 0.0));
    let mut series = CandleStream::new();
    assert!(series.push(&prev2).push(&prev1).push(&curr).is_morning_star_doji());
}

#[test]
fn doc_example_bullish_abandoned_baby() {
    let prev2 = candle((100.0, 102.0, 95.0, 96.0, 0.0)); // bearish, low 95
    let prev1 = candle((90.0, 90.5, 89.5, 90.0, 0.0));   // doji, high 90.5 < 95
    let curr  = candle((94.0, 100.0, 93.5, 99.0, 0.0));  // bullish, low 93.5 > 90.5
    let mut series = CandleStream::new();
    assert!(series.push(&prev2).push(&prev1).push(&curr).is_bullish_abandoned_baby());
}

#[test]
fn doc_example_bearish_abandoned_baby() {
    let prev2 = candle((95.0, 100.0, 94.0, 99.0, 0.0));     // bullish, high 100
    let prev1 = candle((105.0, 105.5, 104.5, 105.0, 0.0));  // doji, low 104.5 > 100
    let curr  = candle((100.0, 102.0, 95.0, 96.0, 0.0));    // bearish, high 102 < 104.5
    let mut series = CandleStream::new();
    assert!(series.push(&prev2).push(&prev1).push(&curr).is_bearish_abandoned_baby());
}

#[test]
fn doc_example_bullish_tri_star() {
    let prev2 = candle((100.0, 102.0, 98.0, 100.0, 0.0)); // doji
    let prev1 = candle((95.0, 96.0, 94.0, 95.0, 0.0));    // doji, body below outer dojis
    let curr  = candle((101.0, 103.0, 99.0, 101.0, 0.0)); // doji
    let mut series = CandleStream::new();
    assert!(series.push(&prev2).push(&prev1).push(&curr).is_bullish_tri_star());
}

#[test]
fn doc_example_bearish_tri_star() {
    let prev2 = candle((100.0, 102.0, 98.0, 100.0, 0.0)); // doji
    let prev1 = candle((105.0, 106.0, 104.0, 105.0, 0.0)); // doji, body above outer dojis
    let curr  = candle((99.0, 101.0, 97.0, 99.0, 0.0));   // doji
    let mut series = CandleStream::new();
    assert!(series.push(&prev2).push(&prev1).push(&curr).is_bearish_tri_star());
}

#[test]
fn doc_example_three_white_soldiers() {
    let prev2 = candle((48.0, 50.5, 47.8, 50.2, 0.0));
    let prev1 = candle((50.3, 52.7, 50.1, 52.4, 0.0));
    let curr =  candle((52.5, 54.8, 52.3, 54.5, 0.0));
    let mut series = CandleStream::new();
    assert!(series.push(&prev2).push(&prev1).push(&curr).is_three_white_soldiers());
}

#[test]
fn doc_example_three_black_crows() {
    let prev2 = candle((54.0, 54.5, 51.8, 52.2, 0.0));
    let prev1 = candle((52.0, 52.3, 49.7, 50.4, 0.0));
    let curr =  candle((50.2, 50.5, 47.9, 48.3, 0.0));
    let mut series = CandleStream::new();
    assert!(series.push(&prev2).push(&prev1).push(&curr).is_three_black_crows());
}

#[test]
fn doc_example_bullish_three_line_strike() {
    let c1 = candle((100.0, 105.0, 99.5, 104.0, 0.0));
    let c2 = candle((105.0, 110.0, 104.5, 109.0, 0.0));
    let c3 = candle((110.0, 115.0, 109.5, 114.0, 0.0));
    let c4 = candle((116.0, 117.0, 99.0, 99.5, 0.0)); // bearish, opens > c3.close, closes < c1.open
    let mut series = CandleStream::new();
    assert!(series.push(&c1).push(&c2).push(&c3).push(&c4).is_bullish_three_line_strike());
}

#[test]
fn doc_example_bearish_three_line_strike() {
    let c1 = candle((100.0, 100.5, 95.0, 96.0, 0.0));
    let c2 = candle((95.0, 95.5, 91.0, 92.0, 0.0));
    let c3 = candle((91.0, 91.5, 87.0, 88.0, 0.0));
    let c4 = candle((86.0, 101.0, 85.5, 101.0, 0.0)); // bullish, opens < c3.close, closes > c1.open
    let mut series = CandleStream::new();
    assert!(series.push(&c1).push(&c2).push(&c3).push(&c4).is_bearish_three_line_strike());
}

#[test]
fn doc_example_advance_block() {
    let c1 = candle((100.0, 105.0, 99.5, 104.0, 0.0)); // body 4, wick 1
    let c2 = candle((105.0, 108.5, 104.5, 107.0, 0.0)); // body 2, wick 1.5
    let c3 = candle((108.0, 112.0, 107.5, 109.0, 0.0)); // body 1, wick 3
    let mut series = CandleStream::new();
    assert!(series.push(&c1).push(&c2).push(&c3).is_advance_block());
}

#[test]
fn doc_example_deliberation() {
    let c1 = candle((100.0, 105.0, 99.5, 104.5, 0.0)); // body/range ≈ 0.82
    let c2 = candle((105.0, 110.0, 104.5, 109.5, 0.0)); // body/range ≈ 0.82, c2.c > c1.c
    let c3 = candle((110.0, 112.0, 109.0, 110.5, 0.0)); // small body, c3.o >= c2.c, c3.c marginally > c2.c
    let mut series = CandleStream::new();
    assert!(series.push(&c1).push(&c2).push(&c3).is_deliberation());
}

#[test]
fn doc_example_three_inside_up() {
    let prev2 = candle((54.0, 54.5, 51.8, 52.0, 0.0));
    let prev1 = candle((52.2, 53.0, 52.0, 52.8, 0.0));
    let curr  = candle((52.9, 55.0, 52.7, 54.5, 0.0));
    let mut series = CandleStream::new();
    assert!(series.push(&prev2).push(&prev1).push(&curr).is_three_inside_up());
}

#[test]
fn doc_example_three_inside_down() {
    let prev2 = candle((48.0, 50.5, 47.8, 50.0, 0.0));
    let prev1 = candle((49.5, 49.8, 48.5, 49.0, 0.0));
    let curr  = candle((48.8, 49.0, 47.5, 47.9, 0.0));
    let mut series = CandleStream::new();
    assert!(series.push(&prev2).push(&prev1).push(&curr).is_three_inside_down());
}

#[test]
fn doc_example_three_outside_up() {
    let prev2 = candle((100.0, 101.0, 95.0, 96.0, 0.0)); // bearish, body [96, 100]
    let prev1 = candle((95.0, 105.0, 94.5, 104.0, 0.0)); // bullish, engulfs prev2's body
    let curr  = candle((104.0, 108.0, 103.0, 107.0, 0.0)); // bullish, closes higher
    let mut series = CandleStream::new();
    assert!(series.push(&prev2).push(&prev1).push(&curr).is_three_outside_up());
}

#[test]
fn doc_example_three_outside_down() {
    let prev2 = candle((95.0, 100.0, 94.0, 99.0, 0.0));  // bullish, body [95, 99]
    let prev1 = candle((100.0, 101.0, 90.0, 91.0, 0.0)); // bearish, engulfs prev2's body
    let curr  = candle((91.0, 92.0, 87.0, 88.0, 0.0));   // bearish, closes lower
    let mut series = CandleStream::new();
    assert!(series.push(&prev2).push(&prev1).push(&curr).is_three_outside_down());
}
