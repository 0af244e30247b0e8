//! The candlestick patterns, as predicates on the candles that form them,
//! oldest first.
use vstd::prelude::*;
use crate::candle::{
    CandleStick,
    above_midpoint,
    below_midpoint,
    abs,
    bearish,
    bearish_marubozu,
    body_size,
    bullish,
    bullish_marubozu,
    doji,
    max,
    min,
    price_range,
    ratio_above,
    ratio_below,
    upper_shadow,
    RATIO_SCALE,
};

verus! {

/// Top of the body.
pub open spec fn body_top<C: CandleStick>(c: C) -> int {
    max(c.open_spec() as int, c.close_spec() as int)
}

/// Bottom of the body.
pub open spec fn body_bottom<C: CandleStick>(c: C) -> int {
    min(c.open_spec() as int, c.close_spec() as int)
}

/// A bearish candle, then a doji whose high lies below the bearish candle's low.
pub open spec fn bullish_doji_star<C: CandleStick>(p: C, c: C) -> bool {
    &&& bearish(p)
    &&& doji(c)
    &&& c.high_spec() < p.low_spec()
}

/// A bullish candle, then a doji whose low lies above the bullish candle's high.
pub open spec fn bearish_doji_star<C: CandleStick>(p: C, c: C) -> bool {
    &&& bullish(p)
    &&& doji(c)
    &&& c.low_spec() > p.high_spec()
}

/// A bearish candle, then a bullish one that opens below its close and
/// closes above its open.
pub open spec fn bullish_engulfing<C: CandleStick>(p: C, c: C) -> bool {
    &&& bearish(p)
    &&& bullish(c)
    &&& c.open_spec() < p.close_spec()
    &&& c.close_spec() > p.open_spec()
}

/// A bullish candle, then a bearish one that opens above its close and
/// closes below its open.
pub open spec fn bearish_engulfing<C: CandleStick>(p: C, c: C) -> bool {
    &&& bullish(p)
    &&& bearish(c)
    &&& c.open_spec() > p.close_spec()
    &&& c.close_spec() < p.open_spec()
}

/// A bearish marubozu, then a bullish marubozu opening at or above its open.
pub open spec fn bullish_kicker<C: CandleStick>(p: C, c: C) -> bool {
    &&& bearish_marubozu(p)
    &&& bullish_marubozu(c)
    &&& c.open_spec() >= p.open_spec()
}

/// A bullish marubozu, then a bearish marubozu opening at or below its open.
pub open spec fn bearish_kicker<C: CandleStick>(p: C, c: C) -> bool {
    &&& bullish_marubozu(p)
    &&& bearish_marubozu(c)
    &&& c.open_spec() <= p.open_spec()
}

/// A bearish candle, then a bullish one whose open and close lie strictly
/// inside its body.
pub open spec fn bullish_harami<C: CandleStick>(p: C, c: C) -> bool {
    &&& bearish(p)
    &&& bullish(c)
    &&& c.open_spec() > p.close_spec()
    &&& c.close_spec() < p.open_spec()
}

/// A bullish candle, then a bearish one whose open and close lie strictly
/// inside its body.
pub open spec fn bearish_harami<C: CandleStick>(p: C, c: C) -> bool {
    &&& bullish(p)
    &&& bearish(c)
    &&& c.open_spec() < p.close_spec()
    &&& c.close_spec() > p.open_spec()
}

/// A bearish candle, then a doji whose body lies strictly inside its body.
pub open spec fn bullish_harami_cross<C: CandleStick>(p: C, c: C) -> bool {
    &&& bearish(p)
    &&& doji(c)
    &&& body_top(c) < p.open_spec()
    &&& body_bottom(c) > p.close_spec()
}

/// A bullish candle, then a doji whose body lies strictly inside its body.
pub open spec fn bearish_harami_cross<C: CandleStick>(p: C, c: C) -> bool {
    &&& bullish(p)
    &&& doji(c)
    &&& body_top(c) < p.close_spec()
    &&& body_bottom(c) > p.open_spec()
}

/// A bullish candle, then a bearish one that opens above its close and
/// closes below the midpoint of its body.
pub open spec fn dark_cloud_cover<C: CandleStick>(p: C, c: C) -> bool {
    &&& bearish(c)
    &&& bullish(p)
    &&& c.open_spec() > p.close_spec()
    &&& below_midpoint(c.close_spec() as int, p.open_spec() as int, p.close_spec() as int)
}

/// A bearish candle, then a bullish one that opens below its close and
/// closes above the midpoint of its body but below its open.
pub open spec fn piercing_line<C: CandleStick>(p: C, c: C) -> bool {
    &&& bullish(c)
    &&& bearish(p)
    &&& c.open_spec() < p.close_spec()
    &&& above_midpoint(c.close_spec() as int, p.open_spec() as int, p.close_spec() as int)
    &&& c.close_spec() < p.open_spec()
}

/// The larger of the two candles' ranges.
pub open spec fn larger_range<C: CandleStick>(p: C, c: C) -> int {
    max(price_range(p), price_range(c))
}

/// A bullish candle, then a bearish one whose high differs from its high by
/// less than the newer candle's tweezer tolerance of the larger range.
pub open spec fn tweezer_top<C: CandleStick>(p: C, c: C) -> bool {
    &&& bullish(p)
    &&& bearish(c)
    &&& ratio_below(
        abs(p.high_spec() - c.high_spec()),
        larger_range(p, c),
        c.tweezer_tolerance_spec() as int,
    )
}

/// A bearish candle, then a bullish one whose low differs from its low by
/// less than the newer candle's tweezer tolerance of the larger range.
pub open spec fn tweezer_bottom<C: CandleStick>(p: C, c: C) -> bool {
    &&& bearish(p)
    &&& bullish(c)
    &&& ratio_below(
        abs(p.low_spec() - c.low_spec()),
        larger_range(p, c),
        c.tweezer_tolerance_spec() as int,
    )
}

/// A star: a doji, or a candle of either colour whose body is small (below
/// its spinning top body ratio of its range).
pub open spec fn star<C: CandleStick>(c: C) -> bool {
    doji(c) || ratio_below(body_size(c), price_range(c), c.spinning_top_body_ratio_spec() as int)
}

/// A bullish candle, a star, then a bearish candle closing below the
/// midpoint of the first body.
pub open spec fn evening_star<C: CandleStick>(p2: C, p1: C, c: C) -> bool {
    &&& bullish(p2)
    &&& star(p1)
    &&& bearish(c)
    &&& below_midpoint(c.close_spec() as int, p2.open_spec() as int, p2.close_spec() as int)
}

/// An evening star whose middle candle is a doji.
pub open spec fn evening_star_doji<C: CandleStick>(p2: C, p1: C, c: C) -> bool {
    &&& bullish(p2)
    &&& doji(p1)
    &&& bearish(c)
    &&& below_midpoint(c.close_spec() as int, p2.open_spec() as int, p2.close_spec() as int)
}

/// A bearish candle, a star, then a bullish candle closing above the
/// midpoint of the first body.
pub open spec fn morning_star<C: CandleStick>(p2: C, p1: C, c: C) -> bool {
    &&& bearish(p2)
    &&& star(p1)
    &&& bullish(c)
    &&& above_midpoint(c.close_spec() as int, p2.open_spec() as int, p2.close_spec() as int)
}

/// A morning star whose middle candle is a doji.
pub open spec fn morning_star_doji<C: CandleStick>(p2: C, p1: C, c: C) -> bool {
    &&& bearish(p2)
    &&& doji(p1)
    &&& bullish(c)
    &&& above_midpoint(c.close_spec() as int, p2.open_spec() as int, p2.close_spec() as int)
}

/// A bearish candle, a doji entirely below its low, then a bullish candle
/// entirely above the doji's high.
pub open spec fn bullish_abandoned_baby<C: CandleStick>(p2: C, p1: C, c: C) -> bool {
    &&& bearish(p2)
    &&& doji(p1)
    &&& p1.high_spec() < p2.low_spec()
    &&& bullish(c)
    &&& c.low_spec() > p1.high_spec()
}

/// A bullish candle, a doji entirely above its high, then a bearish candle
/// entirely below the doji's low.
pub open spec fn bearish_abandoned_baby<C: CandleStick>(p2: C, p1: C, c: C) -> bool {
    &&& bullish(p2)
    &&& doji(p1)
    &&& p1.low_spec() > p2.high_spec()
    &&& bearish(c)
    &&& c.high_spec() < p1.low_spec()
}

/// Three dojis, the middle one's body strictly below both outer bodies.
pub open spec fn bullish_tri_star<C: CandleStick>(p2: C, p1: C, c: C) -> bool {
    &&& doji(p2)
    &&& doji(p1)
    &&& doji(c)
    &&& body_top(p1) < min(body_bottom(p2), body_bottom(c))
}

/// Three dojis, the middle one's body strictly above both outer bodies.
pub open spec fn bearish_tri_star<C: CandleStick>(p2: C, p1: C, c: C) -> bool {
    &&& doji(p2)
    &&& doji(p1)
    &&& doji(c)
    &&& body_bottom(p1) > max(body_top(p2), body_top(c))
}

/// Three bullish candles, each opening above and closing above the
/// previous close.
pub open spec fn three_white_soldiers<C: CandleStick>(p2: C, p1: C, c: C) -> bool {
    &&& bullish(p2)
    &&& bullish(p1)
    &&& p1.open_spec() > p2.close_spec()
    &&& p1.close_spec() > p2.close_spec()
    &&& bullish(c)
    &&& c.open_spec() > p1.close_spec()
    &&& c.close_spec() > p1.close_spec()
}

/// Three bearish candles, each opening below and closing below the
/// previous close.
pub open spec fn three_black_crows<C: CandleStick>(p2: C, p1: C, c: C) -> bool {
    &&& bearish(p2)
    &&& bearish(p1)
    &&& p1.open_spec() < p2.close_spec()
    &&& p1.close_spec() < p2.close_spec()
    &&& bearish(c)
    &&& c.open_spec() < p1.close_spec()
    &&& c.close_spec() < p1.close_spec()
}

/// Three rising bullish candles, each opening above the previous close,
/// then a bearish candle opening above the third close and closing below
/// the first open.
pub open spec fn bullish_three_line_strike<C: CandleStick>(c1: C, c2: C, c3: C, c4: C) -> bool {
    &&& bullish(c1)
    &&& bullish(c2)
    &&& bullish(c3)
    &&& c1.close_spec() < c2.close_spec()
    &&& c2.close_spec() < c3.close_spec()
    &&& c2.open_spec() > c1.close_spec()
    &&& c3.open_spec() > c2.close_spec()
    &&& bearish(c4)
    &&& c4.open_spec() > c3.close_spec()
    &&& c4.close_spec() < c1.open_spec()
}

/// Three falling bearish candles, each opening below the previous close,
/// then a bullish candle opening below the third close and closing above
/// the first open.
pub open spec fn bearish_three_line_strike<C: CandleStick>(c1: C, c2: C, c3: C, c4: C) -> bool {
    &&& bearish(c1)
    &&& bearish(c2)
    &&& bearish(c3)
    &&& c1.close_spec() > c2.close_spec()
    &&& c2.close_spec() > c3.close_spec()
    &&& c2.open_spec() < c1.close_spec()
    &&& c3.open_spec() < c2.close_spec()
    &&& bullish(c4)
    &&& c4.open_spec() < c3.close_spec()
    &&& c4.close_spec() > c1.open_spec()
}

/// Three rising bullish candles, each opening above the previous close,
/// with shrinking bodies and growing upper shadows.
pub open spec fn advance_block<C: CandleStick>(c1: C, c2: C, c3: C) -> bool {
    &&& bullish(c1)
    &&& bullish(c2)
    &&& bullish(c3)
    &&& c1.close_spec() < c2.close_spec()
    &&& c2.close_spec() < c3.close_spec()
    &&& c2.open_spec() > c1.close_spec()
    &&& c3.open_spec() > c2.close_spec()
    &&& body_size(c1) > body_size(c2)
    &&& body_size(c2) > body_size(c3)
    &&& upper_shadow(c2) > upper_shadow(c1)
    &&& upper_shadow(c3) > upper_shadow(c2)
}

/// Share of the range, in basis points, above which a body is long: one
/// less the first candle's marubozu ratio.
pub open spec fn long_body_threshold<C: CandleStick>(c1: C) -> int {
    RATIO_SCALE - c1.marubozu_ratio_spec()
}

/// Two long-bodied bullish candles, then a small-bodied bullish candle that
/// opens at or above the second close and closes above it.
pub open spec fn deliberation<C: CandleStick>(c1: C, c2: C, c3: C) -> bool {
    &&& bullish(c1)
    &&& bullish(c2)
    &&& ratio_above(body_size(c1), price_range(c1), long_body_threshold(c1))
    &&& ratio_above(body_size(c2), price_range(c2), long_body_threshold(c1))
    &&& c2.close_spec() > c1.close_spec()
    &&& bullish(c3)
    &&& ratio_below(body_size(c3), price_range(c3), c3.spinning_top_body_ratio_spec() as int)
    &&& c3.open_spec() >= c2.close_spec()
    &&& c3.close_spec() > c2.close_spec()
}

/// A bullish harami, then a bullish non-doji candle closing above the
/// harami's close.
pub open spec fn three_inside_up<C: CandleStick>(p2: C, p1: C, c: C) -> bool {
    &&& bearish(p2)
    &&& bullish(p1)
    &&& p1.open_spec() > p2.close_spec()
    &&& p1.close_spec() < p2.open_spec()
    &&& bullish(c)
    &&& c.close_spec() > p1.close_spec()
    &&& !doji(c)
}

/// A bearish harami, then a bearish non-doji candle closing below the
/// harami's close.
pub open spec fn three_inside_down<C: CandleStick>(p2: C, p1: C, c: C) -> bool {
    &&& bullish(p2)
    &&& bearish(p1)
    &&& p1.open_spec() < p2.close_spec()
    &&& p1.close_spec() > p2.open_spec()
    &&& bearish(c)
    &&& c.close_spec() < p1.close_spec()
    &&& !doji(c)
}

/// A bullish engulfing, then a bullish candle closing above the engulfing
/// close.
pub open spec fn three_outside_up<C: CandleStick>(p2: C, p1: C, c: C) -> bool {
    &&& bearish(p2)
    &&& bullish(p1)
    &&& p1.open_spec() < p2.close_spec()
    &&& p1.close_spec() > p2.open_spec()
    &&& bullish(c)
    &&& c.close_spec() > p1.close_spec()
}

/// A bearish engulfing, then a bearish candle closing below the engulfing
/// close.
pub open spec fn three_outside_down<C: CandleStick>(p2: C, p1: C, c: C) -> bool {
    &&& bullish(p2)
    &&& bearish(p1)
    &&& p1.open_spec() > p2.close_spec()
    &&& p1.close_spec() < p2.open_spec()
    &&& bearish(c)
    &&& c.close_spec() < p1.close_spec()
}

/// Strictly lower highs and strictly lower lows over three candles.
pub open spec fn downtrend<C: CandleStick>(c2: C, c1: C, c0: C) -> bool {
    &&& c0.high_spec() < c1.high_spec()
    &&& c1.high_spec() < c2.high_spec()
    &&& c0.low_spec() < c1.low_spec()
    &&& c1.low_spec() < c2.low_spec()
}

/// Strictly higher highs and strictly higher lows over three candles.
pub open spec fn uptrend<C: CandleStick>(c2: C, c1: C, c0: C) -> bool {
    &&& c0.high_spec() > c1.high_spec()
    &&& c1.high_spec() > c2.high_spec()
    &&& c0.low_spec() > c1.low_spec()
    &&& c1.low_spec() > c2.low_spec()
}

} // verus!
