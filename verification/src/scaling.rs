//! Detection does not depend on the price scale: multiplying every price of
//! the candles by the same positive factor leaves each pattern as it was.
use vstd::prelude::*;
use crate::candle::{
    CandleStick,
    RATIO_SCALE,
    abs,
    above_midpoint,
    bearish,
    bearish_marubozu,
    below_midpoint,
    body_size,
    bullish,
    bullish_marubozu,
    doji,
    lower_shadow,
    max,
    min,
    price_range,
    ratio_above,
    ratio_below,
    upper_shadow,
};
use crate::patterns::{
    body_bottom,
    body_top,
    larger_range,
    advance_block,
    bearish_abandoned_baby,
    bearish_doji_star,
    bearish_engulfing,
    bearish_harami,
    bearish_harami_cross,
    bearish_kicker,
    bearish_three_line_strike,
    bearish_tri_star,
    bullish_abandoned_baby,
    bullish_doji_star,
    bullish_engulfing,
    bullish_harami,
    bullish_harami_cross,
    bullish_kicker,
    bullish_three_line_strike,
    bullish_tri_star,
    dark_cloud_cover,
    deliberation,
    downtrend,
    evening_star,
    evening_star_doji,
    morning_star,
    morning_star_doji,
    piercing_line,
    three_black_crows,
    three_inside_down,
    three_inside_up,
    three_outside_down,
    three_outside_up,
    three_white_soldiers,
    tweezer_bottom,
    tweezer_top,
    uptrend,
};

verus! {

/// A candle tuple `(open, high, low, close, volume)`.
pub type Quote = (i64, i64, i64, i64, i64);

/// `x` scaled by `k`.
pub open spec fn times(x: int, k: int) -> int {
    x * k
}

pub open spec fn fits_i64(x: int) -> bool {
    i64::MIN <= x <= i64::MAX
}

/// The candle with each price multiplied by `k`; the volume is kept.
pub open spec fn scaled(c: Quote, k: int) -> Quote {
    (
        times(c.0 as int, k) as i64,
        times(c.1 as int, k) as i64,
        times(c.2 as int, k) as i64,
        times(c.3 as int, k) as i64,
        c.4,
    )
}

/// `k` is positive and every price of `c` times `k` is an `i64`.
pub open spec fn scalable(c: Quote, k: int) -> bool {
    &&& k > 0
    &&& fits_i64(times(c.0 as int, k))
    &&& fits_i64(times(c.1 as int, k))
    &&& fits_i64(times(c.2 as int, k))
    &&& fits_i64(times(c.3 as int, k))
}

proof fn lemma_mul_lt(a: int, b: int, k: int)
    by (nonlinear_arith)
    requires
        k > 0,
    ensures
        (a * k < b * k) == (a < b),
        (a * k <= b * k) == (a <= b),
{
}

/// Scaling by a positive factor keeps the order of any two scaled values.
proof fn lemma_times_order(k: int)
    requires
        k > 0,
    ensures
        forall|a: int, b: int|
            #![trigger times(a, k), times(b, k)]
            (times(a, k) < times(b, k)) == (a < b),
{
    assert forall|a: int, b: int|
        #![trigger times(a, k), times(b, k)]
        (times(a, k) < times(b, k)) == (a < b) by {
        lemma_mul_lt(a, b, k);
    }
}

proof fn lemma_times_linear(a: int, b: int, k: int)
    by (nonlinear_arith)
    ensures
        times(a, k) - times(b, k) == times(a - b, k),
        times(a, k) + times(b, k) == times(a + b, k),
        2 * times(a, k) == times(2 * a, k),
{
}

proof fn lemma_times_abs(d: int, k: int)
    requires
        k > 0,
    ensures
        abs(times(d, k)) == times(abs(d), k),
{
    lemma_mul_lt(d, 0, k);
    lemma_times_linear(0, d, k);
}

proof fn lemma_times_max_min(a: int, b: int, k: int)
    requires
        k > 0,
    ensures
        max(times(a, k), times(b, k)) == times(max(a, b), k),
        min(times(a, k), times(b, k)) == times(min(a, b), k),
{
    lemma_mul_lt(a, b, k);
}

/// Comparing `a / b` with a ratio gives the same answer for `a * k` and
/// `b * k`.
proof fn lemma_times_ratio(a: int, b: int, r: int, k: int)
    requires
        k > 0,
    ensures
        ratio_below(times(a, k), times(b, k), r) == ratio_below(a, b, r),
        ratio_above(times(a, k), times(b, k), r) == ratio_above(a, b, r),
{
    lemma_mul_lt(b, 0, k);
    lemma_mul_lt(0, b, k);
    lemma_mul_lt(0, a, k);
    assert(times(a, k) * RATIO_SCALE == (a * RATIO_SCALE) * k) by (nonlinear_arith);
    assert(r * times(b, k) == (r * b) * k) by (nonlinear_arith);
    lemma_mul_lt(a * RATIO_SCALE, r * b, k);
    lemma_mul_lt(r * b, a * RATIO_SCALE, k);
}

/// Comparing with a midpoint gives the same answer after scaling.
proof fn lemma_times_midpoint(x: int, a: int, b: int, k: int)
    requires
        k > 0,
    ensures
        below_midpoint(times(x, k), times(a, k), times(b, k)) == below_midpoint(x, a, b),
        above_midpoint(times(x, k), times(a, k), times(b, k)) == above_midpoint(x, a, b),
{
    lemma_times_linear(a, b, k);
    lemma_times_linear(x, x, k);
    lemma_mul_lt(2 * x, a + b, k);
    lemma_mul_lt(a + b, 2 * x, k);
}

/// The measures of a scaled candle are the measures of the candle, scaled;
/// its classifications are those of the candle.
proof fn lemma_scaled_candle(c: Quote, k: int)
    requires
        scalable(c, k),
    ensures
        scaled(c, k).open_spec() == times(c.0 as int, k),
        scaled(c, k).high_spec() == times(c.1 as int, k),
        scaled(c, k).low_spec() == times(c.2 as int, k),
        scaled(c, k).close_spec() == times(c.3 as int, k),
        body_size(scaled(c, k)) == times(body_size(c), k),
        price_range(scaled(c, k)) == times(price_range(c), k),
        upper_shadow(scaled(c, k)) == times(upper_shadow(c), k),
        lower_shadow(scaled(c, k)) == times(lower_shadow(c), k),
        body_top(scaled(c, k)) == times(body_top(c), k),
        body_bottom(scaled(c, k)) == times(body_bottom(c), k),
        bullish(scaled(c, k)) == bullish(c),
        bearish(scaled(c, k)) == bearish(c),
        doji(scaled(c, k)) == doji(c),
        bullish_marubozu(scaled(c, k)) == bullish_marubozu(c),
        bearish_marubozu(scaled(c, k)) == bearish_marubozu(c),
        forall|r: int|
            #[trigger] ratio_below(body_size(scaled(c, k)), price_range(scaled(c, k)), r)
                == ratio_below(body_size(c), price_range(c), r),
        forall|r: int|
            #[trigger] ratio_above(body_size(scaled(c, k)), price_range(scaled(c, k)), r)
                == ratio_above(body_size(c), price_range(c), r),
{
    let s = scaled(c, k);
    let o: int = c.0 as int;
    let h: int = c.1 as int;
    let l: int = c.2 as int;
    let cl: int = c.3 as int;
    lemma_times_order(k);
    lemma_times_linear(cl, o, k);
    lemma_times_linear(h, l, k);
    lemma_times_abs(cl - o, k);
    lemma_times_max_min(o, cl, k);
    lemma_times_linear(h, max(o, cl), k);
    lemma_times_linear(min(o, cl), l, k);
    let b: int = body_size(c);
    let rg: int = price_range(c);
    // doji: body * SCALE <= ratio * range
    lemma_mul_lt(b * RATIO_SCALE, c.doji_ratio_spec() * rg, k);
    lemma_mul_lt(c.doji_ratio_spec() * rg, b * RATIO_SCALE, k);
    assert(times(b, k) * RATIO_SCALE == (b * RATIO_SCALE) * k) by (nonlinear_arith);
    assert(c.doji_ratio_spec() * times(rg, k) == (c.doji_ratio_spec() * rg) * k)
        by (nonlinear_arith);
    assert(doji(s) == doji(c));
    // marubozu: each shadow * SCALE <= ratio * body
    let mr: int = c.marubozu_ratio_spec() as int;
    let w: int = upper_shadow(c);
    let t: int = lower_shadow(c);
    assert(times(w, k) * RATIO_SCALE == (w * RATIO_SCALE) * k) by (nonlinear_arith);
    assert(times(t, k) * RATIO_SCALE == (t * RATIO_SCALE) * k) by (nonlinear_arith);
    assert(mr * times(b, k) == (mr * b) * k) by (nonlinear_arith);
    lemma_mul_lt(w * RATIO_SCALE, mr * b, k);
    lemma_mul_lt(mr * b, w * RATIO_SCALE, k);
    lemma_mul_lt(t * RATIO_SCALE, mr * b, k);
    lemma_mul_lt(mr * b, t * RATIO_SCALE, k);
    assert forall|r: int|
        #[trigger] ratio_below(body_size(s), price_range(s), r) == ratio_below(b, rg, r) by {
        lemma_times_ratio(b, rg, r, k);
    }
    assert forall|r: int|
        #[trigger] ratio_above(body_size(s), price_range(s), r) == ratio_above(b, rg, r) by {
        lemma_times_ratio(b, rg, r, k);
    }
}

/// Scaling every price of two candles by the same positive factor leaves
/// every two-candle pattern as it was.
pub proof fn law_two_candle_patterns_scale_free(p: Quote, c: Quote, k: int)
    requires
        scalable(p, k),
        scalable(c, k),
    ensures
        ({
            let (sp, sc) = (scaled(p, k), scaled(c, k));
            &&& bullish_doji_star(sp, sc) == bullish_doji_star(p, c)
            &&& bearish_doji_star(sp, sc) == bearish_doji_star(p, c)
            &&& bullish_engulfing(sp, sc) == bullish_engulfing(p, c)
            &&& bearish_engulfing(sp, sc) == bearish_engulfing(p, c)
            &&& bullish_kicker(sp, sc) == bullish_kicker(p, c)
            &&& bearish_kicker(sp, sc) == bearish_kicker(p, c)
            &&& bullish_harami(sp, sc) == bullish_harami(p, c)
            &&& bearish_harami(sp, sc) == bearish_harami(p, c)
            &&& bullish_harami_cross(sp, sc) == bullish_harami_cross(p, c)
            &&& bearish_harami_cross(sp, sc) == bearish_harami_cross(p, c)
            &&& dark_cloud_cover(sp, sc) == dark_cloud_cover(p, c)
            &&& piercing_line(sp, sc) == piercing_line(p, c)
            &&& tweezer_top(sp, sc) == tweezer_top(p, c)
            &&& tweezer_bottom(sp, sc) == tweezer_bottom(p, c)
        }),
{
    lemma_times_order(k);
    lemma_scaled_candle(p, k);
    lemma_scaled_candle(c, k);
    lemma_times_midpoint(c.3 as int, p.0 as int, p.3 as int, k);
    lemma_times_max_min(price_range(p), price_range(c), k);
    lemma_times_linear(p.1 as int, c.1 as int, k);
    lemma_times_abs(p.1 - c.1, k);
    lemma_times_ratio(abs(p.1 - c.1), larger_range(p, c), c.tweezer_tolerance_spec() as int, k);
    lemma_times_linear(p.2 as int, c.2 as int, k);
    lemma_times_abs(p.2 - c.2, k);
    lemma_times_ratio(abs(p.2 - c.2), larger_range(p, c), c.tweezer_tolerance_spec() as int, k);
}

/// Scaling every price of three candles by the same positive factor leaves
/// every three-candle pattern, and the trends, as they were.
pub proof fn law_three_candle_patterns_scale_free(p2: Quote, p1: Quote, c: Quote, k: int)
    requires
        scalable(p2, k),
        scalable(p1, k),
        scalable(c, k),
    ensures
        ({
            let (s2, s1, sc) = (scaled(p2, k), scaled(p1, k), scaled(c, k));
            &&& evening_star(s2, s1, sc) == evening_star(p2, p1, c)
            &&& evening_star_doji(s2, s1, sc) == evening_star_doji(p2, p1, c)
            &&& morning_star(s2, s1, sc) == morning_star(p2, p1, c)
            &&& morning_star_doji(s2, s1, sc) == morning_star_doji(p2, p1, c)
            &&& bullish_abandoned_baby(s2, s1, sc) == bullish_abandoned_baby(p2, p1, c)
            &&& bearish_abandoned_baby(s2, s1, sc) == bearish_abandoned_baby(p2, p1, c)
            &&& bullish_tri_star(s2, s1, sc) == bullish_tri_star(p2, p1, c)
            &&& bearish_tri_star(s2, s1, sc) == bearish_tri_star(p2, p1, c)
            &&& three_white_soldiers(s2, s1, sc) == three_white_soldiers(p2, p1, c)
            &&& three_black_crows(s2, s1, sc) == three_black_crows(p2, p1, c)
            &&& advance_block(s2, s1, sc) == advance_block(p2, p1, c)
            &&& deliberation(s2, s1, sc) == deliberation(p2, p1, c)
            &&& three_inside_up(s2, s1, sc) == three_inside_up(p2, p1, c)
            &&& three_inside_down(s2, s1, sc) == three_inside_down(p2, p1, c)
            &&& three_outside_up(s2, s1, sc) == three_outside_up(p2, p1, c)
            &&& three_outside_down(s2, s1, sc) == three_outside_down(p2, p1, c)
            &&& downtrend(s2, s1, sc) == downtrend(p2, p1, c)
            &&& uptrend(s2, s1, sc) == uptrend(p2, p1, c)
        }),
{
    lemma_times_order(k);
    lemma_scaled_candle(p2, k);
    lemma_scaled_candle(p1, k);
    lemma_scaled_candle(c, k);
    lemma_times_midpoint(c.3 as int, p2.0 as int, p2.3 as int, k);
    lemma_times_max_min(body_bottom(p2), body_bottom(c), k);
    lemma_times_max_min(body_top(p2), body_top(c), k);
}

/// Scaling every price of four candles by the same positive factor leaves
/// both three line strikes as they were.
pub proof fn law_four_candle_patterns_scale_free(c1: Quote, c2: Quote, c3: Quote, c4: Quote, k: int)
    requires
        scalable(c1, k),
        scalable(c2, k),
        scalable(c3, k),
        scalable(c4, k),
    ensures
        ({
            let (s1, s2, s3, s4) = (scaled(c1, k), scaled(c2, k), scaled(c3, k), scaled(c4, k));
            &&& bullish_three_line_strike(s1, s2, s3, s4) == bullish_three_line_strike(c1, c2, c3, c4)
            &&& bearish_three_line_strike(s1, s2, s3, s4) == bearish_three_line_strike(c1, c2, c3, c4)
        }),
{
    lemma_times_order(k);
    lemma_scaled_candle(c1, k);
    lemma_scaled_candle(c2, k);
    lemma_scaled_candle(c3, k);
    lemma_scaled_candle(c4, k);
}

} // verus!
