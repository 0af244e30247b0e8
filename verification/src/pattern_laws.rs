//! What each pattern means, stated from the candles' prices alone: which
//! way each candle moves, where its body lies against its neighbours'
//! bodies, highs and lows, and how large its body is against its range.
use vstd::prelude::*;
use crate::candle::{
    CandleStick,
    RATIO_SCALE,
    bearish,
    bearish_marubozu,
    bullish,
    bullish_marubozu,
    doji,
};
use crate::patterns::{
    advance_block,
    bearish_abandoned_baby,
    bearish_doji_star,
    bearish_engulfing,
    bearish_harami,
    bearish_harami_cross,
    bearish_kicker,
    bearish_three_line_strike,
    bearish_tri_star,
    bullish_abandoned_baby,
    bullish_doji_star,
    bullish_engulfing,
    bullish_harami,
    bullish_harami_cross,
    bullish_kicker,
    bullish_three_line_strike,
    bullish_tri_star,
    dark_cloud_cover,
    deliberation,
    downtrend,
    evening_star,
    evening_star_doji,
    morning_star,
    morning_star_doji,
    piercing_line,
    three_black_crows,
    three_inside_down,
    three_inside_up,
    three_outside_down,
    three_outside_up,
    three_white_soldiers,
    tweezer_bottom,
    tweezer_top,
    uptrend,
};

verus! {

/// The candle closes above its open.
pub open spec fn rises<C: CandleStick>(c: C) -> bool {
    c.close_spec() > c.open_spec()
}

/// The candle closes below its open.
pub open spec fn falls<C: CandleStick>(c: C) -> bool {
    c.close_spec() < c.open_spec()
}

/// Upper end of the body.
pub open spec fn top_of<C: CandleStick>(c: C) -> int {
    if c.open_spec() < c.close_spec() {
        c.close_spec() as int
    } else {
        c.open_spec() as int
    }
}

/// Lower end of the body.
pub open spec fn bottom_of<C: CandleStick>(c: C) -> int {
    if c.open_spec() < c.close_spec() {
        c.open_spec() as int
    } else {
        c.close_spec() as int
    }
}

/// Length of the body.
pub open spec fn body_len<C: CandleStick>(c: C) -> int {
    top_of(c) - bottom_of(c)
}

/// Distance from low to high.
pub open spec fn span<C: CandleStick>(c: C) -> int {
    c.high_spec() - c.low_spec()
}

/// Open and close lie between low and high.
pub open spec fn well_formed<C: CandleStick>(c: C) -> bool {
    &&& c.low_spec() <= c.open_spec() <= c.high_spec()
    &&& c.low_spec() <= c.close_spec() <= c.high_spec()
}

/// The body takes at most `doji_ratio` basis points of the range.
pub open spec fn flat<C: CandleStick>(c: C) -> bool {
    body_len(c) * RATIO_SCALE <= c.doji_ratio_spec() * span(c)
}

/// The body takes less than `spinning_top_body_ratio` basis points of the
/// range.
pub open spec fn small_body<C: CandleStick>(c: C) -> bool {
    body_len(c) * RATIO_SCALE < c.spinning_top_body_ratio_spec() * span(c)
}

/// Each shadow takes at most `marubozu_ratio` basis points of the body.
pub open spec fn shaved<C: CandleStick>(c: C) -> bool {
    &&& (c.high_spec() - top_of(c)) * RATIO_SCALE <= c.marubozu_ratio_spec() * body_len(c)
    &&& (bottom_of(c) - c.low_spec()) * RATIO_SCALE <= c.marubozu_ratio_spec() * body_len(c)
}

/// The body of `inner` lies strictly inside the body of `outer`.
pub open spec fn body_inside<C: CandleStick>(inner: C, outer: C) -> bool {
    bottom_of(outer) < bottom_of(inner) && top_of(inner) < top_of(outer)
}

/// The candle classifications, from the prices and the ratios.
pub proof fn law_candle_classes<C: CandleStick>(c: C)
    ensures
        bullish(c) <==> rises(c),
        bearish(c) <==> falls(c),
        doji(c) <==> flat(c),
        bullish_marubozu(c) <==> rises(c) && shaved(c),
        bearish_marubozu(c) <==> falls(c) && shaved(c),
{
}

/// Doji star: after a falling (rising) candle, a flat candle whose whole
/// range lies below that candle's low (above its high).
pub proof fn law_doji_star_meaning<C: CandleStick>(p: C, c: C)
    ensures
        bullish_doji_star(p, c) <==> falls(p) && flat(c) && c.high_spec() < p.low_spec(),
        bearish_doji_star(p, c) <==> rises(p) && flat(c) && c.low_spec() > p.high_spec(),
{
}

/// Engulfing: a candle moving against the previous one whose body strictly
/// contains the previous body.
pub proof fn law_engulfing_meaning<C: CandleStick>(p: C, c: C)
    ensures
        bullish_engulfing(p, c) <==> falls(p) && rises(c) && body_inside(p, c),
        bearish_engulfing(p, c) <==> rises(p) && falls(c) && body_inside(p, c),
{
}

/// Harami: a candle moving against the previous one whose body lies
/// strictly inside the previous body.
pub proof fn law_harami_meaning<C: CandleStick>(p: C, c: C)
    ensures
        bullish_harami(p, c) <==> falls(p) && rises(c) && body_inside(c, p),
        bearish_harami(p, c) <==> rises(p) && falls(c) && body_inside(c, p),
{
}

/// Harami cross: a flat candle whose body lies strictly inside the body of
/// a falling (bullish cross) or rising (bearish cross) candle before it.
pub proof fn law_harami_cross_meaning<C: CandleStick>(p: C, c: C)
    ensures
        bullish_harami_cross(p, c) <==> falls(p) && flat(c) && body_inside(c, p),
        bearish_harami_cross(p, c) <==> rises(p) && flat(c) && body_inside(c, p),
{
}

/// Kicker: two shaved candles moving in opposite directions whose bodies
/// do not overlap, the newer body starting where the older one started or
/// beyond.
pub proof fn law_kicker_meaning<C: CandleStick>(p: C, c: C)
    ensures
        bullish_kicker(p, c) <==> falls(p) && shaved(p) && rises(c) && shaved(c) && bottom_of(c)
            >= top_of(p),
        bearish_kicker(p, c) <==> rises(p) && shaved(p) && falls(c) && shaved(c) && top_of(c)
            <= bottom_of(p),
{
}

/// Dark cloud cover: after a rising candle, a falling one that opens above
/// the top of its body and closes below the middle of that body. Piercing
/// line: after a falling candle, a rising one that opens below the bottom
/// of its body and closes above the middle of that body, but below its top.
pub proof fn law_cloud_and_piercing_meaning<C: CandleStick>(p: C, c: C)
    ensures
        dark_cloud_cover(p, c) <==> rises(p) && falls(c) && c.open_spec() > top_of(p) && 2
            * c.close_spec() < p.open_spec() + p.close_spec(),
        piercing_line(p, c) <==> falls(p) && rises(c) && c.open_spec() < bottom_of(p) && 2
            * c.close_spec() > p.open_spec() + p.close_spec() && c.close_spec() < top_of(p),
{
}

/// Tweezers: a rising then a falling candle (top), or a falling then a
/// rising one (bottom), whose highs (lows) differ by less than the newer
/// candle's tolerance of the larger range.
pub proof fn law_tweezer_meaning<C: CandleStick>(p: C, c: C)
    requires
        well_formed(p),
        well_formed(c),
    ensures
        tweezer_top(p, c) <==> rises(p) && falls(c) && ({
            let gap = if p.high_spec() < c.high_spec() {
                c.high_spec() - p.high_spec()
            } else {
                p.high_spec() - c.high_spec()
            };
            let larger = if span(p) < span(c) {
                span(c)
            } else {
                span(p)
            };
            gap * RATIO_SCALE < c.tweezer_tolerance_spec() * larger
        }),
        tweezer_bottom(p, c) <==> falls(p) && rises(c) && ({
            let gap = if p.low_spec() < c.low_spec() {
                c.low_spec() - p.low_spec()
            } else {
                p.low_spec() - c.low_spec()
            };
            let larger = if span(p) < span(c) {
                span(c)
            } else {
                span(p)
            };
            gap * RATIO_SCALE < c.tweezer_tolerance_spec() * larger
        }),
{
}

/// Stars: a candle, a middle candle that is flat or small-bodied, then a
/// candle moving the other way and closing beyond the middle of the first
/// body (below it for the evening star, above it for the morning star).
/// The doji variants ask for a flat middle candle.
pub proof fn law_star_meaning<C: CandleStick>(p2: C, p1: C, c: C)
    requires
        well_formed(p1),
    ensures
        evening_star(p2, p1, c) <==> rises(p2) && (flat(p1) || small_body(p1)) && falls(c) && 2
            * c.close_spec() < p2.open_spec() + p2.close_spec(),
        morning_star(p2, p1, c) <==> falls(p2) && (flat(p1) || small_body(p1)) && rises(c) && 2
            * c.close_spec() > p2.open_spec() + p2.close_spec(),
        evening_star_doji(p2, p1, c) <==> rises(p2) && flat(p1) && falls(c) && 2 * c.close_spec()
            < p2.open_spec() + p2.close_spec(),
        morning_star_doji(p2, p1, c) <==> falls(p2) && flat(p1) && rises(c) && 2 * c.close_spec()
            > p2.open_spec() + p2.close_spec(),
{
}

/// Abandoned baby: a flat candle isolated by gaps on both sides, between a
/// falling and a rising candle (bullish) or a rising and a falling one
/// (bearish).
pub proof fn law_abandoned_baby_meaning<C: CandleStick>(p2: C, p1: C, c: C)
    ensures
        bullish_abandoned_baby(p2, p1, c) <==> falls(p2) && flat(p1) && rises(c) && p1.high_spec()
            < p2.low_spec() && p1.high_spec() < c.low_spec(),
        bearish_abandoned_baby(p2, p1, c) <==> rises(p2) && flat(p1) && falls(c) && p1.low_spec()
            > p2.high_spec() && p1.low_spec() > c.high_spec(),
{
}

/// Tri-star: three flat candles, the middle body strictly below (bullish)
/// or above (bearish) both outer bodies.
pub proof fn law_tri_star_meaning<C: CandleStick>(p2: C, p1: C, c: C)
    ensures
        bullish_tri_star(p2, p1, c) <==> flat(p2) && flat(p1) && flat(c) && top_of(p1) < bottom_of(
            p2,
        ) && top_of(p1) < bottom_of(c),
        bearish_tri_star(p2, p1, c) <==> flat(p2) && flat(p1) && flat(c) && bottom_of(p1) > top_of(
            p2,
        ) && bottom_of(p1) > top_of(c),
{
}

/// Three white soldiers: three rising candles, each opening and closing
/// above the previous close. Three black crows: three falling candles, each
/// opening and closing below the previous close.
pub proof fn law_soldiers_and_crows_meaning<C: CandleStick>(p2: C, p1: C, c: C)
    ensures
        three_white_soldiers(p2, p1, c) <==> rises(p2) && rises(p1) && rises(c) && p1.open_spec()
            > p2.close_spec() && c.open_spec() > p1.close_spec(),
        three_black_crows(p2, p1, c) <==> falls(p2) && falls(p1) && falls(c) && p1.open_spec()
            < p2.close_spec() && c.open_spec() < p1.close_spec(),
{
}

/// Three line strike: three white soldiers (black crows), then a candle
/// moving the other way whose body strictly covers all three bodies.
pub proof fn law_three_line_strike_meaning<C: CandleStick>(c1: C, c2: C, c3: C, c4: C)
    ensures
        bullish_three_line_strike(c1, c2, c3, c4) <==> rises(c1) && rises(c2) && rises(c3)
            && c2.open_spec() > c1.close_spec() && c3.open_spec() > c2.close_spec() && falls(c4)
            && bottom_of(c4) < bottom_of(c1) && top_of(c4) > top_of(c3),
        bearish_three_line_strike(c1, c2, c3, c4) <==> falls(c1) && falls(c2) && falls(c3)
            && c2.open_spec() < c1.close_spec() && c3.open_spec() < c2.close_spec() && rises(c4)
            && top_of(c4) > top_of(c1) && bottom_of(c4) < bottom_of(c3),
        bullish_three_line_strike(c1, c2, c3, c4) ==> c4.open_spec() > c3.close_spec()
            && c4.close_spec() < c1.open_spec(),
        bearish_three_line_strike(c1, c2, c3, c4) ==> c4.open_spec() < c3.close_spec()
            && c4.close_spec() > c1.open_spec(),
{
}

/// Advance block: three rising candles, each opening above the previous
/// close, with strictly shrinking bodies and strictly growing upper shadows.
pub proof fn law_advance_block_meaning<C: CandleStick>(c1: C, c2: C, c3: C)
    ensures
        advance_block(c1, c2, c3) <==> rises(c1) && rises(c2) && rises(c3) && c2.open_spec()
            > c1.close_spec() && c3.open_spec() > c2.close_spec() && body_len(c1) > body_len(c2)
            && body_len(c2) > body_len(c3) && c2.high_spec() - c2.close_spec() > c1.high_spec()
            - c1.close_spec() && c3.high_spec() - c3.close_spec() > c2.high_spec()
            - c2.close_spec(),
{
}

/// Deliberation: two rising candles whose bodies take more than one less
/// the first candle's marubozu ratio of their ranges, the second closing
/// higher, then a small-bodied rising candle opening at or above the second
/// close and closing above it.
pub proof fn law_deliberation_meaning<C: CandleStick>(c1: C, c2: C, c3: C)
    requires
        well_formed(c1),
        well_formed(c2),
        well_formed(c3),
    ensures
        deliberation(c1, c2, c3) <==> rises(c1) && rises(c2) && rises(c3) && body_len(c1)
            * RATIO_SCALE > (RATIO_SCALE - c1.marubozu_ratio_spec()) * span(c1) && body_len(c2)
            * RATIO_SCALE > (RATIO_SCALE - c1.marubozu_ratio_spec()) * span(c2) && c2.close_spec()
            > c1.close_spec() && small_body(c3) && c3.open_spec() >= c2.close_spec()
            && c3.close_spec() > c2.close_spec(),
{
}

/// Three inside: a harami, then a candle that is not flat, moves the
/// harami's way and closes beyond the harami's close. Three outside: an
/// engulfing, then a candle moving its way and closing beyond its close.
pub proof fn law_three_inside_outside_meaning<C: CandleStick>(p2: C, p1: C, c: C)
    ensures
        three_inside_up(p2, p1, c) <==> falls(p2) && rises(p1) && body_inside(p1, p2) && rises(c)
            && !flat(c) && c.close_spec() > p1.close_spec(),
        three_inside_down(p2, p1, c) <==> rises(p2) && falls(p1) && body_inside(p1, p2) && falls(c)
            && !flat(c) && c.close_spec() < p1.close_spec(),
        three_outside_up(p2, p1, c) <==> falls(p2) && rises(p1) && body_inside(p2, p1) && rises(c)
            && c.close_spec() > p1.close_spec(),
        three_outside_down(p2, p1, c) <==> rises(p2) && falls(p1) && body_inside(p2, p1) && falls(
            c,
        ) && c.close_spec() < p1.close_spec(),
{
}

/// Trends: strictly falling highs and lows (downtrend), strictly rising
/// highs and lows (uptrend), oldest to newest.
pub proof fn law_trend_meaning<C: CandleStick>(c2: C, c1: C, c0: C)
    ensures
        downtrend(c2, c1, c0) <==> c2.high_spec() > c1.high_spec() > c0.high_spec()
            && c2.low_spec() > c1.low_spec() > c0.low_spec(),
        uptrend(c2, c1, c0) <==> c2.high_spec() < c1.high_spec() < c0.high_spec()
            && c2.low_spec() < c1.low_spec() < c0.low_spec(),
{
}

} // verus!
