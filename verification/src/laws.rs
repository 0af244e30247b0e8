//! Properties of the stream and of the patterns that hold for all inputs.
use vstd::prelude::*;
use crate::candle::{
    CandleStick,
    bearish,
    bullish,
    above_midpoint,
    min,
};
use crate::candle_stream::{CandleStream, SERIES_SIZE, back, nth_back, window_after_push};
use crate::patterns::{
    body_bottom,
    body_top,
    advance_block,
    bearish_abandoned_baby,
    bearish_doji_star,
    bearish_engulfing,
    bearish_harami,
    bearish_harami_cross,
    bearish_kicker,
    bearish_three_line_strike,
    bearish_tri_star,
    bullish_abandoned_baby,
    bullish_doji_star,
    bullish_engulfing,
    bullish_harami,
    bullish_harami_cross,
    bullish_kicker,
    bullish_three_line_strike,
    bullish_tri_star,
    dark_cloud_cover,
    downtrend,
    evening_star,
    evening_star_doji,
    morning_star,
    morning_star_doji,
    piercing_line,
    three_black_crows,
    three_inside_down,
    three_inside_up,
    three_outside_down,
    three_outside_up,
    three_white_soldiers,
    tweezer_bottom,
    tweezer_top,
    uptrend,
};

verus! {

/// The newest `SERIES_SIZE` of `candles` (all of them when there are
/// fewer), oldest first.
pub open spec fn window_of<T>(candles: Seq<T>) -> Seq<T> {
    if candles.len() > SERIES_SIZE {
        candles.subrange(candles.len() - SERIES_SIZE, candles.len() as int)
    } else {
        candles
    }
}

/// A stream holds the last `SERIES_SIZE` candles pushed onto it, in the
/// order they were pushed: the empty stream holds the window of no
/// candles, and pushing a candle onto the window of `candles` gives the
/// window of `candles` followed by that candle.
pub proof fn law_stream_holds_last_pushed<T>(candles: Seq<T>, candle: T)
    ensures
        window_of(Seq::<T>::empty()) == Seq::<T>::empty(),
        window_after_push(window_of(candles), candle) == window_of(candles.push(candle)),
{
    let w = window_of(candles);
    let lhs = window_after_push(w, candle);
    let rhs = window_of(candles.push(candle));
    assert(lhs.len() == rhs.len());
    assert forall|k: int| 0 <= k < lhs.len() implies lhs[k] == rhs[k] by {}
    assert(lhs =~= rhs);
}

/// What a stream built by pushing `candles` reads back: the candle `n`
/// places before the newest is the candle pushed `n` pushes before the last
/// one, for the `SERIES_SIZE` newest pushes; older candles read as absent.
pub proof fn law_read_history<T>(candles: Seq<T>, n: int)
    requires
        0 <= n,
    ensures
        n < candles.len() && n < SERIES_SIZE ==> nth_back(window_of(candles), n) == Some(
            candles[candles.len() - 1 - n],
        ) && back(window_of(candles), n) == candles[candles.len() - 1 - n],
        n >= candles.len() || n >= SERIES_SIZE ==> nth_back(window_of(candles), n) is None,
        window_of(candles).len() == min(candles.len() as int, SERIES_SIZE as int),
{
}

/// The ring buffer after `m` pushes onto a new stream: `SERIES_SIZE`
/// slots, the cursor at `m % SERIES_SIZE`, and slot `j` written exactly
/// when `j < min(m, SERIES_SIZE)`.
pub open spec fn slots_after_pushes<T>(s: CandleStream<T>, m: nat) -> bool {
    &&& s.slots().len() == SERIES_SIZE
    &&& s.cursor() == m % (SERIES_SIZE as nat)
    &&& forall|j: int|
        0 <= j < SERIES_SIZE ==> (#[trigger] s.slots()[j] is Some <==> j < min(
            m as int,
            SERIES_SIZE as int,
        ))
}

/// A new stream is in the state of no pushes.
pub proof fn law_new_stream_slots<T>(s: CandleStream<T>)
    requires
        s.cursor() == 0,
        s.slots().len() == SERIES_SIZE,
        forall|i: int| 0 <= i < SERIES_SIZE ==> #[trigger] s.slots()[i] is None,
    ensures
        slots_after_pushes(s, 0),
{
}

/// A push takes the state of `m` pushes to the state of `m + 1` pushes:
/// the write position never leaves the buffer, the pushed candle sits in
/// the slot the cursor pointed at, and every other slot is unchanged.
pub proof fn law_push_advances_slots<T>(
    before: CandleStream<T>,
    after: CandleStream<T>,
    candle: T,
    m: nat,
)
    requires
        slots_after_pushes(before, m),
        after.slots() == before.slots().update(before.cursor() as int, Some(candle)),
        after.cursor() == (before.cursor() + 1) % (SERIES_SIZE as nat),
    ensures
        slots_after_pushes(after, m + 1),
        after.slots()[before.cursor() as int] == Some(candle),
        forall|j: int|
            0 <= j < SERIES_SIZE && j != before.cursor() ==> #[trigger] after.slots()[j]
                == before.slots()[j],
{
    assert(after.cursor() == (m + 1) % (SERIES_SIZE as nat));
    assert forall|j: int| 0 <= j < SERIES_SIZE implies (#[trigger] after.slots()[j] is Some <==> j
        < min((m + 1) as int, SERIES_SIZE as int)) by {
        if m < SERIES_SIZE {
            assert(before.cursor() == m);
        }
    }
}

/// Reading after a push: the pushed candle is the newest, and every candle
/// that stays in the window moves back by one place.
pub proof fn law_push_then_read<T>(window: Seq<T>, candle: T)
    requires
        window.len() <= SERIES_SIZE,
    ensures
        nth_back(window_after_push(window, candle), 0) == Some(candle),
        forall|n: int|
            0 <= n < SERIES_SIZE - 1 ==> #[trigger] nth_back(window_after_push(window, candle), n + 1)
                == nth_back(window, n),
        nth_back(window_after_push(window, candle), SERIES_SIZE as int) is None,
        window_after_push(window, candle).len() == if window.len() < SERIES_SIZE {
            window.len() + 1
        } else {
            SERIES_SIZE as nat
        },
{
}

/// A bullish and a bearish two-candle pattern of the same kind never hold
/// of the same two candles.
pub proof fn law_two_candle_mirrors_exclusive<C: CandleStick>(p: C, c: C)
    ensures
        !(bullish_doji_star(p, c) && bearish_doji_star(p, c)),
        !(bullish_engulfing(p, c) && bearish_engulfing(p, c)),
        !(bullish_kicker(p, c) && bearish_kicker(p, c)),
        !(bullish_harami(p, c) && bearish_harami(p, c)),
        !(bullish_harami_cross(p, c) && bearish_harami_cross(p, c)),
        !(piercing_line(p, c) && dark_cloud_cover(p, c)),
        !(tweezer_bottom(p, c) && tweezer_top(p, c)),
{
}

/// A bullish and a bearish three-candle pattern of the same kind never
/// hold of the same three candles, nor do an uptrend and a downtrend.
pub proof fn law_three_candle_mirrors_exclusive<C: CandleStick>(p2: C, p1: C, c: C)
    ensures
        !(morning_star(p2, p1, c) && evening_star(p2, p1, c)),
        !(morning_star_doji(p2, p1, c) && evening_star_doji(p2, p1, c)),
        !(bullish_abandoned_baby(p2, p1, c) && bearish_abandoned_baby(p2, p1, c)),
        !(bullish_tri_star(p2, p1, c) && bearish_tri_star(p2, p1, c)),
        !(three_white_soldiers(p2, p1, c) && three_black_crows(p2, p1, c)),
        !(three_inside_up(p2, p1, c) && three_inside_down(p2, p1, c)),
        !(three_outside_up(p2, p1, c) && three_outside_down(p2, p1, c)),
        !(uptrend(p2, p1, c) && downtrend(p2, p1, c)),
{
}

/// The bullish and the bearish three line strike never hold of the same
/// four candles.
pub proof fn law_three_line_strikes_exclusive<C: CandleStick>(c1: C, c2: C, c3: C, c4: C)
    ensures
        !(bullish_three_line_strike(c1, c2, c3, c4) && bearish_three_line_strike(c1, c2, c3, c4)),
{
}

/// An engulfing and a harami of the same direction never hold of the same
/// two candles, and a piercing line is never a bullish engulfing.
pub proof fn law_engulfing_excludes_harami<C: CandleStick>(p: C, c: C)
    ensures
        !(bullish_engulfing(p, c) && bullish_harami(p, c)),
        !(bearish_engulfing(p, c) && bearish_harami(p, c)),
        !(piercing_line(p, c) && bullish_engulfing(p, c)),
{
}

/// The doji variants of the morning and evening star are morning and
/// evening stars.
pub proof fn law_star_doji_is_star<C: CandleStick>(p2: C, p1: C, c: C)
    ensures
        morning_star_doji(p2, p1, c) ==> morning_star(p2, p1, c),
        evening_star_doji(p2, p1, c) ==> evening_star(p2, p1, c),
{
}

/// An advance block is a three white soldiers formation.
pub proof fn law_advance_block_is_three_white_soldiers<C: CandleStick>(c1: C, c2: C, c3: C)
    ensures
        advance_block(c1, c2, c3) ==> three_white_soldiers(c1, c2, c3),
{
}

/// The first three candles of a three line strike form three white
/// soldiers (bullish strike) or three black crows (bearish strike).
pub proof fn law_three_line_strike_extends_three_soldiers<C: CandleStick>(c1: C, c2: C, c3: C, c4: C)
    ensures
        bullish_three_line_strike(c1, c2, c3, c4) ==> three_white_soldiers(c1, c2, c3),
        bearish_three_line_strike(c1, c2, c3, c4) ==> three_black_crows(c1, c2, c3),
{
}

/// The first two candles of a three inside pattern form a harami, and
/// those of a three outside pattern form an engulfing, of the same
/// direction.
pub proof fn law_three_inside_outside_confirm_two_candle<C: CandleStick>(p2: C, p1: C, c: C)
    ensures
        three_inside_up(p2, p1, c) ==> bullish_harami(p2, p1),
        three_inside_down(p2, p1, c) ==> bearish_harami(p2, p1),
        three_outside_up(p2, p1, c) ==> bullish_engulfing(p2, p1),
        three_outside_down(p2, p1, c) ==> bearish_engulfing(p2, p1),
{
}

/// Across a push: when the stream shows a three line strike after a push,
/// it showed three white soldiers (bullish) or three black crows (bearish)
/// just before; when it shows a three inside or three outside pattern, it
/// showed the harami or engulfing that the pattern confirms.
pub proof fn law_confirmations_across_push<C: CandleStick>(window: Seq<C>, candle: C)
    requires
        window.len() <= SERIES_SIZE,
    ensures
        ({
            let w = window_after_push(window, candle);
            &&& (w.len() >= 4 && bullish_three_line_strike(back(w, 3), back(w, 2), back(w, 1), back(w, 0)))
                ==> (window.len() >= 3 && three_white_soldiers(back(window, 2), back(window, 1), back(window, 0)))
            &&& (w.len() >= 4 && bearish_three_line_strike(back(w, 3), back(w, 2), back(w, 1), back(w, 0)))
                ==> (window.len() >= 3 && three_black_crows(back(window, 2), back(window, 1), back(window, 0)))
            &&& (w.len() >= 3 && three_inside_up(back(w, 2), back(w, 1), back(w, 0)))
                ==> (window.len() >= 2 && bullish_harami(back(window, 1), back(window, 0)))
            &&& (w.len() >= 3 && three_inside_down(back(w, 2), back(w, 1), back(w, 0)))
                ==> (window.len() >= 2 && bearish_harami(back(window, 1), back(window, 0)))
            &&& (w.len() >= 3 && three_outside_up(back(w, 2), back(w, 1), back(w, 0)))
                ==> (window.len() >= 2 && bullish_engulfing(back(window, 1), back(window, 0)))
            &&& (w.len() >= 3 && three_outside_down(back(w, 2), back(w, 1), back(w, 0)))
                ==> (window.len() >= 2 && bearish_engulfing(back(window, 1), back(window, 0)))
        }),
{
    let w = window_after_push(window, candle);
    law_push_then_read(window, candle);
    if w.len() >= 3 {
        assert(back(w, 1) == back(window, 0));
        assert(back(w, 2) == back(window, 1));
    }
    if w.len() >= 4 {
        assert(back(w, 3) == back(window, 2));
    }
}

/// A harami cross whose doji leans the pattern's way is a harami.
pub proof fn law_harami_cross_with_leaning_doji_is_harami<C: CandleStick>(p: C, c: C)
    ensures
        bullish_harami_cross(p, c) && bullish(c) ==> bullish_harami(p, c),
        bearish_harami_cross(p, c) && bearish(c) ==> bearish_harami(p, c),
{
}

/// A bullish abandoned baby whose last candle closes above the midpoint of
/// the first body is a morning star doji; a bearish one whose last candle
/// closes below that midpoint is an evening star doji.
pub proof fn law_abandoned_baby_is_star_doji<C: CandleStick>(p2: C, p1: C, c: C)
    ensures
        bullish_abandoned_baby(p2, p1, c) && above_midpoint(
            c.close_spec() as int,
            p2.open_spec() as int,
            p2.close_spec() as int,
        ) ==> morning_star_doji(p2, p1, c),
        bearish_abandoned_baby(p2, p1, c) && crate::candle::below_midpoint(
            c.close_spec() as int,
            p2.open_spec() as int,
            p2.close_spec() as int,
        ) ==> evening_star_doji(p2, p1, c),
{
}

/// The bodies of a kicker do not overlap: the newer body starts at or
/// beyond the older body's far end.
pub proof fn law_kicker_bodies_do_not_overlap<C: CandleStick>(p: C, c: C)
    ensures
        bullish_kicker(p, c) ==> body_bottom(c) >= body_top(p),
        bearish_kicker(p, c) ==> body_top(c) <= body_bottom(p),
{
}

/// A candle is never both bullish and bearish.
pub proof fn law_bullish_excludes_bearish<C: CandleStick>(c: C)
    ensures
        !(bullish(c) && bearish(c)),
{
}

} // verus!
