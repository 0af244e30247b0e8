use vstd::prelude::*;
use crate::candle::{
    CandleStick,
    body,
    is_above_midpoint,
    is_bearish,
    is_bearish_marubozu,
    is_below_midpoint,
    is_bullish,
    is_bullish_marubozu,
    is_doji,
    is_ratio_above,
    is_ratio_below,
    range,
    wick,
    RATIO_SCALE,
};
use crate::patterns::{
    bullish_doji_star,
    bearish_doji_star,
    bullish_engulfing,
    bearish_engulfing,
    bullish_kicker,
    bearish_kicker,
    bullish_harami,
    bearish_harami,
    bullish_harami_cross,
    bearish_harami_cross,
    dark_cloud_cover,
    piercing_line,
    tweezer_top,
    tweezer_bottom,
    evening_star,
    evening_star_doji,
    morning_star,
    morning_star_doji,
    bullish_abandoned_baby,
    bearish_abandoned_baby,
    bullish_tri_star,
    bearish_tri_star,
    three_white_soldiers,
    three_black_crows,
    bullish_three_line_strike,
    bearish_three_line_strike,
    advance_block,
    deliberation,
    three_inside_up,
    three_inside_down,
    three_outside_up,
    three_outside_down,
    downtrend,
    uptrend,
};

verus! {

/// Number of candles a stream remembers.
pub const SERIES_SIZE: usize = 5;

/// What a stream holds after `candle` is pushed onto a stream that held
/// `window`: the newest `SERIES_SIZE` candles, oldest first.
pub open spec fn window_after_push<T>(window: Seq<T>, candle: T) -> Seq<T> {
    let s: Seq<T> = window.push(candle);
    if s.len() > SERIES_SIZE {
        s.subrange(s.len() - SERIES_SIZE, s.len() as int)
    } else {
        s
    }
}

/// The `n`-th candle back from the newest one (`n == 0` is the newest), if
/// the window holds that many.
pub open spec fn nth_back<T>(window: Seq<T>, n: int) -> Option<T> {
    if 0 <= n < window.len() {
        Some(window[window.len() - 1 - n])
    } else {
        None
    }
}

/// Writing `candle` into the slot at the cursor and advancing the cursor
/// gives the window `window_after_push`.
proof fn lemma_view_after_push<T>(before: CandleStream<T>, after: CandleStream<T>, candle: T)
    requires
        before.inv(),
        after.series@ == before.series@.update(before.idx as int, Some(candle)),
        after.idx == (before.idx + 1) % (SERIES_SIZE as int),
    ensures
        after.inv(),
        after.view() == window_after_push(before.view(), candle),
{
    let w = window_after_push(before.view(), candle);
    assert(after.inv());
    assert(after.view().len() == w.len());
    assert forall|k: int| 0 <= k < w.len() implies after.view()[k] == w[k] by {
    }
    assert(after.view() =~= w);
}

/// The candle `n` places before the newest one of `window`.
pub open spec fn back<T>(window: Seq<T>, n: int) -> T {
    window[window.len() - 1 - n]
}

/// `r` refers to the value that `o` holds, or both are empty.
pub open spec fn refers_to<T>(r: Option<&T>, o: Option<T>) -> bool {
    match r {
        Some(x) => o == Some(*x),
        None => o is None,
    }
}

/// A fixed-capacity stream of candles that keeps the `SERIES_SIZE` most
/// recent ones in a ring buffer.
#[derive(Debug)]
pub struct CandleStream<T> {
    series: [Option<T>; SERIES_SIZE],
    idx: usize,
}

impl<T> CandleStream<T> {
    /// The ring buffer slots.
    pub closed spec fn slots(&self) -> Seq<Option<T>> {
        self.series@
    }

    /// The slot the next push writes to.
    pub closed spec fn cursor(&self) -> nat {
        self.idx as nat
    }

    /// Whether every slot has been written.
    pub closed spec fn is_full(&self) -> bool {
        self.series@[self.idx as int] is Some
    }

    /// Number of candles the stream holds.
    pub closed spec fn count(&self) -> nat {
        if self.is_full() {
            SERIES_SIZE as nat
        } else {
            self.idx as nat
        }
    }

    #[verifier::type_invariant]
    closed spec fn inv(&self) -> bool {
        &&& self.idx < SERIES_SIZE
        &&& self.is_full() ==> forall|i: int| 0 <= i < SERIES_SIZE ==> #[trigger] self.series@[i] is Some
        &&& !self.is_full() ==> forall|i: int|
            0 <= i < SERIES_SIZE ==> (#[trigger] self.series@[i] is Some <==> i < self.idx)
    }

    /// Returns a new, empty candle stream.
    pub fn new() -> (s: Self)
        ensures
            s.view() == Seq::<T>::empty(),
            s.cursor() == 0,
            s.slots().len() == SERIES_SIZE,
            forall|i: int| 0 <= i < SERIES_SIZE ==> #[trigger] s.slots()[i] is None,
    {
        Self::default()
    }

    /// Where the slot that holds the `n`-th newest candle lies:
    /// `(cursor + SERIES_SIZE - n) % SERIES_SIZE`, for `n <= SERIES_SIZE`.
    /// `nth_index(1)` is the newest candle's slot and `nth_index(0)` (as
    /// `nth_index(SERIES_SIZE)`) the slot the next push writes to.
    pub fn nth_index(&self, n: usize) -> (r: Option<usize>)
        ensures
            n > SERIES_SIZE ==> r is None,
            n <= SERIES_SIZE ==> r == Some(((self.cursor() + SERIES_SIZE - n) % (SERIES_SIZE as int)) as usize),
            1 <= n <= self.view().len() ==> self.slots()[r->Some_0 as int] == Some(self.view()[self.view().len() - n]),
            self.view().len() < n <= SERIES_SIZE ==> self.slots()[r->Some_0 as int] is None,
    {
        proof {
            use_type_invariant(self);
        }
        if n > SERIES_SIZE {
            return None;
        }
        let r: usize = (self.idx + SERIES_SIZE - n) % SERIES_SIZE;
        proof {
            if 1 <= n <= self.view().len() {
                let len: nat = self.count();
                let start: int = (self.idx + SERIES_SIZE - len) % (SERIES_SIZE as int);
                let k: int = len - n;
                assert((start + k) % (SERIES_SIZE as int) == r);
            }
        }
        Some(r)
    }

    /// The candle in slot `idx`, if that slot exists and has been written.
    pub fn at(&self, idx: usize) -> (r: Option<&T>)
        ensures
            idx < SERIES_SIZE ==> refers_to(r, self.slots()[idx as int]),
            idx >= SERIES_SIZE ==> r is None,
    {
        proof {
            use_type_invariant(self);
        }
        match idx < SERIES_SIZE {
            true => self.series[idx].as_ref(),
            false => None,
        }
    }

    /// The newest candle, if any.
    pub fn get(&self) -> (r: Option<&T>)
        ensures
            refers_to(r, nth_back(self.view(), 0)),
    {
        self.at(self.nth_index(1)?)
    }

    /// Pushes a candle onto the stream; once the stream is full, the oldest
    /// candle is dropped. Returns the stream, so that pushes can be chained.
    pub fn push(&mut self, candle: T) -> (r: &mut Self)
        ensures
            r.view() == window_after_push(old(self).view(), candle),
            r.slots() == old(self).slots().update(old(self).cursor() as int, Some(candle)),
            r.view().len() <= SERIES_SIZE,
            r.slots().len() == SERIES_SIZE,
            r.cursor() < SERIES_SIZE,
            r.cursor() == (old(self).cursor() + 1) % (SERIES_SIZE as nat),
            *final(self) == *final(r),
    {
        let mut taken = Self::new();
        std::mem::swap(self, &mut taken);
        proof {
            use_type_invariant(&taken);
        }
        let ghost before = taken;
        let CandleStream { mut series, idx } = taken;
        series[idx % SERIES_SIZE] = Some(candle);
        let next = CandleStream { series, idx: (idx + 1) % SERIES_SIZE };
        proof {
            lemma_view_after_push(before, next, candle);
        }
        *self = next;
        self
    }

    /// The candle `n` places before the newest one, if the stream holds it.
    pub fn prev(&self, n: usize) -> (r: Option<&T>)
        requires
            n < usize::MAX,
        ensures
            refers_to(r, nth_back(self.view(), n as int)),
    {
        proof {
            use_type_invariant(self);
        }
        self.at(self.nth_index(n + 1)?)
    }
}

impl<T> View for CandleStream<T> {
    type V = Seq<T>;

    /// The candles held, oldest first.
    closed spec fn view(&self) -> Seq<T> {
        let len: nat = self.count();
        let start: int = (self.idx + SERIES_SIZE - len) % (SERIES_SIZE as int);
        Seq::new(len, |k: int| self.series@[(start + k) % (SERIES_SIZE as int)]->Some_0)
    }
}

impl<T> Default for CandleStream<T> {
    /// An empty stream.
    fn default() -> (s: Self)
        ensures
            s.view() == Seq::<T>::empty(),
            s.cursor() == 0,
            s.slots().len() == SERIES_SIZE,
            forall|i: int| 0 <= i < SERIES_SIZE ==> #[trigger] s.slots()[i] is None,
    {
        let s = CandleStream { series: [None, None, None, None, None], idx: 0 };
        assert(s.series@[0] is None);
        s
    }
}

impl<T: CandleStick> CandleStream<T> {
    /// Bullish doji star: a bearish candle, then a doji gapping below its low.
    pub fn is_bullish_doji_star(&self) -> (r: bool)
        ensures
            r == (self.view().len() >= 2 && bullish_doji_star(back(self.view(), 1), back(self.view(), 0))),
    {
        match (self.get(), self.prev(1)) {
            (Some(c), Some(p)) => {
                is_bearish(p) && is_doji(c) && c.high() < p.low()
            },
            _ => false,
        }
    }

    /// Bearish doji star: a bullish candle, then a doji gapping above its high.
    pub fn is_bearish_doji_star(&self) -> (r: bool)
        ensures
            r == (self.view().len() >= 2 && bearish_doji_star(back(self.view(), 1), back(self.view(), 0))),
    {
        match (self.get(), self.prev(1)) {
            (Some(c), Some(p)) => {
                is_bullish(p) && is_doji(c) && c.low() > p.high()
            },
            _ => false,
        }
    }

    /// Bullish engulfing: a bearish body engulfed by the following bullish body.
    pub fn is_bullish_engulfing(&self) -> (r: bool)
        ensures
            r == (self.view().len() >= 2 && bullish_engulfing(back(self.view(), 1), back(self.view(), 0))),
    {
        match (self.get(), self.prev(1)) {
            (Some(c), Some(p)) => {
                is_bearish(p) && is_bullish(c) && c.open() < p.close() && c.close() > p.open()
            },
            _ => false,
        }
    }

    /// Bearish engulfing: a bullish body engulfed by the following bearish body.
    pub fn is_bearish_engulfing(&self) -> (r: bool)
        ensures
            r == (self.view().len() >= 2 && bearish_engulfing(back(self.view(), 1), back(self.view(), 0))),
    {
        match (self.get(), self.prev(1)) {
            (Some(c), Some(p)) => {
                is_bullish(p) && is_bearish(c) && c.open() > p.close() && c.close() < p.open()
            },
            _ => false,
        }
    }

    /// Bullish kicker: a bearish marubozu, then a bullish marubozu opening at or above its open.
    pub fn is_bullish_kicker(&self) -> (r: bool)
        ensures
            r == (self.view().len() >= 2 && bullish_kicker(back(self.view(), 1), back(self.view(), 0))),
    {
        match (self.get(), self.prev(1)) {
            (Some(c), Some(p)) => {
                is_bearish_marubozu(p) && is_bullish_marubozu(c) && c.open() >= p.open()
            },
            _ => false,
        }
    }

    /// Bearish kicker: a bullish marubozu, then a bearish marubozu opening at or below its open.
    pub fn is_bearish_kicker(&self) -> (r: bool)
        ensures
            r == (self.view().len() >= 2 && bearish_kicker(back(self.view(), 1), back(self.view(), 0))),
    {
        match (self.get(), self.prev(1)) {
            (Some(c), Some(p)) => {
                is_bullish_marubozu(p) && is_bearish_marubozu(c) && c.open() <= p.open()
            },
            _ => false,
        }
    }

    /// Bullish harami: a small bullish body inside the preceding bearish body.
    pub fn is_bullish_harami(&self) -> (r: bool)
        ensures
            r == (self.view().len() >= 2 && bullish_harami(back(self.view(), 1), back(self.view(), 0))),
    {
        match (self.get(), self.prev(1)) {
            (Some(c), Some(p)) => {
                is_bearish(p) && is_bullish(c) && c.open() > p.close() && c.close() < p.open()
            },
            _ => false,
        }
    }

    /// Bearish harami: a small bearish body inside the preceding bullish body.
    pub fn is_bearish_harami(&self) -> (r: bool)
        ensures
            r == (self.view().len() >= 2 && bearish_harami(back(self.view(), 1), back(self.view(), 0))),
    {
        match (self.get(), self.prev(1)) {
            (Some(c), Some(p)) => {
                is_bullish(p) && is_bearish(c) && c.open() < p.close() && c.close() > p.open()
            },
            _ => false,
        }
    }

    /// Bullish harami cross: a doji whose body lies inside the preceding bearish body.
    pub fn is_bullish_harami_cross(&self) -> (r: bool)
        ensures
            r == (self.view().len() >= 2 && bullish_harami_cross(back(self.view(), 1), back(self.view(), 0))),
    {
        match (self.get(), self.prev(1)) {
            (Some(c), Some(p)) => {
                let upper: i64 = if c.open() < c.close() {
                    c.close()
                } else {
                    c.open()
                };
                let lower: i64 = if c.open() < c.close() {
                    c.open()
                } else {
                    c.close()
                };
                is_bearish(p) && is_doji(c) && upper < p.open() && lower > p.close()
            },
            _ => false,
        }
    }

    /// Bearish harami cross: a doji whose body lies inside the preceding bullish body.
    pub fn is_bearish_harami_cross(&self) -> (r: bool)
        ensures
            r == (self.view().len() >= 2 && bearish_harami_cross(back(self.view(), 1), back(self.view(), 0))),
    {
        match (self.get(), self.prev(1)) {
            (Some(c), Some(p)) => {
                let upper: i64 = if c.open() < c.close() {
                    c.close()
                } else {
                    c.open()
                };
                let lower: i64 = if c.open() < c.close() {
                    c.open()
                } else {
                    c.close()
                };
                is_bullish(p) && is_doji(c) && upper < p.close() && lower > p.open()
            },
            _ => false,
        }
    }

    /// Dark cloud cover: a bearish candle opening above the prior bullish close and closing below the midpoint of its body.
    pub fn is_dark_cloud_cover(&self) -> (r: bool)
        ensures
            r == (self.view().len() >= 2 && dark_cloud_cover(back(self.view(), 1), back(self.view(), 0))),
    {
        match (self.get(), self.prev(1)) {
            (Some(c), Some(p)) => {
                is_bearish(c) && is_bullish(p) && c.open() > p.close() && is_below_midpoint(c.close(), p.open(), p.close())
            },
            _ => false,
        }
    }

    /// Piercing line: a bullish candle opening below the prior bearish close and closing above the midpoint of its body but below its open.
    pub fn is_piercing_line(&self) -> (r: bool)
        ensures
            r == (self.view().len() >= 2 && piercing_line(back(self.view(), 1), back(self.view(), 0))),
    {
        match (self.get(), self.prev(1)) {
            (Some(c), Some(p)) => {
                is_bullish(c) && is_bearish(p) && c.open() < p.close() && is_above_midpoint(c.close(), p.open(), p.close())
                    && c.close() < p.open()
            },
            _ => false,
        }
    }

    /// Tweezer top: a bullish candle, then a bearish one whose high matches within the tweezer tolerance of the larger range.
    pub fn is_tweezer_top(&self) -> (r: bool)
        ensures
            r == (self.view().len() >= 2 && tweezer_top(back(self.view(), 1), back(self.view(), 0))),
    {
        match (self.get(), self.prev(1)) {
            (Some(c), Some(p)) => {
                let pr: i128 = range(p);
                let cr: i128 = range(c);
                let denom: i128 = if pr < cr {
                    cr
                } else {
                    pr
                };
                let gap: i128 = p.high() as i128 - c.high() as i128;
                let gap: i128 = if gap < 0 {
                    -gap
                } else {
                    gap
                };
                is_bullish(p) && is_bearish(c) && is_ratio_below(gap, denom, c.tweezer_tolerance() as i64)
            },
            _ => false,
        }
    }

    /// Tweezer bottom: a bearish candle, then a bullish one whose low matches within the tweezer tolerance of the larger range.
    pub fn is_tweezer_bottom(&self) -> (r: bool)
        ensures
            r == (self.view().len() >= 2 && tweezer_bottom(back(self.view(), 1), back(self.view(), 0))),
    {
        match (self.get(), self.prev(1)) {
            (Some(c), Some(p)) => {
                let pr: i128 = range(p);
                let cr: i128 = range(c);
                let denom: i128 = if pr < cr {
                    cr
                } else {
                    pr
                };
                let gap: i128 = p.low() as i128 - c.low() as i128;
                let gap: i128 = if gap < 0 {
                    -gap
                } else {
                    gap
                };
                is_bearish(p) && is_bullish(c) && is_ratio_below(gap, denom, c.tweezer_tolerance() as i64)
            },
            _ => false,
        }
    }

    /// Evening star: a bullish candle, a star (a doji or a small body of either colour), then a bearish candle closing below the midpoint of the first body.
    pub fn is_evening_star(&self) -> (r: bool)
        ensures
            r == (self.view().len() >= 3 && evening_star(back(self.view(), 2), back(self.view(), 1), back(self.view(), 0))),
    {
        match (self.get(), self.prev(1), self.prev(2)) {
            (Some(c), Some(p1), Some(p2)) => {
                is_bullish(p2) && (is_doji(p1) || is_ratio_below(body(p1), range(p1), p1.spinning_top_body_ratio() as i64)) && is_bearish(c)
                    && is_below_midpoint(c.close(), p2.open(), p2.close())
            },
            _ => false,
        }
    }

    /// Evening star doji: an evening star whose middle candle is a doji.
    pub fn is_evening_star_doji(&self) -> (r: bool)
        ensures
            r == (self.view().len() >= 3 && evening_star_doji(back(self.view(), 2), back(self.view(), 1), back(self.view(), 0))),
    {
        match (self.get(), self.prev(1), self.prev(2)) {
            (Some(c), Some(p1), Some(p2)) => {
                is_bullish(p2) && is_doji(p1) && is_bearish(c) && is_below_midpoint(c.close(), p2.open(), p2.close())
            },
            _ => false,
        }
    }

    /// Morning star: a bearish candle, a star (a doji or a small body of either colour), then a bullish candle closing above the midpoint of the first body.
    pub fn is_morning_star(&self) -> (r: bool)
        ensures
            r == (self.view().len() >= 3 && morning_star(back(self.view(), 2), back(self.view(), 1), back(self.view(), 0))),
    {
        match (self.get(), self.prev(1), self.prev(2)) {
            (Some(c), Some(p1), Some(p2)) => {
                is_bearish(p2) && (is_doji(p1) || is_ratio_below(body(p1), range(p1), p1.spinning_top_body_ratio() as i64)) && is_bullish(c)
                    && is_above_midpoint(c.close(), p2.open(), p2.close())
            },
            _ => false,
        }
    }

    /// Morning star doji: a morning star whose middle candle is a doji.
    pub fn is_morning_star_doji(&self) -> (r: bool)
        ensures
            r == (self.view().len() >= 3 && morning_star_doji(back(self.view(), 2), back(self.view(), 1), back(self.view(), 0))),
    {
        match (self.get(), self.prev(1), self.prev(2)) {
            (Some(c), Some(p1), Some(p2)) => {
                is_bearish(p2) && is_doji(p1) && is_bullish(c) && is_above_midpoint(c.close(), p2.open(), p2.close())
            },
            _ => false,
        }
    }

    /// Bullish abandoned baby: a bearish candle, a doji gapping below its low, then a bullish candle gapping above the doji.
    pub fn is_bullish_abandoned_baby(&self) -> (r: bool)
        ensures
            r == (self.view().len() >= 3 && bullish_abandoned_baby(back(self.view(), 2), back(self.view(), 1), back(self.view(), 0))),
    {
        match (self.get(), self.prev(1), self.prev(2)) {
            (Some(c), Some(p1), Some(p2)) => {
                is_bearish(p2) && is_doji(p1) && p1.high() < p2.low() && is_bullish(c) && c.low() > p1.high()
            },
            _ => false,
        }
    }

    /// Bearish abandoned baby: a bullish candle, a doji gapping above its high, then a bearish candle gapping below the doji.
    pub fn is_bearish_abandoned_baby(&self) -> (r: bool)
        ensures
            r == (self.view().len() >= 3 && bearish_abandoned_baby(back(self.view(), 2), back(self.view(), 1), back(self.view(), 0))),
    {
        match (self.get(), self.prev(1), self.prev(2)) {
            (Some(c), Some(p1), Some(p2)) => {
                is_bullish(p2) && is_doji(p1) && p1.low() > p2.high() && is_bearish(c) && c.high() < p1.low()
            },
            _ => false,
        }
    }

    /// Bullish tri-star: three dojis, the middle body strictly below the outer bodies.
    pub fn is_bullish_tri_star(&self) -> (r: bool)
        ensures
            r == (self.view().len() >= 3 && bullish_tri_star(back(self.view(), 2), back(self.view(), 1), back(self.view(), 0))),
    {
        match (self.get(), self.prev(1), self.prev(2)) {
            (Some(c), Some(p1), Some(p2)) => {
                let p1_upper: i64 = if p1.open() < p1.close() {
                    p1.close()
                } else {
                    p1.open()
                };
                let p2_lower: i64 = if p2.open() < p2.close() {
                    p2.open()
                } else {
                    p2.close()
                };
                let c_lower: i64 = if c.open() < c.close() {
                    c.open()
                } else {
                    c.close()
                };
                let outer_lower: i64 = if p2_lower < c_lower {
                    p2_lower
                } else {
                    c_lower
                };
                is_doji(p2) && is_doji(p1) && is_doji(c) && p1_upper < outer_lower
            },
            _ => false,
        }
    }

    /// Bearish tri-star: three dojis, the middle body strictly above the outer bodies.
    pub fn is_bearish_tri_star(&self) -> (r: bool)
        ensures
            r == (self.view().len() >= 3 && bearish_tri_star(back(self.view(), 2), back(self.view(), 1), back(self.view(), 0))),
    {
        match (self.get(), self.prev(1), self.prev(2)) {
            (Some(c), Some(p1), Some(p2)) => {
                let p1_lower: i64 = if p1.open() < p1.close() {
                    p1.open()
                } else {
                    p1.close()
                };
                let p2_upper: i64 = if p2.open() < p2.close() {
                    p2.close()
                } else {
                    p2.open()
                };
                let c_upper: i64 = if c.open() < c.close() {
                    c.close()
                } else {
                    c.open()
                };
                let outer_upper: i64 = if p2_upper < c_upper {
                    c_upper
                } else {
                    p2_upper
                };
                is_doji(p2) && is_doji(p1) && is_doji(c) && p1_lower > outer_upper
            },
            _ => false,
        }
    }

    /// Three white soldiers: three bullish candles, each opening and closing above the previous close.
    pub fn is_three_white_soldiers(&self) -> (r: bool)
        ensures
            r == (self.view().len() >= 3 && three_white_soldiers(back(self.view(), 2), back(self.view(), 1), back(self.view(), 0))),
    {
        match (self.get(), self.prev(1), self.prev(2)) {
            (Some(c), Some(p1), Some(p2)) => {
                is_bullish(p2) && is_bullish(p1) && p1.open() > p2.close() && p1.close() > p2.close() && is_bullish(c)
                    && c.open() > p1.close() && c.close() > p1.close()
            },
            _ => false,
        }
    }

    /// Three black crows: three bearish candles, each opening and closing below the previous close.
    pub fn is_three_black_crows(&self) -> (r: bool)
        ensures
            r == (self.view().len() >= 3 && three_black_crows(back(self.view(), 2), back(self.view(), 1), back(self.view(), 0))),
    {
        match (self.get(), self.prev(1), self.prev(2)) {
            (Some(c), Some(p1), Some(p2)) => {
                is_bearish(p2) && is_bearish(p1) && p1.open() < p2.close() && p1.close() < p2.close() && is_bearish(c)
                    && c.open() < p1.close() && c.close() < p1.close()
            },
            _ => false,
        }
    }

    /// Bullish three line strike: three white soldiers, then a bearish candle opening above the third close and closing below the first open.
    pub fn is_bullish_three_line_strike(&self) -> (r: bool)
        ensures
            r == (self.view().len() >= 4 && bullish_three_line_strike(
                back(self.view(), 3),
                back(self.view(), 2),
                back(self.view(), 1),
                back(self.view(), 0),
            )),
    {
        match (self.get(), self.prev(1), self.prev(2), self.prev(3)) {
            (Some(c4), Some(c3), Some(c2), Some(c1)) => {
                is_bullish(c1) && is_bullish(c2) && is_bullish(c3) && c1.close() < c2.close() && c2.close() < c3.close()
                    && c2.open() > c1.close() && c3.open() > c2.close() && is_bearish(c4) && c4.open() > c3.close()
                    && c4.close() < c1.open()
            },
            _ => false,
        }
    }

    /// Bearish three line strike: three black crows, then a bullish candle opening below the third close and closing above the first open.
    pub fn is_bearish_three_line_strike(&self) -> (r: bool)
        ensures
            r == (self.view().len() >= 4 && bearish_three_line_strike(
                back(self.view(), 3),
                back(self.view(), 2),
                back(self.view(), 1),
                back(self.view(), 0),
            )),
    {
        match (self.get(), self.prev(1), self.prev(2), self.prev(3)) {
            (Some(c4), Some(c3), Some(c2), Some(c1)) => {
                is_bearish(c1) && is_bearish(c2) && is_bearish(c3) && c1.close() > c2.close() && c2.close() > c3.close()
                    && c2.open() < c1.close() && c3.open() < c2.close() && is_bullish(c4) && c4.open() < c3.close()
                    && c4.close() > c1.open()
            },
            _ => false,
        }
    }

    /// Advance block: three rising bullish candles with shrinking bodies and growing upper shadows.
    pub fn is_advance_block(&self) -> (r: bool)
        ensures
            r == (self.view().len() >= 3 && advance_block(back(self.view(), 2), back(self.view(), 1), back(self.view(), 0))),
    {
        match (self.get(), self.prev(1), self.prev(2)) {
            (Some(c3), Some(c2), Some(c1)) => {
                is_bullish(c1) && is_bullish(c2) && is_bullish(c3) && c1.close() < c2.close() && c2.close() < c3.close()
                    && c2.open() > c1.close() && c3.open() > c2.close() && body(c1) > body(c2) && body(c2) > body(c3)
                    && wick(c2) > wick(c1) && wick(c3) > wick(c2)
            },
            _ => false,
        }
    }

    /// Deliberation: two long bullish bodies, then a small bullish body opening at or above the second close and closing above it.
    pub fn is_deliberation(&self) -> (r: bool)
        ensures
            r == (self.view().len() >= 3 && deliberation(back(self.view(), 2), back(self.view(), 1), back(self.view(), 0))),
    {
        match (self.get(), self.prev(1), self.prev(2)) {
            (Some(c3), Some(c2), Some(c1)) => {
                let long_body_threshold: i64 = RATIO_SCALE as i64 - c1.marubozu_ratio() as i64;
                is_bullish(c1) && is_bullish(c2) && is_ratio_above(body(c1), range(c1), long_body_threshold)
                    && is_ratio_above(body(c2), range(c2), long_body_threshold) && c2.close() > c1.close() && is_bullish(c3)
                    && is_ratio_below(body(c3), range(c3), c3.spinning_top_body_ratio() as i64) && c3.open() >= c2.close()
                    && c3.close() > c2.close()
            },
            _ => false,
        }
    }

    /// Three inside up: a bullish harami confirmed by a bullish, non-doji candle closing higher.
    pub fn is_three_inside_up(&self) -> (r: bool)
        ensures
            r == (self.view().len() >= 3 && three_inside_up(back(self.view(), 2), back(self.view(), 1), back(self.view(), 0))),
    {
        match (self.get(), self.prev(1), self.prev(2)) {
            (Some(c), Some(p1), Some(p2)) => {
                is_bearish(p2) && is_bullish(p1) && p1.open() > p2.close() && p1.close() < p2.open() && is_bullish(c)
                    && c.close() > p1.close() && !is_doji(c)
            },
            _ => false,
        }
    }

    /// Three inside down: a bearish harami confirmed by a bearish, non-doji candle closing lower.
    pub fn is_three_inside_down(&self) -> (r: bool)
        ensures
            r == (self.view().len() >= 3 && three_inside_down(back(self.view(), 2), back(self.view(), 1), back(self.view(), 0))),
    {
        match (self.get(), self.prev(1), self.prev(2)) {
            (Some(c), Some(p1), Some(p2)) => {
                is_bullish(p2) && is_bearish(p1) && p1.open() < p2.close() && p1.close() > p2.open() && is_bearish(c)
                    && c.close() < p1.close() && !is_doji(c)
            },
            _ => false,
        }
    }

    /// Three outside up: a bullish engulfing confirmed by a bullish candle closing higher.
    pub fn is_three_outside_up(&self) -> (r: bool)
        ensures
            r == (self.view().len() >= 3 && three_outside_up(back(self.view(), 2), back(self.view(), 1), back(self.view(), 0))),
    {
        match (self.get(), self.prev(1), self.prev(2)) {
            (Some(c), Some(p1), Some(p2)) => {
                is_bearish(p2) && is_bullish(p1) && p1.open() < p2.close() && p1.close() > p2.open() && is_bullish(c)
                    && c.close() > p1.close()
            },
            _ => false,
        }
    }

    /// Three outside down: a bearish engulfing confirmed by a bearish candle closing lower.
    pub fn is_three_outside_down(&self) -> (r: bool)
        ensures
            r == (self.view().len() >= 3 && three_outside_down(back(self.view(), 2), back(self.view(), 1), back(self.view(), 0))),
    {
        match (self.get(), self.prev(1), self.prev(2)) {
            (Some(c), Some(p1), Some(p2)) => {
                is_bullish(p2) && is_bearish(p1) && p1.open() > p2.close() && p1.close() < p2.open() && is_bearish(c)
                    && c.close() < p1.close()
            },
            _ => false,
        }
    }

    /// Downtrend: strictly lower highs and strictly lower lows over the last three candles.
    pub fn is_downtrend(&self) -> (r: bool)
        ensures
            r == (self.view().len() >= 3 && downtrend(back(self.view(), 2), back(self.view(), 1), back(self.view(), 0))),
    {
        match (self.get(), self.prev(1), self.prev(2)) {
            (Some(c0), Some(c1), Some(c2)) => {
                (c0.high() < c1.high() && c1.high() < c2.high()) && (c0.low() < c1.low() && c1.low() < c2.low())
            },
            _ => false,
        }
    }

    /// Uptrend: strictly higher highs and strictly higher lows over the last three candles.
    pub fn is_uptrend(&self) -> (r: bool)
        ensures
            r == (self.view().len() >= 3 && uptrend(back(self.view(), 2), back(self.view(), 1), back(self.view(), 0))),
    {
        match (self.get(), self.prev(1), self.prev(2)) {
            (Some(c0), Some(c1), Some(c2)) => {
                (c0.high() > c1.high() && c1.high() > c2.high()) && (c0.low() > c1.low() && c1.low() > c2.low())
            },
            _ => false,
        }
    }
}

} // verus!
