use vstd::prelude::*;

verus! {

/// Ratios (tolerances, body proportions) are given in basis points:
/// `RATIO_SCALE` stands for a ratio of 1.
pub const RATIO_SCALE: u32 = 10000;

/// Default share of the range that a doji's body may take (10%).
pub const DEFAULT_DOJI_RATIO: u32 = 1000;

/// Default share of the body that each shadow of a marubozu may take (20%).
pub const DEFAULT_MARUBOZU_RATIO: u32 = 2000;

/// Default share of the range below which a body counts as small (30%).
pub const DEFAULT_SPINNING_TOP_BODY_RATIO: u32 = 3000;

/// Default tolerance, relative to the larger range, within which two highs
/// (or lows) count as matching (5%).
pub const DEFAULT_TWEEZER_TOLERANCE: u32 = 500;

pub open spec fn abs(x: int) -> int {
    if x < 0 {
        -x
    } else {
        x
    }
}

pub open spec fn max(x: int, y: int) -> int {
    if x < y {
        y
    } else {
        x
    }
}

pub open spec fn min(x: int, y: int) -> int {
    if x < y {
        x
    } else {
        y
    }
}

/// `a / b < r / RATIO_SCALE` over the rationals; false when `b == 0`.
pub open spec fn ratio_below(a: int, b: int, r: int) -> bool {
    if b > 0 {
        a * RATIO_SCALE < r * b
    } else if b < 0 {
        a * RATIO_SCALE > r * b
    } else {
        false
    }
}

/// `a / b > r / RATIO_SCALE` over the rationals; when `b == 0`, whether
/// `a > 0` (a positive amount over nothing is unbounded).
pub open spec fn ratio_above(a: int, b: int, r: int) -> bool {
    if b > 0 {
        a * RATIO_SCALE > r * b
    } else if b < 0 {
        a * RATIO_SCALE < r * b
    } else {
        a > 0
    }
}

/// `x` lies strictly below the midpoint of `a` and `b`.
pub open spec fn below_midpoint(x: int, a: int, b: int) -> bool {
    2 * x < a + b
}

/// `x` lies strictly above the midpoint of `a` and `b`.
pub open spec fn above_midpoint(x: int, a: int, b: int) -> bool {
    2 * x > a + b
}

/// One candle: open, high, low and close prices and a volume, in integer
/// units (any fixed scale), and the ratios that tune its classification.
pub trait CandleStick: Sized {
    spec fn open_spec(&self) -> i64;

    spec fn high_spec(&self) -> i64;

    spec fn low_spec(&self) -> i64;

    spec fn close_spec(&self) -> i64;

    spec fn volume_spec(&self) -> i64;

    spec fn doji_ratio_spec(&self) -> u32;

    spec fn marubozu_ratio_spec(&self) -> u32;

    spec fn spinning_top_body_ratio_spec(&self) -> u32;

    spec fn tweezer_tolerance_spec(&self) -> u32;

    fn open(&self) -> (r: i64)
        ensures
            r == self.open_spec(),
    ;

    fn high(&self) -> (r: i64)
        ensures
            r == self.high_spec(),
    ;

    fn low(&self) -> (r: i64)
        ensures
            r == self.low_spec(),
    ;

    fn close(&self) -> (r: i64)
        ensures
            r == self.close_spec(),
    ;

    fn volume(&self) -> (r: i64)
        ensures
            r == self.volume_spec(),
    ;

    /// Largest share of the range, in basis points, that the body of a doji
    /// may take.
    fn doji_ratio(&self) -> (r: u32)
        ensures
            r == self.doji_ratio_spec(),
    ;

    /// Largest share of the body, in basis points, that each shadow of a
    /// marubozu may take.
    fn marubozu_ratio(&self) -> (r: u32)
        ensures
            r == self.marubozu_ratio_spec(),
    ;

    /// Share of the range, in basis points, below which a body is small.
    fn spinning_top_body_ratio(&self) -> (r: u32)
        ensures
            r == self.spinning_top_body_ratio_spec(),
    ;

    /// Tolerance, in basis points of the larger range, within which two
    /// highs or lows match.
    fn tweezer_tolerance(&self) -> (r: u32)
        ensures
            r == self.tweezer_tolerance_spec(),
    ;
}

pub open spec fn body_size<C: CandleStick>(c: C) -> int {
    abs(c.close_spec() - c.open_spec())
}

pub open spec fn price_range<C: CandleStick>(c: C) -> int {
    c.high_spec() - c.low_spec()
}

pub open spec fn upper_shadow<C: CandleStick>(c: C) -> int {
    c.high_spec() - max(c.open_spec() as int, c.close_spec() as int)
}

pub open spec fn lower_shadow<C: CandleStick>(c: C) -> int {
    min(c.open_spec() as int, c.close_spec() as int) - c.low_spec()
}

pub open spec fn bullish<C: CandleStick>(c: C) -> bool {
    c.close_spec() > c.open_spec()
}

pub open spec fn bearish<C: CandleStick>(c: C) -> bool {
    c.close_spec() < c.open_spec()
}

pub open spec fn doji<C: CandleStick>(c: C) -> bool {
    body_size(c) * RATIO_SCALE <= c.doji_ratio_spec() * price_range(c)
}

pub open spec fn shadows_within<C: CandleStick>(c: C, r: int) -> bool {
    &&& upper_shadow(c) * RATIO_SCALE <= r * body_size(c)
    &&& lower_shadow(c) * RATIO_SCALE <= r * body_size(c)
}

pub open spec fn bullish_marubozu<C: CandleStick>(c: C) -> bool {
    bullish(c) && shadows_within(c, c.marubozu_ratio_spec() as int)
}

pub open spec fn bearish_marubozu<C: CandleStick>(c: C) -> bool {
    bearish(c) && shadows_within(c, c.marubozu_ratio_spec() as int)
}

/// Bound on the distance between two `i64` prices.
pub const PRICE_SPAN: i128 = 0x1_0000_0000_0000_0000;

/// `x * k`, for a distance `x` between prices and a ratio `k`.
pub fn scale(x: i128, k: u32) -> (r: i128)
    requires
        -PRICE_SPAN <= x <= PRICE_SPAN,
    ensures
        r == x * k,
{
    proof {
        assert(-PRICE_SPAN * 0x1_0000_0000 <= x * k <= PRICE_SPAN * 0x1_0000_0000) by (nonlinear_arith)
            requires
                -PRICE_SPAN <= x <= PRICE_SPAN,
                0 <= k < 0x1_0000_0000,
        ;
    }
    x * (k as i128)
}

/// Whether `x` lies strictly below the midpoint of `a` and `b`.
pub fn is_below_midpoint(x: i64, a: i64, b: i64) -> (r: bool)
    ensures
        r == below_midpoint(x as int, a as int, b as int),
{
    2 * (x as i128) < a as i128 + b as i128
}

/// Whether `x` lies strictly above the midpoint of `a` and `b`.
pub fn is_above_midpoint(x: i64, a: i64, b: i64) -> (r: bool)
    ensures
        r == above_midpoint(x as int, a as int, b as int),
{
    2 * (x as i128) > a as i128 + b as i128
}

/// `x * k` for a distance `x` between prices and a signed ratio `k`.
pub fn scale_signed(x: i128, k: i64) -> (r: i128)
    requires
        -PRICE_SPAN <= x <= PRICE_SPAN,
        -0x1_0000_0000 <= k <= 0x1_0000_0000,
    ensures
        r == x * k,
{
    proof {
        assert(-PRICE_SPAN * 0x1_0000_0000 <= x * k <= PRICE_SPAN * 0x1_0000_0000) by (nonlinear_arith)
            requires
                -PRICE_SPAN <= x <= PRICE_SPAN,
                -0x1_0000_0000 <= k <= 0x1_0000_0000,
        ;
    }
    x * (k as i128)
}

/// Whether `a / b < k / RATIO_SCALE`; false when `b == 0`.
pub fn is_ratio_below(a: i128, b: i128, k: i64) -> (r: bool)
    requires
        -PRICE_SPAN <= a <= PRICE_SPAN,
        -PRICE_SPAN <= b <= PRICE_SPAN,
        -0x1_0000_0000 <= k <= 0x1_0000_0000,
    ensures
        r == ratio_below(a as int, b as int, k as int),
{
    let lhs: i128 = scale(a, RATIO_SCALE);
    let rhs: i128 = scale_signed(b, k);
    if b > 0 {
        lhs < rhs
    } else if b < 0 {
        lhs > rhs
    } else {
        false
    }
}

/// Whether `a / b > k / RATIO_SCALE`; when `b == 0`, whether `a > 0`.
pub fn is_ratio_above(a: i128, b: i128, k: i64) -> (r: bool)
    requires
        -PRICE_SPAN <= a <= PRICE_SPAN,
        -PRICE_SPAN <= b <= PRICE_SPAN,
        -0x1_0000_0000 <= k <= 0x1_0000_0000,
    ensures
        r == ratio_above(a as int, b as int, k as int),
{
    let lhs: i128 = scale(a, RATIO_SCALE);
    let rhs: i128 = scale_signed(b, k);
    if b > 0 {
        lhs > rhs
    } else if b < 0 {
        lhs < rhs
    } else {
        a > 0
    }
}

/// Size of the body: the distance between open and close.
pub fn body<C: CandleStick>(c: &C) -> (r: i128)
    ensures
        r == body_size(*c),
        -PRICE_SPAN <= r <= PRICE_SPAN,
{
    let d: i128 = c.close() as i128 - c.open() as i128;
    if d < 0 {
        -d
    } else {
        d
    }
}

/// Distance between high and low.
pub fn range<C: CandleStick>(c: &C) -> (r: i128)
    ensures
        r == price_range(*c),
        -PRICE_SPAN <= r <= PRICE_SPAN,
{
    c.high() as i128 - c.low() as i128
}

/// Upper shadow: from the top of the body to the high.
pub fn wick<C: CandleStick>(c: &C) -> (r: i128)
    ensures
        r == upper_shadow(*c),
        -PRICE_SPAN <= r <= PRICE_SPAN,
{
    let o: i64 = c.open();
    let cl: i64 = c.close();
    let top: i64 = if o < cl {
        cl
    } else {
        o
    };
    c.high() as i128 - top as i128
}

/// Lower shadow: from the low to the bottom of the body.
pub fn tail<C: CandleStick>(c: &C) -> (r: i128)
    ensures
        r == lower_shadow(*c),
        -PRICE_SPAN <= r <= PRICE_SPAN,
{
    let o: i64 = c.open();
    let cl: i64 = c.close();
    let bottom: i64 = if o < cl {
        o
    } else {
        cl
    };
    bottom as i128 - c.low() as i128
}

/// The close is above the open.
pub fn is_bullish<C: CandleStick>(c: &C) -> (r: bool)
    ensures
        r == bullish(*c),
{
    c.close() > c.open()
}

/// The close is below the open.
pub fn is_bearish<C: CandleStick>(c: &C) -> (r: bool)
    ensures
        r == bearish(*c),
{
    c.close() < c.open()
}

/// The body takes no more than `doji_ratio` of the range.
pub fn is_doji<C: CandleStick>(c: &C) -> (r: bool)
    ensures
        r == doji(*c),
{
    scale(body(c), RATIO_SCALE) <= scale(range(c), c.doji_ratio())
}

/// A bullish candle whose shadows each take no more than
/// `marubozu_ratio` of the body.
pub fn is_bullish_marubozu<C: CandleStick>(c: &C) -> (r: bool)
    ensures
        r == bullish_marubozu(*c),
{
    let limit: i128 = scale(body(c), c.marubozu_ratio());
    is_bullish(c) && scale(wick(c), RATIO_SCALE) <= limit && scale(tail(c), RATIO_SCALE) <= limit
}

/// A bearish candle whose shadows each take no more than
/// `marubozu_ratio` of the body.
pub fn is_bearish_marubozu<C: CandleStick>(c: &C) -> (r: bool)
    ensures
        r == bearish_marubozu(*c),
{
    let limit: i128 = scale(body(c), c.marubozu_ratio());
    is_bearish(c) && scale(wick(c), RATIO_SCALE) <= limit && scale(tail(c), RATIO_SCALE) <= limit
}


/// A candle as the tuple `(open, high, low, close, volume)`, classified with
/// the default ratios.
impl CandleStick for (i64, i64, i64, i64, i64) {
    open spec fn open_spec(&self) -> i64 {
        self.0
    }

    open spec fn high_spec(&self) -> i64 {
        self.1
    }

    open spec fn low_spec(&self) -> i64 {
        self.2
    }

    open spec fn close_spec(&self) -> i64 {
        self.3
    }

    open spec fn volume_spec(&self) -> i64 {
        self.4
    }

    open spec fn doji_ratio_spec(&self) -> u32 {
        DEFAULT_DOJI_RATIO
    }

    open spec fn marubozu_ratio_spec(&self) -> u32 {
        DEFAULT_MARUBOZU_RATIO
    }

    open spec fn spinning_top_body_ratio_spec(&self) -> u32 {
        DEFAULT_SPINNING_TOP_BODY_RATIO
    }

    open spec fn tweezer_tolerance_spec(&self) -> u32 {
        DEFAULT_TWEEZER_TOLERANCE
    }

    fn open(&self) -> (r: i64) {
        self.0
    }

    fn high(&self) -> (r: i64) {
        self.1
    }

    fn low(&self) -> (r: i64) {
        self.2
    }

    fn close(&self) -> (r: i64) {
        self.3
    }

    fn volume(&self) -> (r: i64) {
        self.4
    }

    fn doji_ratio(&self) -> (r: u32) {
        DEFAULT_DOJI_RATIO
    }

    fn marubozu_ratio(&self) -> (r: u32) {
        DEFAULT_MARUBOZU_RATIO
    }

    fn spinning_top_body_ratio(&self) -> (r: u32) {
        DEFAULT_SPINNING_TOP_BODY_RATIO
    }

    fn tweezer_tolerance(&self) -> (r: u32) {
        DEFAULT_TWEEZER_TOLERANCE
    }
}

/// A reference to a candle tuple is a candle too.
impl<'a> CandleStick for &'a (i64, i64, i64, i64, i64) {
    open spec fn open_spec(&self) -> i64 {
        self.0
    }

    open spec fn high_spec(&self) -> i64 {
        self.1
    }

    open spec fn low_spec(&self) -> i64 {
        self.2
    }

    open spec fn close_spec(&self) -> i64 {
        self.3
    }

    open spec fn volume_spec(&self) -> i64 {
        self.4
    }

    open spec fn doji_ratio_spec(&self) -> u32 {
        DEFAULT_DOJI_RATIO
    }

    open spec fn marubozu_ratio_spec(&self) -> u32 {
        DEFAULT_MARUBOZU_RATIO
    }

    open spec fn spinning_top_body_ratio_spec(&self) -> u32 {
        DEFAULT_SPINNING_TOP_BODY_RATIO
    }

    open spec fn tweezer_tolerance_spec(&self) -> u32 {
        DEFAULT_TWEEZER_TOLERANCE
    }

    fn open(&self) -> (r: i64) {
        self.0
    }

    fn high(&self) -> (r: i64) {
        self.1
    }

    fn low(&self) -> (r: i64) {
        self.2
    }

    fn close(&self) -> (r: i64) {
        self.3
    }

    fn volume(&self) -> (r: i64) {
        self.4
    }

    fn doji_ratio(&self) -> (r: u32) {
        DEFAULT_DOJI_RATIO
    }

    fn marubozu_ratio(&self) -> (r: u32) {
        DEFAULT_MARUBOZU_RATIO
    }

    fn spinning_top_body_ratio(&self) -> (r: u32) {
        DEFAULT_SPINNING_TOP_BODY_RATIO
    }

    fn tweezer_tolerance(&self) -> (r: u32) {
        DEFAULT_TWEEZER_TOLERANCE
    }
}

} // verus!
