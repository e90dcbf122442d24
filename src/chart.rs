use vstd::prelude::*;
use crate::candle::{Candle, SUBUNITS, spec_max, spec_min};
use crate::clock::{format_time, hour_minute_text, invalid_time_text, on_calendar};
use crate::digits::{decimal, push_decimal};
use crate::format::{
    format_idr, format_usd, idr_text, magnitude, round_half_even, rounded_half_even, sign_text,
    two_decimals, usd_text,
};
use crate::market::Currency;

verus! {

/// The lowest low of a non-empty run of candles.
pub open spec fn lowest(cs: Seq<Candle>) -> int
    decreases cs.len(),
{
    if cs.len() <= 1 {
        cs[0].low as int
    } else {
        spec_min(lowest(cs.drop_last()), cs.last().low as int)
    }
}

/// The highest high of a non-empty run of candles.
pub open spec fn highest(cs: Seq<Candle>) -> int
    decreases cs.len(),
{
    if cs.len() <= 1 {
        cs[0].high as int
    } else {
        spec_max(highest(cs.drop_last()), cs.last().high as int)
    }
}

/// The largest volume of a run of candles; zero for none.
pub open spec fn largest_volume(cs: Seq<Candle>) -> int
    decreases cs.len(),
{
    if cs.len() == 0 {
        0
    } else {
        spec_max(largest_volume(cs.drop_last()), cs.last().volume as int)
    }
}

pub open spec fn all_wf(cs: Seq<Candle>) -> bool {
    forall|i: int| 0 <= i < cs.len() ==> #[trigger] cs[i].wf()
}

/// The drawing of one candle: a wick over the whole range and a body
/// between open and close, coloured by direction.
#[derive(Clone, Copy, Debug, PartialEq, Eq, Structural)]
pub struct CandleBar {
    pub wick_low: i64,
    pub wick_high: i64,
    pub body_low: i64,
    pub body_high: i64,
    /// Closed at or above the open.
    pub rising: bool,
}

pub open spec fn bar_of(c: Candle) -> CandleBar {
    CandleBar {
        wick_low: c.low,
        wick_high: c.high,
        body_low: spec_min(c.open as int, c.close as int) as i64,
        body_high: spec_max(c.open as int, c.close as int) as i64,
        rising: c.close >= c.open,
    }
}

/// The candlestick chart: bar `i` stands in slot `i` of `0..bars.len()`,
/// and the price axis spans `y_min..y_max`.
pub struct PriceChart {
    pub bars: Vec<CandleBar>,
    pub y_min: i64,
    pub y_max: i64,
}

/// A tenth of the price range, the margin above and below the candles.
pub open spec fn price_padding(cs: Seq<Candle>) -> int {
    (highest(cs) - lowest(cs)) / 10
}

proof fn lemma_extremes_bounded(cs: Seq<Candle>)
    requires
        cs.len() > 0,
        all_wf(cs),
    ensures
        -2_000_000_000_000_000 <= lowest(cs) <= highest(cs) <= 2_000_000_000_000_000,
        forall|i: int| 0 <= i < cs.len() ==> lowest(cs) <= #[trigger] cs[i].low && cs[i].high <= highest(cs),
    decreases cs.len(),
{
    assert(cs[0].wf());
    if cs.len() > 1 {
        let init = cs.drop_last();
        assert(all_wf(init)) by {
            assert forall|i: int| 0 <= i < init.len() implies #[trigger] init[i].wf() by {
                assert(init[i] == cs[i]);
            }
        }
        lemma_extremes_bounded(init);
        assert(cs.last().wf());
        assert forall|i: int| 0 <= i < cs.len() implies lowest(cs) <= #[trigger] cs[i].low && cs[i].high <= highest(cs) by {
            if i < cs.len() - 1 {
                assert(cs[i] == init[i]);
            }
        }
    }
}

/// Projects a window onto candlestick geometry; `None` for an empty window.
pub fn candlestick_series(candles: &Vec<Candle>) -> (r: Option<PriceChart>)
    requires
        all_wf(candles@),
    ensures
        candles@.len() == 0 <==> r.is_none(),
        r matches Some(ch) ==> {
            &&& ch.y_min <= ch.y_max
            &&& ch.y_min == lowest(candles@) - price_padding(candles@)
            &&& ch.y_max == highest(candles@) + price_padding(candles@)
            &&& ch.bars@.len() == candles@.len()
            &&& forall|i: int| 0 <= i < candles@.len() ==> #[trigger] ch.bars@[i] == bar_of(candles@[i])
        },
{
    let n = candles.len();
    if n == 0 {
        return None;
    }
    let mut lo = candles[0].low;
    let mut hi = candles[0].high;
    let mut bars: Vec<CandleBar> = Vec::new();
    let mut k: usize = 0;
    while k < n
        invariant
            0 < n == candles@.len(),
            all_wf(candles@),
            k <= n,
            bars@.len() == k,
            k > 0 ==> lo == lowest(candles@.take(k as int)) && hi == highest(candles@.take(k as int)),
            k == 0 ==> lo == candles@[0].low && hi == candles@[0].high,
            forall|i: int| 0 <= i < k ==> #[trigger] bars@[i] == bar_of(candles@[i]),
        decreases n - k,
    {
        let c = candles[k];
        assert(candles@[k as int].wf());
        if k > 0 {
            if c.low < lo {
                lo = c.low;
            }
            if c.high > hi {
                hi = c.high;
            }
        }
        proof {
            assert(candles@.take(k + 1).drop_last() =~= candles@.take(k as int));
        }
        let rising = c.close >= c.open;
        let body_low = if rising { c.open } else { c.close };
        let body_high = if rising { c.close } else { c.open };
        bars.push(CandleBar { wick_low: c.low, wick_high: c.high, body_low, body_high, rising });
        k = k + 1;
    }
    proof {
        assert(candles@.take(n as int) =~= candles@);
        lemma_extremes_bounded(candles@);
    }
    let pad = (hi - lo) / 10;
    Some(PriceChart { bars, y_min: lo - pad, y_max: hi + pad })
}

/// The volume chart: bar `i` in slot `i` with height `volumes[i]`, the
/// axis topped at `y_top`, labelled `0`, half the top and the top, in whole
/// units.
pub struct VolumeChart {
    pub volumes: Vec<u64>,
    pub y_top: u64,
    pub y_labels: Vec<String>,
}

/// Eleven tenths of the largest volume, rounded down.
pub open spec fn volume_top(cs: Seq<Candle>) -> int {
    largest_volume(cs) * 11 / 10
}

/// The numeral of a sub-unit amount rounded to whole units, ties to even.
pub open spec fn whole_text(n: nat, per_unit: nat) -> Seq<char> {
    decimal(round_half_even(n, per_unit))
}

proof fn lemma_largest_volume_bounded(cs: Seq<Candle>)
    requires
        all_wf(cs),
    ensures
        0 <= largest_volume(cs) <= 100_000_000_000_000,
    decreases cs.len(),
{
    if cs.len() > 0 {
        let init = cs.drop_last();
        assert(all_wf(init)) by {
            assert forall|i: int| 0 <= i < init.len() implies #[trigger] init[i].wf() by {
                assert(init[i] == cs[i]);
            }
        }
        lemma_largest_volume_bounded(init);
        assert(cs[cs.len() - 1].wf());
    }
}

fn whole_label(n: u64, per_unit: u64) -> (r: String)
    requires
        per_unit > 1,
    ensures
        r@ == whole_text(n as nat, per_unit as nat),
{
    let rounded = rounded_half_even(n, per_unit);
    let mut s = String::new();
    push_decimal(&mut s, rounded);
    assert(s@ =~= whole_text(n as nat, per_unit as nat));
    s
}

/// Projects a window onto volume bars; `None` for an empty window.
pub fn volume_series(candles: &Vec<Candle>) -> (r: Option<VolumeChart>)
    requires
        all_wf(candles@),
    ensures
        candles@.len() == 0 <==> r.is_none(),
        r matches Some(ch) ==> {
            &&& ch.y_top == volume_top(candles@)
            &&& ch.volumes@.len() == candles@.len()
            &&& forall|i: int| 0 <= i < candles@.len() ==> #[trigger] ch.volumes@[i] == candles@[i].volume
            &&& ch.y_labels@.len() == 3
            &&& ch.y_labels@[0]@ == seq!['0']
            &&& ch.y_labels@[1]@ == whole_text(ch.y_top as nat, 2 * SUBUNITS as nat)
            &&& ch.y_labels@[2]@ == whole_text(ch.y_top as nat, SUBUNITS as nat)
        },
{
    let n = candles.len();
    if n == 0 {
        return None;
    }
    let mut top: u64 = 0;
    let mut volumes: Vec<u64> = Vec::new();
    let mut k: usize = 0;
    while k < n
        invariant
            n == candles@.len(),
            all_wf(candles@),
            k <= n,
            volumes@.len() == k,
            top == largest_volume(candles@.take(k as int)),
            forall|i: int| 0 <= i < k ==> #[trigger] volumes@[i] == candles@[i].volume,
        decreases n - k,
    {
        let v = candles[k].volume;
        proof {
            assert(candles@.take(k + 1).drop_last() =~= candles@.take(k as int));
        }
        if v > top {
            top = v;
        }
        volumes.push(v);
        k = k + 1;
    }
    proof {
        assert(candles@.take(n as int) =~= candles@);
        lemma_largest_volume_bounded(candles@);
    }
    let y_top = top * 11 / 10;
    let mut y_labels: Vec<String> = Vec::new();
    proof { reveal_strlit("0"); }
    y_labels.push(String::from_str("0"));
    y_labels.push(whole_label(y_top, 2 * SUBUNITS as u64));
    y_labels.push(whole_label(y_top, SUBUNITS as u64));
    Some(VolumeChart { volumes, y_top, y_labels })
}

/// The times that get a label on the time axis: the first and the last
/// when there are more than five candles, otherwise every one.
pub open spec fn label_times(cs: Seq<Candle>) -> Seq<i64> {
    if cs.len() > 5 {
        seq![cs[0].time, cs.last().time]
    } else {
        cs.map_values(|c: Candle| c.time)
    }
}

/// Picks the times of the time-axis labels.
pub fn time_label_stamps(candles: &Vec<Candle>) -> (r: Vec<i64>)
    ensures
        r@ == label_times(candles@),
{
    let n = candles.len();
    let mut out: Vec<i64> = Vec::new();
    if n > 5 {
        out.push(candles[0].time);
        out.push(candles[n - 1].time);
        assert(out@ =~= label_times(candles@));
    } else {
        let mut k: usize = 0;
        while k < n
            invariant
                n == candles@.len(),
                k <= n,
                out@ =~= candles@.take(k as int).map_values(|c: Candle| c.time),
            decreases n - k,
        {
            out.push(candles[k].time);
            k = k + 1;
        }
        assert(candles@.take(n as int) =~= candles@);
    }
    out
}

/// The labels of the time axis, each the local `HH:MM` of its time or the
/// invalid-time text.
pub fn time_labels(candles: &Vec<Candle>) -> (r: Vec<String>)
    ensures
        r@.len() == label_times(candles@).len(),
        forall|i: int| 0 <= i < r@.len() ==> {
            let t = label_times(candles@)[i] as int;
            &&& (((#[trigger] r@[i])@ == invalid_time_text()) <==> !on_calendar(t))
            &&& (on_calendar(t) ==> exists|o: int|
                -86_400 < o < 86_400 && r@[i]@ == #[trigger] hour_minute_text(t + o))
        },
{
    let stamps = time_label_stamps(candles);
    let mut out: Vec<String> = Vec::new();
    let mut k: usize = 0;
    while k < stamps.len()
        invariant
            stamps@ == label_times(candles@),
            k <= stamps@.len(),
            out@.len() == k,
            forall|i: int| 0 <= i < k ==> {
                let t = label_times(candles@)[i] as int;
                &&& (((#[trigger] out@[i])@ == invalid_time_text()) <==> !on_calendar(t))
                &&& (on_calendar(t) ==> exists|o: int|
                    -86_400 < o < 86_400 && out@[i]@ == #[trigger] hour_minute_text(t + o))
            },
        decreases stamps@.len() - k,
    {
        let label = format_time(stamps[k]);
        let ghost before = out@;
        out.push(label);
        proof {
            assert forall|i: int| 0 <= i < k + 1 implies {
                let t = label_times(candles@)[i] as int;
                &&& (((#[trigger] out@[i])@ == invalid_time_text()) <==> !on_calendar(t))
                &&& (on_calendar(t) ==> exists|o: int|
                    -86_400 < o < 86_400 && out@[i]@ == #[trigger] hour_minute_text(t + o))
            } by {
                if i < k {
                    assert(out@[i] == before[i]);
                } else {
                    assert(out@[i] == label);
                }
            }
        }
        k = k + 1;
    }
    out
}

/// `s` preceded by spaces up to `width` characters.
pub open spec fn right_aligned(s: Seq<char>, width: nat) -> Seq<char> {
    if s.len() >= width {
        s
    } else {
        Seq::new((width - s.len()) as nat, |i: int| ' ') + s
    }
}

fn pad_left(s: String, width: usize) -> (r: String)
    ensures
        r@ == right_aligned(s@, width as nat),
{
    proof { reveal_strlit(" "); }
    let n = s.as_str().unicode_len();
    let mut out = String::new();
    let mut k: usize = n;
    while k < width
        invariant
            n == s@.len(),
            n <= k,
            k <= width || k == n,
            out@ =~= Seq::new((k - n) as nat, |i: int| ' '),
        decreases width - k,
    {
        proof { reveal_strlit(" "); }
        let ghost before = out@;
        out.append(" ");
        k = k + 1;
        assert(out@ =~= Seq::new((k - n) as nat, |i: int| ' ')) by {
            assert(out@ =~= before.push(' '));
        }
    }
    out.append(s.as_str());
    assert(out@ =~= right_aligned(s@, width as nat));
    out
}

/// The headline price text of an instrument's currency.
pub open spec fn headline_text(currency: Currency, price: int) -> Seq<char> {
    match currency {
        Currency::Usd => seq!['U', 'S', 'D'] + right_aligned(usd_text(price), 15),
        Currency::Idr => seq!['R', 'p'] + right_aligned(idr_text(price), 16),
    }
}

/// Formats the latest price for the headline, right-aligned after the
/// currency's mark.
pub fn headline(currency: Currency, price: i64) -> (r: String)
    ensures
        r@ == headline_text(currency, price as int),
{
    match currency {
        Currency::Usd => {
            proof { reveal_strlit("USD"); }
            let mut s = String::from_str("USD");
            s.append(pad_left(format_usd(price), 15).as_str());
            s
        },
        Currency::Idr => {
            proof { reveal_strlit("Rp"); }
            let mut s = String::from_str("Rp");
            s.append(pad_left(format_idr(price), 16).as_str());
            s
        },
    }
}

/// Direction of an instrument's last move.
#[derive(Clone, Copy, Debug, PartialEq, Eq, Structural)]
pub enum Trend {
    Up,
    Down,
    Flat,
}

pub open spec fn trend_of(delta: int) -> Trend {
    if delta > 0 { Trend::Up } else if delta < 0 { Trend::Down } else { Trend::Flat }
}

/// The change beside an instrument's name: empty when there is none, else
/// in parentheses with two decimals (USD) or as a whole number (IDR),
/// rounded ties to even, `-` kept on any fall.
pub open spec fn change_text(currency: Currency, delta: int) -> Seq<char> {
    let a = magnitude(delta);
    if delta == 0 {
        Seq::empty()
    } else {
        let body = match currency {
            Currency::Usd => two_decimals(round_half_even(a, 100)),
            Currency::Idr => decimal(round_half_even(a, SUBUNITS as nat)),
        };
        seq!['('] + sign_text(delta < 0) + body + seq![')']
    }
}

/// The direction and the change text of an instrument's last move.
pub fn change_label(currency: Currency, delta: i64) -> (r: (Trend, String))
    ensures
        r.0 == trend_of(delta as int),
        r.1@ == change_text(currency, delta as int),
{
    let trend = if delta > 0 { Trend::Up } else if delta < 0 { Trend::Down } else { Trend::Flat };
    if delta == 0 {
        return (trend, String::new());
    }
    proof {
        reveal_strlit("(");
        reveal_strlit(")");
        reveal_strlit("-");
    }
    let mut s = String::from_str("(");
    if delta < 0 {
        s.append("-");
    }
    let body = match currency {
        Currency::Usd => crate::format::hundredths_text(delta),
        Currency::Idr => whole_label(crate::format::magnitude_of(delta), SUBUNITS as u64),
    };
    s.append(body.as_str());
    s.append(")");
    assert(s@ =~= change_text(currency, delta as int));
    (trend, s)
}

/// A price written in an instrument's currency style.
pub open spec fn price_text(currency: Currency, price: int) -> Seq<char> {
    match currency {
        Currency::Usd => usd_text(price),
        Currency::Idr => idr_text(price),
    }
}

/// Formats a price in the style of its currency.
pub fn format_price(currency: Currency, price: i64) -> (r: String)
    ensures
        r@ == price_text(currency, price as int),
{
    match currency {
        Currency::Usd => format_usd(price),
        Currency::Idr => format_idr(price),
    }
}

/// The price axis labels: the bottom, the middle (rounded down) and the
/// top of the axis.
pub fn price_axis_labels(currency: Currency, chart: &PriceChart) -> (r: Vec<String>)
    requires
        chart.y_min <= chart.y_max,
    ensures
        r@.len() == 3,
        r@[0]@ == price_text(currency, chart.y_min as int),
        r@[1]@ == price_text(currency, chart.y_min + (chart.y_max - chart.y_min) / 2),
        r@[2]@ == price_text(currency, chart.y_max as int),
{
    let mid = (chart.y_min as i128 + (chart.y_max as i128 - chart.y_min as i128) / 2) as i64;
    let mut r: Vec<String> = Vec::new();
    r.push(format_price(currency, chart.y_min));
    r.push(format_price(currency, mid));
    r.push(format_price(currency, chart.y_max));
    r
}

} // verus!
