use vstd::prelude::*;
use crate::candle::{Candle, PRICE_LIMIT, SUBUNITS, spec_max, spec_min};
use crate::market::Instrument;

verus! {

/// Seconds of simulated time between two rounds of ticks.
pub const TICK_SECONDS: i64 = 60;

/// Bounds of the base volume draw, in sub-units: 100 to 1000 whole units.
pub const BASE_VOLUME_MIN: i64 = 100 * SUBUNITS;
pub const BASE_VOLUME_MAX: i64 = 1000 * SUBUNITS;

/// Relies on rand's `random_range` over an inclusive range: a value drawn
/// from the thread-local generator, within both bounds.
#[verifier::external_body]
fn draw_between(lo: i64, hi: i64) -> (r: i64)
    requires
        lo <= hi,
    ensures
        lo <= r <= hi,
{
    rand::random_range(lo..=hi)
}

/// The random draws that decide one candle.
#[derive(Clone, Copy, Debug, PartialEq, Eq, Structural)]
pub struct Draws {
    /// Change of the price, within plus or minus the volatility.
    pub movement: i64,
    /// Extension of the high above the body, up to a fifth of the volatility.
    pub upper_wick: i64,
    /// Extension of the low below the body, up to a fifth of the volatility.
    pub lower_wick: i64,
    /// Base volume before the instrument's multiplier.
    pub base_volume: i64,
}

impl Draws {
    /// Draws that fit an instrument of the given volatility.
    pub open spec fn fit(&self, volatility: int) -> bool {
        &&& -volatility <= self.movement <= volatility
        &&& 0 <= self.upper_wick <= volatility / 5
        &&& 0 <= self.lower_wick <= volatility / 5
        &&& BASE_VOLUME_MIN <= self.base_volume <= BASE_VOLUME_MAX
    }
}

/// `open + movement`, held within the price limits.
pub open spec fn moved_price(open: int, movement: int) -> int {
    let p = open + movement;
    if p > PRICE_LIMIT { PRICE_LIMIT as int } else if p < -PRICE_LIMIT { -PRICE_LIMIT } else { p }
}

/// Builds the candle that opens at `open` and follows the draws.
pub fn next_candle(inst: &Instrument, open: i64, time: i64, d: Draws) -> (c: Candle)
    requires
        inst.wf(),
        -PRICE_LIMIT <= open <= PRICE_LIMIT,
        d.fit(inst.volatility as int),
    ensures
        c.wf(),
        c.time == time,
        c.open == open,
        c.close == moved_price(open as int, d.movement as int),
        open - inst.volatility <= c.close <= open + inst.volatility,
        c.high == spec_max(open as int, c.close as int) + d.upper_wick,
        c.low == spec_min(open as int, c.close as int) - d.lower_wick,
        c.volume == d.base_volume * inst.volume_scale,
        BASE_VOLUME_MIN * inst.volume_scale <= c.volume <= BASE_VOLUME_MAX * inst.volume_scale,
{
    let p = open + d.movement;
    let close = if p > PRICE_LIMIT { PRICE_LIMIT } else if p < -PRICE_LIMIT { -PRICE_LIMIT } else { p };
    let top = if open >= close { open } else { close };
    let bottom = if open <= close { open } else { close };
    assert((d.base_volume as u64) * inst.volume_scale <= 10_000_000 * 1_000_000) by (nonlinear_arith)
        requires
            0 <= d.base_volume <= 10_000_000,
            inst.volume_scale <= 1_000_000,
    ;
    assert(BASE_VOLUME_MIN * inst.volume_scale <= (d.base_volume as u64) * inst.volume_scale
        <= BASE_VOLUME_MAX * inst.volume_scale) by (nonlinear_arith)
        requires
            BASE_VOLUME_MIN <= d.base_volume <= BASE_VOLUME_MAX,
    ;
    let volume = (d.base_volume as u64) * inst.volume_scale;
    Candle { time, open, high: top + d.upper_wick, low: bottom - d.lower_wick, close, volume }
}

/// Draws the randomness for one candle of an instrument.
pub fn draw(inst: &Instrument) -> (d: Draws)
    requires
        inst.wf(),
    ensures
        d.fit(inst.volatility as int),
{
    let movement = draw_between(-inst.volatility, inst.volatility);
    let upper_wick = draw_between(0, inst.volatility / 5);
    let lower_wick = draw_between(0, inst.volatility / 5);
    let base_volume = draw_between(BASE_VOLUME_MIN, BASE_VOLUME_MAX);
    Draws { movement, upper_wick, lower_wick, base_volume }
}

/// The simulation: a running price per instrument and a logical clock.
pub struct TickGenerator {
    pub instruments: Vec<Instrument>,
    pub prices: Vec<i64>,
    /// Time given to the candles of the next round.
    pub time: i64,
}

impl TickGenerator {
    pub open spec fn wf(&self) -> bool {
        &&& self.prices@.len() == self.instruments@.len()
        &&& forall|i: int| 0 <= i < self.instruments@.len() ==> (#[trigger] self.instruments@[i]).wf()
        &&& forall|i: int| 0 <= i < self.prices@.len() ==>
            -PRICE_LIMIT <= #[trigger] self.prices@[i] <= PRICE_LIMIT
    }

    /// A generator whose prices start at the instruments' seeds and whose
    /// first round carries `start_time`.
    pub fn new(instruments: Vec<Instrument>, start_time: i64) -> (g: TickGenerator)
        requires
            forall|i: int| 0 <= i < instruments@.len() ==> (#[trigger] instruments@[i]).wf(),
        ensures
            g.wf(),
            g.instruments@ == instruments@,
            g.time == start_time,
            forall|i: int| 0 <= i < instruments@.len() ==> #[trigger] g.prices@[i] == instruments@[i].seed,
    {
        let mut prices: Vec<i64> = Vec::new();
        let mut k: usize = 0;
        while k < instruments.len()
            invariant
                k <= instruments@.len(),
                prices@.len() == k,
                forall|i: int| 0 <= i < instruments@.len() ==> (#[trigger] instruments@[i]).wf(),
                forall|i: int| 0 <= i < k ==> #[trigger] prices@[i] == instruments@[i].seed,
            decreases instruments@.len() - k,
        {
            prices.push(instruments[k].seed);
            k = k + 1;
        }
        TickGenerator { instruments, prices, time: start_time }
    }

    /// Runs one round: one candle per instrument, in registry order, all with
    /// the current time; each opens at the instrument's running price, which
    /// then becomes its close. The clock then advances by one tick, staying
    /// put at the end of the `i64` range.
    pub fn tick(&mut self) -> (out: Vec<Candle>)
        requires
            old(self).wf(),
        ensures
            final(self).wf(),
            final(self).instruments@ == old(self).instruments@,
            final(self).time == (if old(self).time <= i64::MAX - TICK_SECONDS {
                old(self).time + TICK_SECONDS
            } else {
                old(self).time as int
            }),
            out@.len() == old(self).instruments@.len(),
            forall|i: int| 0 <= i < out@.len() ==> {
                let c = #[trigger] out@[i];
                let inst = old(self).instruments@[i];
                &&& c.wf()
                &&& c.time == old(self).time
                &&& c.open == old(self).prices@[i]
                &&& c.open - inst.volatility <= c.close <= c.open + inst.volatility
                &&& c.high <= spec_max(c.open as int, c.close as int) + inst.volatility / 5
                &&& c.low >= spec_min(c.open as int, c.close as int) - inst.volatility / 5
                &&& BASE_VOLUME_MIN * inst.volume_scale <= c.volume
                    <= BASE_VOLUME_MAX * inst.volume_scale
                &&& final(self).prices@[i] == c.close
            },
    {
        let mut out: Vec<Candle> = Vec::new();
        let n = self.instruments.len();
        let mut k: usize = 0;
        while k < n
            invariant
                self.wf(),
                n == self.instruments@.len(),
                self.instruments@ == old(self).instruments@,
                self.time == old(self).time,
                k <= n,
                out@.len() == k,
                forall|i: int| k <= i < n ==> #[trigger] self.prices@[i] == old(self).prices@[i],
                forall|i: int| 0 <= i < k ==> {
                    let c = #[trigger] out@[i];
                    let inst = old(self).instruments@[i];
                    &&& c.wf()
                    &&& c.time == old(self).time
                    &&& c.open == old(self).prices@[i]
                    &&& c.open - inst.volatility <= c.close <= c.open + inst.volatility
                    &&& c.high <= spec_max(c.open as int, c.close as int) + inst.volatility / 5
                    &&& c.low >= spec_min(c.open as int, c.close as int) - inst.volatility / 5
                    &&& BASE_VOLUME_MIN * inst.volume_scale <= c.volume
                        <= BASE_VOLUME_MAX * inst.volume_scale
                    &&& self.prices@[i] == c.close
                },
            decreases n - k,
        {
            let open = self.prices[k];
            assert(self.instruments@[k as int].wf());
            let d = draw(&self.instruments[k]);
            let c = next_candle(&self.instruments[k], open, self.time, d);
            out.push(c);
            self.prices.set(k, c.close);
            k = k + 1;
        }
        if self.time <= i64::MAX - TICK_SECONDS {
            self.time = self.time + TICK_SECONDS;
        }
        out
    }
}

} // verus!
