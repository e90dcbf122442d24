use vstd::prelude::*;
use crate::candle::PRICE_LIMIT;

verus! {

/// Largest volatility scale an instrument may have, in price sub-units.
pub const VOLATILITY_LIMIT: i64 = 100_000_000_000_000;

/// Largest volume multiplier an instrument may have.
pub const VOLUME_SCALE_LIMIT: u64 = 1_000_000;

/// How an instrument's prices are written.
#[derive(Clone, Copy, Debug, PartialEq, Eq, Structural)]
pub enum Currency {
    /// Two decimals with magnitude suffixes.
    Usd,
    /// Whole numbers grouped with `.`.
    Idr,
}

/// A tracked price series and the parameters that drive its simulation.
#[derive(Debug)]
pub struct Instrument {
    pub name: String,
    pub currency: Currency,
    /// Starting price, in sub-units.
    pub seed: i64,
    /// Largest move of the price in one tick, in sub-units.
    pub volatility: i64,
    /// Multiplier on the drawn base volume.
    pub volume_scale: u64,
}

impl Instrument {
    pub open spec fn wf(&self) -> bool {
        &&& -PRICE_LIMIT <= self.seed <= PRICE_LIMIT
        &&& 0 <= self.volatility <= VOLATILITY_LIMIT
        &&& self.volume_scale <= VOLUME_SCALE_LIMIT
    }
}

fn instrument(name: &str, currency: Currency, seed: i64, volatility: i64, volume_scale: u64) -> (r: Instrument)
    ensures
        r.name@ == name@,
        r.currency == currency,
        r.seed == seed,
        r.volatility == volatility,
        r.volume_scale == volume_scale,
{
    Instrument { name: String::from_str(name), currency, seed, volatility, volume_scale }
}

/// The instruments the dashboard shows, in display order: BTC and ETH
/// against USD, then against IDR.
pub fn default_instruments() -> (r: Vec<Instrument>)
    ensures
        r@.len() == 4,
        forall|i: int| 0 <= i < r@.len() ==> (#[trigger] r@[i]).wf(),
        r@[0].name@ == "USD/BTC"@ && r@[0].currency == Currency::Usd,
        r@[0].seed == 1_038_790_000 && r@[0].volatility == 1_000_000 && r@[0].volume_scale == 5,
        r@[1].name@ == "USD/ETH"@ && r@[1].currency == Currency::Usd,
        r@[1].seed == 25_486_400 && r@[1].volatility == 100_000 && r@[1].volume_scale == 20,
        r@[2].name@ == "IDR/BTC"@ && r@[2].currency == Currency::Idr,
        r@[2].seed == 17_299_980_000_000 && r@[2].volatility == 10_000_000_000 && r@[2].volume_scale == 5,
        r@[3].name@ == "IDR/ETH"@ && r@[3].currency == Currency::Idr,
        r@[3].seed == 426_795_300_000 && r@[3].volatility == 1_000_000_000 && r@[3].volume_scale == 20,
{
    let mut v: Vec<Instrument> = Vec::new();
    v.push(instrument("USD/BTC", Currency::Usd, 1_038_790_000, 1_000_000, 5));
    v.push(instrument("USD/ETH", Currency::Usd, 25_486_400, 100_000, 20));
    v.push(instrument("IDR/BTC", Currency::Idr, 17_299_980_000_000, 10_000_000_000, 5));
    v.push(instrument("IDR/ETH", Currency::Idr, 426_795_300_000, 1_000_000_000, 20));
    v
}

} // verus!
