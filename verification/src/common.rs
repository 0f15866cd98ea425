//! The data model shared by the feed sources and the renderer.

use vstd::prelude::*;

verus! {

/// An exact decimal price with three decimal places: the value is
/// `milli / 1000`. Fixed-point, so percentage displays suffer no
/// rounding drift.
#[derive(Clone, Copy, Debug, PartialEq, Eq, Structural)]
pub struct Fixed3 {
    /// The price in thousandths.
    pub milli: i64,
}

/// An immutable snapshot of one security's price state at a point in
/// time. Updates produce a new record replacing the prior one for the
/// same symbol; a record is never mutated in place.
#[derive(Debug)]
pub struct Stock {
    /// Security code, the unique key across the watch-list.
    pub symbol: String,
    /// Time of the latest price, as seconds since the Unix epoch.
    pub timestamp: i64,
    /// Latest price.
    pub last_done: Fixed3,
    /// Open.
    pub open: Fixed3,
    /// High.
    pub high: Fixed3,
    /// Low.
    pub low: Fixed3,
}

impl Stock {
    /// An exact copy of the record.
    pub fn dup(&self) -> (r: Stock)
        ensures
            r == *self,
    {
        let r = Stock {
            symbol: self.symbol.clone(),
            timestamp: self.timestamp,
            last_done: self.last_done,
            open: self.open,
            high: self.high,
            low: self.low,
        };
        r
    }
}

} // verus!
