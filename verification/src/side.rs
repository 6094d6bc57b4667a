//! Direction of an executed trade.

use vstd::prelude::*;

verus! {

/// Direction of a trade (buyer-initiated or seller-initiated).
#[derive(Debug, Clone, Copy, PartialEq, Eq, Structural)]
pub enum TradeSide {
    /// Buyer-initiated (aggressive buy / market buy).
    Buy,
    /// Seller-initiated (aggressive sell / market sell).
    Sell,
}

impl TradeSide {
    /// The sign a trade of this side carries in signed flow measures: `+1` for a buy, `-1` for a sell.
    pub fn sign(self) -> (s: i8)
        ensures
            s == (if self is Buy { 1i8 } else { -1i8 }),
    {
        match self {
            TradeSide::Buy => 1,
            TradeSide::Sell => -1,
        }
    }
}

} // verus!
