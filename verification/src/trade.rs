//! Normalized trade facts.

use vstd::prelude::*;

verus! {

/// Lamports in one whole unit of the reference asset.
pub const LAMPORTS_PER_SOL: u64 = 1_000_000_000;

/// The shape of a trade, seen from the user.
#[derive(Clone, Copy, Debug, PartialEq, Eq, Structural)]
pub enum TradeDirection {
    /// The reference asset was paid for a token.
    Buy,
    /// A token was paid for the reference asset.
    Sell,
    /// One token was paid for another.
    TokenSwap,
    /// Only the reference asset moved.
    Arbitrage,
}

impl TradeDirection {
    /// The name of the direction.
    pub open spec fn text(self) -> Seq<char> {
        match self {
            TradeDirection::Buy => "Buy"@,
            TradeDirection::Sell => "Sell"@,
            TradeDirection::TokenSwap => "TokenSwap"@,
            TradeDirection::Arbitrage => "Arbitrage"@,
        }
    }

    /// The name of the direction.
    pub fn label(&self) -> (name: String)
        ensures
            name@ == self.text(),
    {
        match self {
            TradeDirection::Buy => "Buy".to_owned(),
            TradeDirection::Sell => "Sell".to_owned(),
            TradeDirection::TokenSwap => "TokenSwap".to_owned(),
            TradeDirection::Arbitrage => "Arbitrage".to_owned(),
        }
    }
}

/// A price as an exact ratio, `numerator / denominator`. For a buy or a
/// sell it counts whole units of the reference asset per smallest unit of
/// the token; for a token swap, smallest units paid per smallest unit
/// received.
#[derive(Clone, Copy, Debug, PartialEq, Eq, Structural)]
pub struct Price {
    pub numerator: u128,
    pub denominator: u128,
}

/// The price of a trade. There is one only when both amounts are nonzero.
pub open spec fn trade_price(direction: TradeDirection, amount_in: u64, amount_out: u64) -> Option<
    Price,
> {
    if amount_in > 0 && amount_out > 0 {
        match direction {
            TradeDirection::Buy => Some(
                Price {
                    numerator: amount_in as u128,
                    denominator: (amount_out * LAMPORTS_PER_SOL) as u128,
                },
            ),
            TradeDirection::Sell => Some(
                Price {
                    numerator: amount_out as u128,
                    denominator: (amount_in * LAMPORTS_PER_SOL) as u128,
                },
            ),
            TradeDirection::TokenSwap => Some(
                Price { numerator: amount_in as u128, denominator: amount_out as u128 },
            ),
            TradeDirection::Arbitrage => None,
        }
    } else {
        None
    }
}

/// Computes the price of a trade from its amounts.
pub fn price_of(direction: TradeDirection, amount_in: u64, amount_out: u64) -> (price: Option<
    Price,
>)
    ensures
        price == trade_price(direction, amount_in, amount_out),
        price matches Some(p) ==> p.denominator > 0,
{
    if amount_in == 0 || amount_out == 0 {
        return None;
    }
    let paid: u128 = amount_in as u128;
    let got: u128 = amount_out as u128;
    let scale: u128 = LAMPORTS_PER_SOL as u128;
    proof {
        assert(0 < got * scale <= 0xffff_ffff_ffff_ffff * 1_000_000_000) by (nonlinear_arith)
            requires
                0 < got <= 0xffff_ffff_ffff_ffff,
                scale == 1_000_000_000,
        ;
        assert(0 < paid * scale <= 0xffff_ffff_ffff_ffff * 1_000_000_000) by (nonlinear_arith)
            requires
                0 < paid <= 0xffff_ffff_ffff_ffff,
                scale == 1_000_000_000,
        ;
    }
    match direction {
        TradeDirection::Buy => Some(Price { numerator: paid, denominator: got * scale }),
        TradeDirection::Sell => Some(Price { numerator: got, denominator: paid * scale }),
        TradeDirection::TokenSwap => Some(Price { numerator: paid, denominator: got }),
        TradeDirection::Arbitrage => None,
    }
}

/// One user trade in normalized form. Amounts are in the smallest unit of
/// their asset.
#[derive(Clone, Debug, PartialEq, Eq)]
pub struct TradeInfo {
    pub direction: TradeDirection,
    pub user_address: String,
    pub input_mint: String,
    pub output_mint: String,
    pub amount_in: u64,
    pub amount_out: u64,
    pub price: Option<Price>,
    pub platform: String,
}

/// A trade as a mathematical value.
pub struct TradeFact {
    pub direction: TradeDirection,
    pub user_address: Seq<char>,
    pub input_mint: Seq<char>,
    pub output_mint: Seq<char>,
    pub amount_in: u64,
    pub amount_out: u64,
    pub price: Option<Price>,
    pub platform: Seq<char>,
}

impl View for TradeInfo {
    type V = TradeFact;

    open spec fn view(&self) -> TradeFact {
        TradeFact {
            direction: self.direction,
            user_address: self.user_address@,
            input_mint: self.input_mint@,
            output_mint: self.output_mint@,
            amount_in: self.amount_in,
            amount_out: self.amount_out,
            price: self.price,
            platform: self.platform@,
        }
    }
}

/// The value of an optional trade.
pub open spec fn trade_view(trade: Option<TradeInfo>) -> Option<TradeFact> {
    match trade {
        Some(info) => Some(info@),
        None => None,
    }
}

impl TradeFact {
    /// The asset of the trade that is not the reference asset: what a buy
    /// receives and what a sell pays.
    pub open spec fn token_mint(self) -> Seq<char> {
        match self.direction {
            TradeDirection::Sell => self.input_mint,
            _ => self.output_mint,
        }
    }

    /// The amount of the reference asset that moved, in lamports; 0 for a
    /// swap between two tokens.
    pub open spec fn reference_amount(self) -> u64 {
        match self.direction {
            TradeDirection::Buy => self.amount_in,
            TradeDirection::Sell => self.amount_out,
            TradeDirection::TokenSwap => 0,
            TradeDirection::Arbitrage => self.amount_out,
        }
    }
}

impl TradeInfo {
    /// The asset of the trade that is not the reference asset.
    pub fn token_mint(&self) -> (mint: String)
        ensures
            mint@ == self@.token_mint(),
    {
        match self.direction {
            TradeDirection::Sell => self.input_mint.clone(),
            _ => self.output_mint.clone(),
        }
    }

    /// The amount of the reference asset that moved, in lamports. Its
    /// value in whole units is this amount divided by `LAMPORTS_PER_SOL`.
    pub fn reference_amount(&self) -> (lamports: u64)
        ensures
            lamports == self@.reference_amount(),
    {
        match self.direction {
            TradeDirection::Buy => self.amount_in,
            TradeDirection::Sell => self.amount_out,
            TradeDirection::TokenSwap => 0,
            TradeDirection::Arbitrage => self.amount_out,
        }
    }
}

} // verus!
