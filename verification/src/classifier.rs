//! Classification of a user's balance changes into one trade shape.

use crate::amount::{magnitude, unsigned_magnitude};
use crate::balance_delta::{changes_view, BalanceChange, BalanceChangeEntry};
use crate::identifier::{reference_asset, WSOL_MINT};
use crate::trade::{price_of, trade_price, trade_view, Price, TradeDirection, TradeFact, TradeInfo};
use vstd::prelude::*;

verus! {

/// The combined native change: that of the first entry, 0 without one.
pub open spec fn native_change(changes: Seq<BalanceChange>) -> int {
    if changes.len() > 0 {
        changes[0].change as int
    } else {
        0
    }
}

/// The entries after the combined native entry.
pub open spec fn token_changes(changes: Seq<BalanceChange>) -> Seq<BalanceChange> {
    if changes.len() > 0 {
        changes.subrange(1, changes.len() as int)
    } else {
        Seq::empty()
    }
}

/// The entries with a positive change, in order.
pub open spec fn received(tokens: Seq<BalanceChange>) -> Seq<BalanceChange>
    decreases tokens.len(),
{
    if tokens.len() == 0 {
        Seq::empty()
    } else {
        let earlier = received(tokens.drop_last());
        if tokens.last().change > 0 {
            earlier.push(tokens.last())
        } else {
            earlier
        }
    }
}

/// The entries with a negative change, in order.
pub open spec fn spent(tokens: Seq<BalanceChange>) -> Seq<BalanceChange>
    decreases tokens.len(),
{
    if tokens.len() == 0 {
        Seq::empty()
    } else {
        let earlier = spent(tokens.drop_last());
        if tokens.last().change < 0 {
            earlier.push(tokens.last())
        } else {
            earlier
        }
    }
}

/// The entries whose balance changed, in order.
pub open spec fn moved(tokens: Seq<BalanceChange>) -> Seq<BalanceChange>
    decreases tokens.len(),
{
    if tokens.len() == 0 {
        Seq::empty()
    } else {
        let earlier = moved(tokens.drop_last());
        if tokens.last().change != 0 {
            earlier.push(tokens.last())
        } else {
            earlier
        }
    }
}

/// A trade fact with its price.
pub open spec fn priced_trade(
    direction: TradeDirection,
    user: Seq<char>,
    input_mint: Seq<char>,
    output_mint: Seq<char>,
    amount_in: u64,
    amount_out: u64,
    platform: Seq<char>,
) -> TradeFact {
    TradeFact {
        direction,
        user_address: user,
        input_mint,
        output_mint,
        amount_in,
        amount_out,
        price: trade_price(direction, amount_in, amount_out),
        platform,
    }
}

/// The trade that a user's balance changes show, if they show one. The
/// rules are tried in this order: a buy, a sell, a token swap, an
/// arbitrage; any other pattern is not classified.
pub open spec fn classified_trade(
    user: Seq<char>,
    changes: Seq<BalanceChange>,
    platform: Seq<char>,
) -> Option<TradeFact> {
    let native = native_change(changes);
    let gained = received(token_changes(changes));
    let lost = spent(token_changes(changes));
    if native < 0 && gained.len() == 1 && lost.len() == 0 {
        Some(
            priced_trade(
                TradeDirection::Buy,
                user,
                reference_asset(),
                gained[0].mint,
                magnitude(native) as u64,
                gained[0].change as u64,
                platform,
            ),
        )
    } else if native > 0 && lost.len() == 1 && gained.len() == 0 {
        Some(
            priced_trade(
                TradeDirection::Sell,
                user,
                lost[0].mint,
                reference_asset(),
                magnitude(lost[0].change as int) as u64,
                native as u64,
                platform,
            ),
        )
    } else if gained.len() == 1 && lost.len() == 1 && native == 0 {
        Some(
            priced_trade(
                TradeDirection::TokenSwap,
                user,
                lost[0].mint,
                gained[0].mint,
                magnitude(lost[0].change as int) as u64,
                gained[0].change as u64,
                platform,
            ),
        )
    } else if gained.len() == 0 && lost.len() == 0 && native != 0 {
        Some(
            priced_trade(
                TradeDirection::Arbitrage,
                user,
                reference_asset(),
                reference_asset(),
                0,
                magnitude(native) as u64,
                platform,
            ),
        )
    } else {
        None
    }
}

/// Calculated trade information based on balance changes.
#[derive(Clone, Debug, PartialEq, Eq)]
pub struct TradeInfoCalculated {
    pub user_address: String,
    pub direction: String,
    pub input_mint: String,
    pub output_mint: String,
    pub amount_in: u64,
    pub amount_out: u64,
    pub price: Option<Price>,
}

/// Calculated trade information as a mathematical value.
pub struct CalculatedTrade {
    pub user_address: Seq<char>,
    pub direction: Seq<char>,
    pub input_mint: Seq<char>,
    pub output_mint: Seq<char>,
    pub amount_in: u64,
    pub amount_out: u64,
    pub price: Option<Price>,
}

impl View for TradeInfoCalculated {
    type V = CalculatedTrade;

    open spec fn view(&self) -> CalculatedTrade {
        CalculatedTrade {
            user_address: self.user_address@,
            direction: self.direction@,
            input_mint: self.input_mint@,
            output_mint: self.output_mint@,
            amount_in: self.amount_in,
            amount_out: self.amount_out,
            price: self.price,
        }
    }
}

/// The value of optional calculated trade information.
pub open spec fn calculated_view(trade: Option<TradeInfoCalculated>) -> Option<CalculatedTrade> {
    match trade {
        Some(info) => Some(info@),
        None => None,
    }
}

/// A trade without its platform, the direction by its name.
pub open spec fn calculated_from(trade: TradeFact) -> CalculatedTrade {
    CalculatedTrade {
        user_address: trade.user_address,
        direction: trade.direction.text(),
        input_mint: trade.input_mint,
        output_mint: trade.output_mint,
        amount_in: trade.amount_in,
        amount_out: trade.amount_out,
        price: trade.price,
    }
}

/// The calculated trade information that a user's balance changes give.
pub open spec fn calculated_trade(user: Seq<char>, changes: Seq<BalanceChange>) -> Option<
    CalculatedTrade,
> {
    match classified_trade(user, changes, Seq::empty()) {
        Some(trade) => Some(calculated_from(trade)),
        None => None,
    }
}

impl TradeInfoCalculated {
    /// The calculated form of a trade.
    pub fn from_trade(trade: TradeInfo) -> (info: TradeInfoCalculated)
        ensures
            info@ == calculated_from(trade@),
    {
        TradeInfoCalculated {
            user_address: trade.user_address,
            direction: trade.direction.label(),
            input_mint: trade.input_mint,
            output_mint: trade.output_mint,
            amount_in: trade.amount_in,
            amount_out: trade.amount_out,
            price: trade.price,
        }
    }
}

/// Builds a trade with its price.
fn build_trade(
    direction: TradeDirection,
    user: &str,
    input_mint: String,
    output_mint: String,
    amount_in: u64,
    amount_out: u64,
    platform: &str,
) -> (trade: TradeInfo)
    ensures
        trade@ == priced_trade(
            direction,
            user@,
            input_mint@,
            output_mint@,
            amount_in,
            amount_out,
            platform@,
        ),
{
    TradeInfo {
        direction,
        user_address: user.to_owned(),
        input_mint,
        output_mint,
        amount_in,
        amount_out,
        price: price_of(direction, amount_in, amount_out),
        platform: platform.to_owned(),
    }
}

/// Classifies the balance changes of `user_address`, the combined native
/// entry first, into a trade.
pub fn classify_balance_changes(
    user_address: &str,
    changes: &Vec<BalanceChangeEntry>,
    platform: &str,
) -> (trade: Option<TradeInfo>)
    ensures
        trade_view(trade) == classified_trade(user_address@, changes_view(changes@), platform@),
{
    let ghost all = changes_view(changes@);
    let ghost tokens = token_changes(all);
    if changes.len() == 0 {
        assert(received(tokens) =~= Seq::empty());
        assert(spent(tokens) =~= Seq::empty());
        return None;
    }
    let native: i64 = changes[0].change;
    let mut gained: usize = 0;
    let mut lost: usize = 0;
    let mut first_gained: usize = 0;
    let mut first_lost: usize = 0;
    let mut i: usize = 1;
    assert(tokens.take(0) =~= Seq::empty());
    while i < changes.len()
        invariant
            1 <= i <= changes.len(),
            all == changes_view(changes@),
            tokens == token_changes(all),
            tokens.len() == changes.len() - 1,
            gained == received(tokens.take(i - 1)).len(),
            lost == spent(tokens.take(i - 1)).len(),
            gained <= i - 1,
            lost <= i - 1,
            gained > 0 ==> 1 <= first_gained < i && received(tokens.take(i - 1))[0]
                == changes@[first_gained as int]@,
            lost > 0 ==> 1 <= first_lost < i && spent(tokens.take(i - 1))[0]
                == changes@[first_lost as int]@,
        decreases changes.len() - i,
    {
        proof {
            assert(tokens.take(i as int).drop_last() =~= tokens.take(i - 1));
            assert(tokens.take(i as int).last() == changes@[i as int]@);
        }
        let change: i64 = changes[i].change;
        if change > 0 {
            if gained == 0 {
                first_gained = i;
            }
            gained += 1;
        } else if change < 0 {
            if lost == 0 {
                first_lost = i;
            }
            lost += 1;
        }
        i += 1;
    }
    proof {
        assert(tokens.take(i - 1) =~= tokens);
    }
    if native < 0 && gained == 1 && lost == 0 {
        let bought = &changes[first_gained];
        Some(
            build_trade(
                TradeDirection::Buy,
                user_address,
                WSOL_MINT.to_owned(),
                bought.mint.clone(),
                unsigned_magnitude(native),
                bought.change as u64,
                platform,
            ),
        )
    } else if native > 0 && lost == 1 && gained == 0 {
        let sold = &changes[first_lost];
        Some(
            build_trade(
                TradeDirection::Sell,
                user_address,
                sold.mint.clone(),
                WSOL_MINT.to_owned(),
                unsigned_magnitude(sold.change),
                native as u64,
                platform,
            ),
        )
    } else if gained == 1 && lost == 1 && native == 0 {
        let sold = &changes[first_lost];
        let bought = &changes[first_gained];
        Some(
            build_trade(
                TradeDirection::TokenSwap,
                user_address,
                sold.mint.clone(),
                bought.mint.clone(),
                unsigned_magnitude(sold.change),
                bought.change as u64,
                platform,
            ),
        )
    } else if gained == 0 && lost == 0 && native != 0 {
        Some(
            build_trade(
                TradeDirection::Arbitrage,
                user_address,
                WSOL_MINT.to_owned(),
                WSOL_MINT.to_owned(),
                0,
                unsigned_magnitude(native),
                platform,
            ),
        )
    } else {
        None
    }
}

/// Every entry whose balance changed was either received or spent.
pub proof fn lemma_moved_is_received_or_spent(tokens: Seq<BalanceChange>)
    ensures
        moved(tokens).len() == received(tokens).len() + spent(tokens).len(),
    decreases tokens.len(),
{
    if tokens.len() > 0 {
        lemma_moved_is_received_or_spent(tokens.drop_last());
    }
}

/// With no change of the combined native balance, one token spent and one
/// token received are a token swap that pays the spent asset for the
/// received one, whichever of the two entries comes first.
pub proof fn lemma_opposite_pair_is_token_swap(
    user: Seq<char>,
    native: BalanceChange,
    paid: BalanceChange,
    got: BalanceChange,
    platform: Seq<char>,
)
    requires
        native.change == 0,
        paid.change < 0,
        got.change > 0,
    ensures
        classified_trade(user, seq![native, paid, got], platform) == Some(
            priced_trade(
                TradeDirection::TokenSwap,
                user,
                paid.mint,
                got.mint,
                magnitude(paid.change as int) as u64,
                got.change as u64,
                platform,
            ),
        ),
        classified_trade(user, seq![native, got, paid], platform) == classified_trade(
            user,
            seq![native, paid, got],
            platform,
        ),
{
    let forward = token_changes(seq![native, paid, got]);
    let backward = token_changes(seq![native, got, paid]);
    assert(forward =~= seq![paid, got]);
    assert(backward =~= seq![got, paid]);
    assert(forward.drop_last() =~= seq![paid]);
    assert(backward.drop_last() =~= seq![got]);
    assert(seq![paid].drop_last() =~= Seq::<BalanceChange>::empty());
    assert(seq![got].drop_last() =~= Seq::<BalanceChange>::empty());
    reveal_with_fuel(received, 3);
    reveal_with_fuel(spent, 3);
    assert(received(forward) =~= seq![got]);
    assert(spent(forward) =~= seq![paid]);
    assert(received(backward) =~= seq![got]);
    assert(spent(backward) =~= seq![paid]);
}

/// Where no token balance changed and the combined native balance did,
/// the trade is an arbitrage: nothing is paid, and the size of the native
/// change is received.
pub proof fn lemma_native_only_is_arbitrage(
    user: Seq<char>,
    changes: Seq<BalanceChange>,
    platform: Seq<char>,
)
    requires
        changes.len() >= 1,
        changes[0].change != 0,
        moved(token_changes(changes)).len() == 0,
    ensures
        classified_trade(user, changes, platform) == Some(
            priced_trade(
                TradeDirection::Arbitrage,
                user,
                reference_asset(),
                reference_asset(),
                0,
                magnitude(changes[0].change as int) as u64,
                platform,
            ),
        ),
{
    lemma_moved_is_received_or_spent(token_changes(changes));
}

/// Three or more token balances that changed fit no rule: the changes are
/// not classified.
pub proof fn lemma_many_legs_decline(
    user: Seq<char>,
    changes: Seq<BalanceChange>,
    platform: Seq<char>,
)
    requires
        moved(token_changes(changes)).len() >= 3,
    ensures
        classified_trade(user, changes, platform) is None,
{
    lemma_moved_is_received_or_spent(token_changes(changes));
}

/// A drop of the combined native balance with exactly one token received
/// is a buy: the size of the drop is paid in the reference asset.
pub proof fn lemma_single_gain_is_buy(
    user: Seq<char>,
    native: BalanceChange,
    got: BalanceChange,
    platform: Seq<char>,
)
    requires
        native.change < 0,
        got.change > 0,
    ensures
        classified_trade(user, seq![native, got], platform) == Some(
            priced_trade(
                TradeDirection::Buy,
                user,
                reference_asset(),
                got.mint,
                magnitude(native.change as int) as u64,
                got.change as u64,
                platform,
            ),
        ),
{
    let tokens = token_changes(seq![native, got]);
    assert(tokens =~= seq![got]);
    assert(tokens.drop_last() =~= Seq::<BalanceChange>::empty());
    reveal_with_fuel(received, 2);
    reveal_with_fuel(spent, 2);
    assert(received(tokens) =~= seq![got]);
    assert(spent(tokens) =~= Seq::<BalanceChange>::empty());
}

/// A rise of the combined native balance with exactly one token spent is
/// a sell: the rise is received in the reference asset.
pub proof fn lemma_single_loss_is_sell(
    user: Seq<char>,
    native: BalanceChange,
    paid: BalanceChange,
    platform: Seq<char>,
)
    requires
        native.change > 0,
        paid.change < 0,
    ensures
        classified_trade(user, seq![native, paid], platform) == Some(
            priced_trade(
                TradeDirection::Sell,
                user,
                paid.mint,
                reference_asset(),
                magnitude(paid.change as int) as u64,
                native.change as u64,
                platform,
            ),
        ),
{
    let tokens = token_changes(seq![native, paid]);
    assert(tokens =~= seq![paid]);
    assert(tokens.drop_last() =~= Seq::<BalanceChange>::empty());
    reveal_with_fuel(received, 2);
    reveal_with_fuel(spent, 2);
    assert(spent(tokens) =~= seq![paid]);
    assert(received(tokens) =~= Seq::<BalanceChange>::empty());
}

} // verus!
