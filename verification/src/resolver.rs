//! Resolution of a swap record into a trade: by the assets that the
//! record names, else by the assets that its metadata names, else by the
//! user's balance changes in the transaction.

use crate::balance_delta::{
    balance_changes, is_listed, signer_position, transaction_balance_changes,
};
use crate::classifier::{classified_trade, classify_balance_changes};
use crate::identifier::{base58_text, is_reference_asset, reference_asset, Identifier};
use crate::metadata::{EventMetadata, SwapData};
use crate::trade::{trade_view, TradeDirection, TradeFact, TradeInfo};
use vstd::prelude::*;

verus! {

/// The trade between two named assets. It qualifies when exactly one of
/// them is the reference asset: a buy when the reference asset is paid, a
/// sell when it is received.
pub open spec fn legs_trade(
    user: Seq<char>,
    input_mint: Seq<char>,
    output_mint: Seq<char>,
    amount_in: u64,
    amount_out: u64,
    platform: Seq<char>,
) -> Option<TradeFact> {
    if input_mint == reference_asset() && output_mint != reference_asset() {
        Some(
            TradeFact {
                direction: TradeDirection::Buy,
                user_address: user,
                input_mint,
                output_mint,
                amount_in,
                amount_out,
                price: None,
                platform,
            },
        )
    } else if output_mint == reference_asset() && input_mint != reference_asset() {
        Some(
            TradeFact {
                direction: TradeDirection::Sell,
                user_address: user,
                input_mint,
                output_mint,
                amount_in,
                amount_out,
                price: None,
                platform,
            },
        )
    } else {
        None
    }
}

/// The trade between the two assets of `legs`, if there are any.
pub open spec fn named_trade(
    user: Seq<char>,
    legs: Option<SwapData>,
    amount_in: u64,
    amount_out: u64,
    platform: Seq<char>,
) -> Option<TradeFact> {
    match legs {
        Some(named) => legs_trade(
            user,
            base58_text(named.from_mint@),
            base58_text(named.to_mint@),
            amount_in,
            amount_out,
            platform,
        ),
        None => None,
    }
}

/// The trade that the user's balance changes show, where the metadata
/// carries the raw transaction.
pub open spec fn balance_trade(
    user: Seq<char>,
    metadata: EventMetadata,
    platform: Seq<char>,
) -> Option<TradeFact> {
    match metadata.raw_transaction {
        Some(tx) => classified_trade(user, balance_changes(tx@, user), platform),
        None => None,
    }
}

/// The trade that a record resolves to. Three strategies are tried in
/// order and the first that yields a trade wins: the assets that the
/// record itself names, the assets that the metadata names, the balance
/// changes of the user.
pub open spec fn resolved_trade(
    user: Identifier,
    direct: Option<SwapData>,
    metadata: EventMetadata,
    amount_in: u64,
    amount_out: u64,
    platform: Seq<char>,
) -> Option<TradeFact> {
    let user_text = base58_text(user@);
    let by_fields = named_trade(user_text, direct, amount_in, amount_out, platform);
    let by_context = named_trade(user_text, metadata.swap_data, amount_in, amount_out, platform);
    if by_fields is Some {
        by_fields
    } else if by_context is Some {
        by_context
    } else {
        balance_trade(user_text, metadata, platform)
    }
}

/// The strategy that resolved a trade.
#[derive(Clone, Copy, Debug, PartialEq, Eq, Structural)]
pub enum TradeSource {
    /// The assets that the record itself names.
    RecordFields,
    /// The assets that the metadata names.
    Context,
    /// The balance changes of the user. `user_listed` tells whether the
    /// account list names the user; where it does not, the balances are
    /// those of the fee payer.
    BalanceChanges { user_listed: bool },
}

/// The strategy that resolves a record, if one does.
pub open spec fn resolved_source(
    user: Identifier,
    direct: Option<SwapData>,
    metadata: EventMetadata,
    amount_in: u64,
    amount_out: u64,
    platform: Seq<char>,
) -> Option<TradeSource> {
    let user_text = base58_text(user@);
    if named_trade(user_text, direct, amount_in, amount_out, platform) is Some {
        Some(TradeSource::RecordFields)
    } else if named_trade(user_text, metadata.swap_data, amount_in, amount_out, platform)
        is Some {
        Some(TradeSource::Context)
    } else if balance_trade(user_text, metadata, platform) is Some {
        Some(
            TradeSource::BalanceChanges {
                user_listed: is_listed(metadata.raw_transaction->Some_0@.account_keys, user_text),
            },
        )
    } else {
        None
    }
}

/// Resolves a trade between two assets given by their texts.
pub fn trade_from_legs(
    user: &str,
    input_mint: &str,
    output_mint: &str,
    amount_in: u64,
    amount_out: u64,
    platform: &str,
) -> (trade: Option<TradeInfo>)
    ensures
        trade_view(trade) == legs_trade(
            user@,
            input_mint@,
            output_mint@,
            amount_in,
            amount_out,
            platform@,
        ),
{
    let pays_reference = is_reference_asset(input_mint);
    let gets_reference = is_reference_asset(output_mint);
    if pays_reference == gets_reference {
        return None;
    }
    let direction = if pays_reference {
        TradeDirection::Buy
    } else {
        TradeDirection::Sell
    };
    Some(
        TradeInfo {
            direction,
            user_address: user.to_owned(),
            input_mint: input_mint.to_owned(),
            output_mint: output_mint.to_owned(),
            amount_in,
            amount_out,
            price: None,
            platform: platform.to_owned(),
        },
    )
}

/// Resolves a trade between the two assets of `legs`.
fn trade_from_named(
    user: &str,
    legs: &Option<SwapData>,
    amount_in: u64,
    amount_out: u64,
    platform: &str,
) -> (trade: Option<TradeInfo>)
    ensures
        trade_view(trade) == named_trade(user@, *legs, amount_in, amount_out, platform@),
{
    match legs {
        Some(named) => {
            let input_mint = named.from_mint.to_base58();
            let output_mint = named.to_mint.to_base58();
            trade_from_legs(
                user,
                input_mint.as_str(),
                output_mint.as_str(),
                amount_in,
                amount_out,
                platform,
            )
        },
        None => None,
    }
}

/// Resolves a record into a trade and tells which strategy resolved it,
/// or declines. To decline is a normal outcome: the record is not a
/// qualifying trade.
pub fn resolve_trade_with_source(
    user: &Identifier,
    direct: &Option<SwapData>,
    metadata: &EventMetadata,
    amount_in: u64,
    amount_out: u64,
    platform: &str,
) -> (resolved: Option<(TradeInfo, TradeSource)>)
    ensures
        resolved is Some <==> resolved_trade(
            *user,
            *direct,
            *metadata,
            amount_in,
            amount_out,
            platform@,
        ) is Some,
        resolved matches Some(found) ==> {
            &&& Some(found.0@) == resolved_trade(
                *user,
                *direct,
                *metadata,
                amount_in,
                amount_out,
                platform@,
            )
            &&& Some(found.1) == resolved_source(
                *user,
                *direct,
                *metadata,
                amount_in,
                amount_out,
                platform@,
            )
        },
{
    let user_text = user.to_base58();
    match trade_from_named(user_text.as_str(), direct, amount_in, amount_out, platform) {
        Some(trade) => {
            return Some((trade, TradeSource::RecordFields));
        },
        None => {},
    }
    match trade_from_named(
        user_text.as_str(),
        &metadata.swap_data,
        amount_in,
        amount_out,
        platform,
    ) {
        Some(trade) => {
            return Some((trade, TradeSource::Context));
        },
        None => {},
    }
    match &metadata.raw_transaction {
        Some(tx) => {
            let changes = transaction_balance_changes(tx, user_text.as_str());
            match classify_balance_changes(user_text.as_str(), &changes, platform) {
                Some(trade) => {
                    let position = signer_position(&tx.account_keys, user_text.as_str());
                    let user_listed = position.is_some();
                    Some((trade, TradeSource::BalanceChanges { user_listed }))
                },
                None => None,
            }
        },
        None => None,
    }
}

/// Resolves a record into a trade, or declines. To decline is a normal
/// outcome: the record is not a qualifying trade.
pub fn resolve_trade(
    user: &Identifier,
    direct: &Option<SwapData>,
    metadata: &EventMetadata,
    amount_in: u64,
    amount_out: u64,
    platform: &str,
) -> (trade: Option<TradeInfo>)
    ensures
        trade_view(trade) == resolved_trade(
            *user,
            *direct,
            *metadata,
            amount_in,
            amount_out,
            platform@,
        ),
{
    match resolve_trade_with_source(user, direct, metadata, amount_in, amount_out, platform) {
        Some(found) => Some(found.0),
        None => None,
    }
}

/// Resolution is a function of the record: two trades that both meet the
/// contract of `resolve_trade` for the same record are the same trade.
pub proof fn lemma_resolution_is_repeatable(
    user: Identifier,
    direct: Option<SwapData>,
    metadata: EventMetadata,
    amount_in: u64,
    amount_out: u64,
    platform: Seq<char>,
    first: Option<TradeInfo>,
    second: Option<TradeInfo>,
)
    requires
        trade_view(first) == resolved_trade(
            user,
            direct,
            metadata,
            amount_in,
            amount_out,
            platform,
        ),
        trade_view(second) == resolved_trade(
            user,
            direct,
            metadata,
            amount_in,
            amount_out,
            platform,
        ),
    ensures
        trade_view(first) == trade_view(second),
        first is Some <==> second is Some,
{
}

/// A record that names the reference asset on both sides is declined by
/// its own fields, and resolution goes on to the metadata's assets and
/// then to the balance changes, as for a record that names no assets.
pub proof fn lemma_reference_on_both_sides_falls_through(
    user: Identifier,
    direct: SwapData,
    metadata: EventMetadata,
    amount_in: u64,
    amount_out: u64,
    platform: Seq<char>,
)
    requires
        base58_text(direct.from_mint@) == reference_asset(),
        base58_text(direct.to_mint@) == reference_asset(),
    ensures
        named_trade(base58_text(user@), Some(direct), amount_in, amount_out, platform) is None,
        resolved_trade(user, Some(direct), metadata, amount_in, amount_out, platform)
            == resolved_trade(user, None, metadata, amount_in, amount_out, platform),
{
}

} // verus!
