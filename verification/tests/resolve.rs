use dex_event_parser::balance_delta::{RawTransaction, TokenBalance, TransactionMeta};
use dex_event_parser::identifier::{is_reference_asset, same_text, Identifier, WSOL_MINT};
use dex_event_parser::metadata::{EventMetadata, SwapData};
use dex_event_parser::pumpswap::{PumpSwapBuyEvent, PumpSwapSellEvent};
use dex_event_parser::raydium_cpmm::RaydiumCpmmSwapEvent;
use dex_event_parser::resolver::{
    resolve_trade, resolve_trade_with_source, trade_from_legs, TradeSource,
};
use dex_event_parser::trade::{Price, TradeDirection, TradeInfo};
use dex_event_parser::CopyTradeableEvent;
use solana_sdk::pubkey::Pubkey;
use std::str::FromStr;

fn wsol() -> Identifier {
    Identifier::new(Pubkey::from_str(WSOL_MINT).unwrap().to_bytes())
}

fn key(fill: u8) -> Identifier {
    Identifier::new([fill; 32])
}

fn text(id: &Identifier) -> String {
    Pubkey::new_from_array(id.bytes).to_string()
}

fn context(from: Identifier, to: Identifier) -> EventMetadata {
    EventMetadata {
        swap_data: Some(SwapData { from_mint: from, to_mint: to }),
        ..EventMetadata::blank()
    }
}

fn buy_transaction(user: &Identifier, mint: &Identifier) -> RawTransaction {
    RawTransaction {
        account_keys: vec![text(user)],
        meta: Some(TransactionMeta {
            pre_balances: Some(vec![Some(5_000_000_000)]),
            post_balances: Some(vec![Some(4_000_000_000)]),
            pre_token_balances: vec![],
            post_token_balances: vec![TokenBalance {
                owner: text(user),
                mint: text(mint),
                amount: "500".to_string(),
            }],
        }),
    }
}

#[test]
fn identifier_text_is_base58() {
    assert_eq!(Identifier::zero().to_base58(), "11111111111111111111111111111111");
    assert_eq!(Identifier::default(), Identifier::zero());
    assert_eq!(wsol().to_base58(), WSOL_MINT);
    assert_eq!(
        wsol().bytes,
        [
            6, 155, 136, 87, 254, 171, 129, 132, 251, 104, 127, 99, 70, 24, 192, 53, 218, 196,
            57, 220, 26, 235, 59, 85, 152, 160, 240, 0, 0, 0, 0, 1
        ]
    );
    assert_eq!(key(1).to_base58(), "4vJ9JU1bJJE96FWSJKvHsmmFADCg4gpZQff4P3bkLKi");
    assert_eq!(key(9).to_base58(), text(&key(9)));
}

#[test]
fn reference_asset_is_recognized_by_its_text() {
    assert!(is_reference_asset("So11111111111111111111111111111111111111112"));
    assert!(!is_reference_asset("So11111111111111111111111111111111111111111"));
    assert!(!is_reference_asset(""));
    assert!(same_text("abc", "abc"));
    assert!(!same_text("abc", "abd"));
    assert!(!same_text("abc", "ab"));
}

#[test]
fn cpmm_swap_paying_the_reference_asset_is_a_buy() {
    let mut event = RaydiumCpmmSwapEvent::default();
    event.payer = key(3);
    event.input_token_mint = wsol();
    event.output_token_mint = key(4);
    event.amount_in = 2_000_000_000;
    event.amount_out = 77;
    let trade = event.get_trade_info().unwrap();
    assert_eq!(
        trade,
        TradeInfo {
            direction: TradeDirection::Buy,
            user_address: text(&key(3)),
            input_mint: WSOL_MINT.to_string(),
            output_mint: text(&key(4)),
            amount_in: 2_000_000_000,
            amount_out: 77,
            price: None,
            platform: "RaydiumCpmm".to_string(),
        }
    );
    assert_eq!(trade.token_mint(), text(&key(4)));
    assert_eq!(trade.reference_amount(), 2_000_000_000);
}

#[test]
fn cpmm_swap_receiving_the_reference_asset_is_a_sell() {
    let mut event = RaydiumCpmmSwapEvent::default();
    event.payer = key(3);
    event.input_token_mint = key(4);
    event.output_token_mint = wsol();
    event.amount_in = 77;
    event.amount_out = 3_000_000_000;
    let trade = event.get_trade_info().unwrap();
    assert_eq!(
        trade,
        TradeInfo {
            direction: TradeDirection::Sell,
            user_address: text(&key(3)),
            input_mint: text(&key(4)),
            output_mint: WSOL_MINT.to_string(),
            amount_in: 77,
            amount_out: 3_000_000_000,
            price: None,
            platform: "RaydiumCpmm".to_string(),
        }
    );
    assert_eq!(trade.token_mint(), text(&key(4)));
    assert_eq!(trade.reference_amount(), 3_000_000_000);
}

#[test]
fn swap_without_the_reference_asset_is_declined() {
    let mut event = RaydiumCpmmSwapEvent::default();
    event.payer = key(3);
    event.input_token_mint = key(4);
    event.output_token_mint = key(5);
    event.amount_in = 1;
    event.amount_out = 2;
    assert_eq!(event.get_trade_info(), None);
    assert_eq!(RaydiumCpmmSwapEvent::default().get_trade_info(), None);
}

#[test]
fn reference_asset_on_both_sides_is_declined_by_the_fields() {
    let user = text(&key(3));
    assert_eq!(trade_from_legs(&user, WSOL_MINT, WSOL_MINT, 1, 2, "X"), None);
    let mut event = RaydiumCpmmSwapEvent::default();
    event.payer = key(3);
    event.input_token_mint = wsol();
    event.output_token_mint = wsol();
    event.amount_in = 1;
    event.amount_out = 2;
    assert_eq!(event.get_trade_info(), None);
}

#[test]
fn reference_asset_on_both_sides_falls_through_to_the_context() {
    let mut event = RaydiumCpmmSwapEvent::default();
    event.payer = key(3);
    event.input_token_mint = wsol();
    event.output_token_mint = wsol();
    event.amount_in = 10;
    event.amount_out = 20;
    event.metadata = context(key(8), wsol());
    let trade = event.get_trade_info().unwrap();
    assert_eq!(trade.direction, TradeDirection::Sell);
    assert_eq!(trade.input_mint, text(&key(8)));
    assert_eq!(trade.output_mint, WSOL_MINT);
    assert_eq!(trade.amount_in, 10);
    assert_eq!(trade.amount_out, 20);
}

#[test]
fn reference_asset_on_both_sides_falls_through_to_the_balances() {
    let mut event = RaydiumCpmmSwapEvent::default();
    event.payer = key(3);
    event.input_token_mint = wsol();
    event.output_token_mint = wsol();
    event.amount_in = 10;
    event.amount_out = 20;
    event.metadata = EventMetadata {
        swap_data: Some(SwapData { from_mint: wsol(), to_mint: wsol() }),
        raw_transaction: Some(buy_transaction(&key(3), &key(6))),
        ..EventMetadata::blank()
    };
    let trade = event.get_trade_info().unwrap();
    assert_eq!(
        trade,
        TradeInfo {
            direction: TradeDirection::Buy,
            user_address: text(&key(3)),
            input_mint: WSOL_MINT.to_string(),
            output_mint: text(&key(6)),
            amount_in: 1_000_000_000,
            amount_out: 500,
            price: Some(Price { numerator: 1_000_000_000, denominator: 500_000_000_000 }),
            platform: "RaydiumCpmm".to_string(),
        }
    );
}

#[test]
fn fields_win_over_context_and_balances() {
    let mut event = RaydiumCpmmSwapEvent::default();
    event.payer = key(3);
    event.input_token_mint = key(4);
    event.output_token_mint = wsol();
    event.amount_in = 10;
    event.amount_out = 20;
    event.metadata = EventMetadata {
        swap_data: Some(SwapData { from_mint: wsol(), to_mint: key(9) }),
        raw_transaction: Some(buy_transaction(&key(3), &key(6))),
        ..EventMetadata::blank()
    };
    let trade = event.get_trade_info().unwrap();
    assert_eq!(trade.direction, TradeDirection::Sell);
    assert_eq!(trade.input_mint, text(&key(4)));
    assert_eq!(trade.price, None);
}

#[test]
fn pumpswap_buy_resolves_by_context() {
    let mut event = PumpSwapBuyEvent::default();
    event.user = key(2);
    event.user_quote_amount_in = 1_500_000_000;
    event.base_amount_out = 42;
    event.metadata = context(wsol(), key(7));
    let trade = event.get_trade_info().unwrap();
    assert_eq!(
        trade,
        TradeInfo {
            direction: TradeDirection::Buy,
            user_address: text(&key(2)),
            input_mint: WSOL_MINT.to_string(),
            output_mint: text(&key(7)),
            amount_in: 1_500_000_000,
            amount_out: 42,
            price: None,
            platform: "PumpSwap".to_string(),
        }
    );
}

#[test]
fn pumpswap_buy_resolves_by_filled_fields() {
    let mut event = PumpSwapBuyEvent::default();
    event.user = key(2);
    event.user_quote_amount_in = 1_500_000_000;
    event.base_amount_out = 42;
    event.quote_mint = wsol();
    event.base_mint = key(7);
    let trade = event.get_trade_info().unwrap();
    assert_eq!(trade.direction, TradeDirection::Buy);
    assert_eq!(trade.input_mint, WSOL_MINT);
    assert_eq!(trade.output_mint, text(&key(7)));
    assert_eq!(trade.amount_in, 1_500_000_000);
    assert_eq!(trade.amount_out, 42);
    assert_eq!(trade.platform, "PumpSwap");
}

#[test]
fn pumpswap_buy_without_assets_is_declined() {
    let mut event = PumpSwapBuyEvent::default();
    event.user = key(2);
    event.user_quote_amount_in = 5;
    event.base_amount_out = 6;
    assert_eq!(event.get_trade_info(), None);
    event.metadata = context(key(7), key(8));
    assert_eq!(event.get_trade_info(), None);
}

#[test]
fn pumpswap_sell_resolves_by_context() {
    let mut event = PumpSwapSellEvent::default();
    event.user = key(2);
    event.base_amount_in = 42;
    event.user_quote_amount_out = 900_000_000;
    event.metadata = context(key(7), wsol());
    let trade = event.get_trade_info().unwrap();
    assert_eq!(
        trade,
        TradeInfo {
            direction: TradeDirection::Sell,
            user_address: text(&key(2)),
            input_mint: text(&key(7)),
            output_mint: WSOL_MINT.to_string(),
            amount_in: 42,
            amount_out: 900_000_000,
            price: None,
            platform: "PumpSwap".to_string(),
        }
    );
    assert_eq!(trade.reference_amount(), 900_000_000);
}

#[test]
fn pumpswap_sell_resolves_by_filled_fields() {
    let mut event = PumpSwapSellEvent::default();
    event.user = key(2);
    event.base_amount_in = 42;
    event.user_quote_amount_out = 900_000_000;
    event.base_mint = key(7);
    event.quote_mint = wsol();
    let trade = event.get_trade_info().unwrap();
    assert_eq!(trade.direction, TradeDirection::Sell);
    assert_eq!(trade.input_mint, text(&key(7)));
    assert_eq!(trade.output_mint, WSOL_MINT);
}

#[test]
fn pumpswap_record_without_assets_resolves_by_balances() {
    let mut event = PumpSwapBuyEvent::default();
    event.user = key(2);
    event.metadata = EventMetadata {
        raw_transaction: Some(buy_transaction(&key(2), &key(6))),
        ..EventMetadata::blank()
    };
    let trade = event.get_trade_info().unwrap();
    assert_eq!(trade.direction, TradeDirection::Buy);
    assert_eq!(trade.user_address, text(&key(2)));
    assert_eq!(trade.output_mint, text(&key(6)));
    assert_eq!(trade.amount_in, 1_000_000_000);
    assert_eq!(trade.amount_out, 500);
    assert_eq!(trade.platform, "PumpSwap");
}

#[test]
fn resolution_twice_gives_the_same_trade() {
    let mut event = RaydiumCpmmSwapEvent::default();
    event.payer = key(3);
    event.input_token_mint = wsol();
    event.output_token_mint = key(4);
    event.amount_in = 5;
    event.amount_out = 6;
    let first = event.get_trade_info();
    let second = event.get_trade_info();
    assert!(first.is_some());
    assert_eq!(first, second);

    let mut by_balances = PumpSwapSellEvent::default();
    by_balances.user = key(2);
    by_balances.metadata = EventMetadata {
        raw_transaction: Some(buy_transaction(&key(2), &key(6))),
        ..EventMetadata::blank()
    };
    let first = by_balances.get_trade_info();
    let second = by_balances.get_trade_info();
    assert!(first.is_some());
    assert_eq!(first, second);
}

#[test]
fn record_without_any_source_is_declined() {
    assert_eq!(
        resolve_trade(&key(1), &None, &EventMetadata::blank(), 1, 2, "X"),
        None
    );
    let only_context = context(wsol(), key(5));
    let trade = resolve_trade(&key(1), &None, &only_context, 1, 2, "X").unwrap();
    assert_eq!(trade.direction, TradeDirection::Buy);
    assert_eq!(trade.platform, "X");
}

#[test]
fn resolution_names_its_strategy() {
    let legs = Some(SwapData { from_mint: wsol(), to_mint: key(4) });
    let blank = EventMetadata::blank();
    let (trade, source) = resolve_trade_with_source(&key(1), &legs, &blank, 1, 2, "X").unwrap();
    assert_eq!(source, TradeSource::RecordFields);
    assert_eq!(Some(trade), resolve_trade(&key(1), &legs, &blank, 1, 2, "X"));

    let by_context = context(key(4), wsol());
    let (trade, source) =
        resolve_trade_with_source(&key(1), &None, &by_context, 1, 2, "X").unwrap();
    assert_eq!(source, TradeSource::Context);
    assert_eq!(trade.direction, TradeDirection::Sell);

    let listed = EventMetadata {
        raw_transaction: Some(buy_transaction(&key(1), &key(6))),
        ..EventMetadata::blank()
    };
    let (trade, source) = resolve_trade_with_source(&key(1), &None, &listed, 1, 2, "X").unwrap();
    assert_eq!(source, TradeSource::BalanceChanges { user_listed: true });
    assert_eq!(trade.amount_in, 1_000_000_000);

    assert_eq!(resolve_trade_with_source(&key(1), &None, &blank, 1, 2, "X"), None);
}

#[test]
fn resolution_tells_when_the_fee_payer_stood_in() {
    // The account list names another key: the balances read are the fee payer's.
    let mut tx = buy_transaction(&key(1), &key(6));
    tx.account_keys = vec![text(&key(9))];
    let metadata = EventMetadata { raw_transaction: Some(tx), ..EventMetadata::blank() };
    let (trade, source) =
        resolve_trade_with_source(&key(1), &None, &metadata, 1, 2, "X").unwrap();
    assert_eq!(source, TradeSource::BalanceChanges { user_listed: false });
    assert_eq!(trade.direction, TradeDirection::Buy);
    assert_eq!(trade.user_address, text(&key(1)));
}

#[test]
fn trade_capability_is_offered_at_the_crate_root() {
    let mut event = RaydiumCpmmSwapEvent::default();
    event.input_token_mint = wsol();
    event.output_token_mint = key(4);
    let by_trait: Option<dex_event_parser::TradeInfo> = CopyTradeableEvent::get_trade_info(&event);
    assert_eq!(by_trait, event.get_trade_info());
    assert_eq!(by_trait.unwrap().direction, dex_event_parser::TradeDirection::Buy);
}

fn filled_buy(quote: Identifier, base: Identifier, metadata: EventMetadata) -> PumpSwapBuyEvent {
    let mut event = PumpSwapBuyEvent::default();
    event.user = key(2);
    event.user_quote_amount_in = 1_500_000_000;
    event.base_amount_out = 42;
    event.quote_mint = quote;
    event.base_mint = base;
    event.metadata = metadata;
    event
}

fn filled_sell(base: Identifier, quote: Identifier, metadata: EventMetadata) -> PumpSwapSellEvent {
    let mut event = PumpSwapSellEvent::default();
    event.user = key(2);
    event.base_amount_in = 42;
    event.user_quote_amount_out = 900_000_000;
    event.base_mint = base;
    event.quote_mint = quote;
    event.metadata = metadata;
    event
}

#[test]
fn pumpswap_buy_context_decides_before_the_filled_fields() {
    // By its own fields alone the record would pay a token for the reference asset.
    let event = filled_buy(key(8), wsol(), context(wsol(), key(7)));
    assert_eq!(
        event.get_trade_info(),
        Some(TradeInfo {
            direction: TradeDirection::Buy,
            user_address: text(&key(2)),
            input_mint: WSOL_MINT.to_string(),
            output_mint: text(&key(7)),
            amount_in: 1_500_000_000,
            amount_out: 42,
            price: None,
            platform: "PumpSwap".to_string(),
        })
    );
    let agreeing = filled_buy(wsol(), key(9), context(wsol(), key(7)));
    assert_eq!(agreeing.get_trade_info(), event.get_trade_info());
}

#[test]
fn pumpswap_sell_context_decides_before_the_filled_fields() {
    // By its own fields alone the record would pay the reference asset for a token.
    let event = filled_sell(wsol(), key(8), context(key(7), wsol()));
    assert_eq!(
        event.get_trade_info(),
        Some(TradeInfo {
            direction: TradeDirection::Sell,
            user_address: text(&key(2)),
            input_mint: text(&key(7)),
            output_mint: WSOL_MINT.to_string(),
            amount_in: 42,
            amount_out: 900_000_000,
            price: None,
            platform: "PumpSwap".to_string(),
        })
    );
    let agreeing = filled_sell(key(9), wsol(), context(key(7), wsol()));
    assert_eq!(agreeing.get_trade_info(), event.get_trade_info());
}

#[test]
fn pumpswap_context_without_the_reference_asset_declines() {
    // The filled fields would qualify, but the context is there and decides.
    let buy = filled_buy(wsol(), key(7), context(key(5), key(6)));
    assert_eq!(buy.get_trade_info(), None);
    let sell = filled_sell(key(7), wsol(), context(key(5), key(6)));
    assert_eq!(sell.get_trade_info(), None);
}

#[test]
fn pumpswap_context_with_the_reference_asset_on_both_sides_declines() {
    let buy = filled_buy(wsol(), key(7), context(wsol(), wsol()));
    assert_eq!(buy.get_trade_info(), None);
    let sell = filled_sell(key(7), wsol(), context(wsol(), wsol()));
    assert_eq!(sell.get_trade_info(), None);
}

#[test]
fn pumpswap_fields_with_the_reference_asset_on_both_sides_decline() {
    let buy = filled_buy(wsol(), wsol(), EventMetadata::blank());
    assert_eq!(buy.get_trade_info(), None);
    let sell = filled_sell(wsol(), wsol(), EventMetadata::blank());
    assert_eq!(sell.get_trade_info(), None);
    let neither = filled_sell(key(4), key(5), EventMetadata::blank());
    assert_eq!(neither.get_trade_info(), None);
    assert_eq!(PumpSwapSellEvent::default().get_trade_info(), None);
    assert_eq!(PumpSwapBuyEvent::default().get_trade_info(), None);
}

#[test]
fn pumpswap_declined_context_falls_through_to_the_balances() {
    let metadata = EventMetadata {
        swap_data: Some(SwapData { from_mint: wsol(), to_mint: wsol() }),
        raw_transaction: Some(buy_transaction(&key(2), &key(6))),
        ..EventMetadata::blank()
    };
    // The filled fields would qualify; they are not asked.
    let buy = filled_buy(wsol(), key(7), metadata.clone());
    let trade = buy.get_trade_info().unwrap();
    assert_eq!(trade.direction, TradeDirection::Buy);
    assert_eq!(trade.output_mint, text(&key(6)));
    assert_eq!(trade.amount_in, 1_000_000_000);
    assert_eq!(trade.amount_out, 500);
    assert_eq!(
        trade.price,
        Some(Price { numerator: 1_000_000_000, denominator: 500_000_000_000 })
    );
    let sell = filled_sell(key(7), wsol(), metadata);
    let trade = sell.get_trade_info().unwrap();
    assert_eq!(trade.direction, TradeDirection::Buy);
    assert_eq!(trade.output_mint, text(&key(6)));
    assert_eq!(trade.platform, "PumpSwap");
}
