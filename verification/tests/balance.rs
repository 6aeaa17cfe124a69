use dex_event_parser::amount::{parse_amount, shifted_balance, signed_delta, unsigned_magnitude};
use dex_event_parser::balance_delta::{
    find_signer_index, signer_position, transaction_balance_changes, BalanceChangeEntry, RawTransaction,
    TokenBalance, TransactionMeta, COMBINED_NATIVE_LABEL,
};
use dex_event_parser::classifier::{classify_balance_changes, TradeInfoCalculated};
use dex_event_parser::identifier::WSOL_MINT;
use dex_event_parser::metadata::EventMetadata;
use dex_event_parser::raydium_amm_v4::RaydiumAmmV4SwapEvent;
use dex_event_parser::trade::{price_of, Price, TradeDirection};

const USER: &str = "UserWallet1111111111111111111111111111111111";
const OTHER: &str = "OtherWallet111111111111111111111111111111111";
const TOKEN_A: &str = "TokenA11111111111111111111111111111111111111";
const TOKEN_B: &str = "TokenB11111111111111111111111111111111111111";
const TOKEN_C: &str = "TokenC11111111111111111111111111111111111111";

fn token(owner: &str, mint: &str, amount: &str) -> TokenBalance {
    TokenBalance { owner: owner.to_string(), mint: mint.to_string(), amount: amount.to_string() }
}

fn transaction(
    keys: &[&str],
    pre: &[u64],
    post: &[u64],
    pre_tokens: Vec<TokenBalance>,
    post_tokens: Vec<TokenBalance>,
) -> RawTransaction {
    RawTransaction {
        account_keys: keys.iter().map(|k| k.to_string()).collect(),
        meta: Some(TransactionMeta {
            pre_balances: Some(pre.iter().map(|b| Some(*b)).collect()),
            post_balances: Some(post.iter().map(|b| Some(*b)).collect()),
            pre_token_balances: pre_tokens,
            post_token_balances: post_tokens,
        }),
    }
}

fn swap_with(tx: RawTransaction) -> RaydiumAmmV4SwapEvent {
    let mut event = RaydiumAmmV4SwapEvent::default();
    event.metadata =
        EventMetadata { raw_transaction: Some(tx), ..EventMetadata::blank() };
    event
}

fn entry(mint: &str, pre: u64, post: u64, change: i64) -> BalanceChangeEntry {
    BalanceChangeEntry { mint: mint.to_string(), balance_pre: pre, balance_post: post, change }
}

#[test]
fn buy_is_classified_from_balances() {
    let tx = transaction(
        &[OTHER, USER],
        &[7, 5_000_000_000],
        &[7, 4_000_000_000],
        vec![token(USER, TOKEN_A, "100")],
        vec![token(USER, TOKEN_A, "600")],
    );
    let event = swap_with(tx);
    let changes = event.calculate_balance_changes(USER);
    assert_eq!(
        changes,
        vec![
            entry(COMBINED_NATIVE_LABEL, 5_000_000_000, 4_000_000_000, -1_000_000_000),
            entry(TOKEN_A, 100, 600, 500),
        ]
    );
    let trade = event.calculate_trade_info(USER).unwrap();
    assert_eq!(
        trade,
        TradeInfoCalculated {
            user_address: USER.to_string(),
            direction: "Buy".to_string(),
            input_mint: WSOL_MINT.to_string(),
            output_mint: TOKEN_A.to_string(),
            amount_in: 1_000_000_000,
            amount_out: 500,
            price: Some(Price { numerator: 1_000_000_000, denominator: 500_000_000_000 }),
        }
    );
}

#[test]
fn sell_is_classified_from_balances() {
    let tx = transaction(
        &[USER],
        &[2_000_000_000],
        &[3_000_000_000],
        vec![token(USER, TOKEN_A, "500")],
        vec![token(USER, TOKEN_A, "0")],
    );
    let event = swap_with(tx);
    let trade = event.calculate_trade_info(USER).unwrap();
    assert_eq!(
        trade,
        TradeInfoCalculated {
            user_address: USER.to_string(),
            direction: "Sell".to_string(),
            input_mint: TOKEN_A.to_string(),
            output_mint: WSOL_MINT.to_string(),
            amount_in: 500,
            amount_out: 1_000_000_000,
            price: Some(Price { numerator: 1_000_000_000, denominator: 500_000_000_000 }),
        }
    );
}

#[test]
fn sell_without_post_entry_counts_the_balance_as_zero() {
    let tx = transaction(
        &[USER],
        &[2_000_000_000],
        &[3_000_000_000],
        vec![token(USER, TOKEN_A, "500")],
        vec![],
    );
    let changes = transaction_balance_changes(&tx, USER);
    assert_eq!(
        changes,
        vec![
            entry(COMBINED_NATIVE_LABEL, 2_000_000_000, 3_000_000_000, 1_000_000_000),
            entry(TOKEN_A, 500, 0, -500),
        ]
    );
}

#[test]
fn opposite_token_changes_are_a_token_swap() {
    let tx = transaction(
        &[USER],
        &[1_000],
        &[1_000],
        vec![token(USER, TOKEN_A, "900"), token(USER, TOKEN_B, "10")],
        vec![token(USER, TOKEN_A, "600"), token(USER, TOKEN_B, "70")],
    );
    let event = swap_with(tx);
    let trade = event.calculate_trade_info(USER).unwrap();
    assert_eq!(
        trade,
        TradeInfoCalculated {
            user_address: USER.to_string(),
            direction: "TokenSwap".to_string(),
            input_mint: TOKEN_A.to_string(),
            output_mint: TOKEN_B.to_string(),
            amount_in: 300,
            amount_out: 60,
            price: Some(Price { numerator: 300, denominator: 60 }),
        }
    );
}

#[test]
fn token_swap_does_not_depend_on_entry_order() {
    let first = vec![entry(COMBINED_NATIVE_LABEL, 5, 5, 0), entry(TOKEN_A, 9, 4, -5), entry(TOKEN_B, 1, 8, 7)];
    let second = vec![entry(COMBINED_NATIVE_LABEL, 5, 5, 0), entry(TOKEN_B, 1, 8, 7), entry(TOKEN_A, 9, 4, -5)];
    let a = classify_balance_changes(USER, &first, "X").unwrap();
    let b = classify_balance_changes(USER, &second, "X").unwrap();
    assert_eq!(a, b);
    assert_eq!(a.direction, TradeDirection::TokenSwap);
    assert_eq!(a.input_mint, TOKEN_A);
    assert_eq!(a.output_mint, TOKEN_B);
    assert_eq!(a.amount_in, 5);
    assert_eq!(a.amount_out, 7);
    assert_eq!(a.platform, "X");
}

#[test]
fn native_change_alone_is_an_arbitrage() {
    let tx = transaction(&[USER], &[10_000], &[9_000], vec![], vec![]);
    let event = swap_with(tx);
    let trade = event.calculate_trade_info(USER).unwrap();
    assert_eq!(
        trade,
        TradeInfoCalculated {
            user_address: USER.to_string(),
            direction: "Arbitrage".to_string(),
            input_mint: WSOL_MINT.to_string(),
            output_mint: WSOL_MINT.to_string(),
            amount_in: 0,
            amount_out: 1_000,
            price: None,
        }
    );
    let gain = swap_with(transaction(&[USER], &[9_000], &[10_500], vec![], vec![]));
    let trade = gain.calculate_trade_info(USER).unwrap();
    assert_eq!(trade.direction, "Arbitrage");
    assert_eq!(trade.amount_in, 0);
    assert_eq!(trade.amount_out, 1_500);
}

#[test]
fn three_token_changes_are_declined() {
    let tx = transaction(
        &[USER],
        &[10_000],
        &[9_000],
        vec![],
        vec![token(USER, TOKEN_A, "1"), token(USER, TOKEN_B, "2"), token(USER, TOKEN_C, "3")],
    );
    let event = swap_with(tx);
    assert_eq!(event.calculate_balance_changes(USER).len(), 4);
    assert_eq!(event.calculate_trade_info(USER), None);
    let mixed = vec![
        entry(COMBINED_NATIVE_LABEL, 5, 5, 0),
        entry(TOKEN_A, 9, 4, -5),
        entry(TOKEN_B, 1, 8, 7),
        entry(TOKEN_C, 1, 0, -1),
    ];
    assert_eq!(classify_balance_changes(USER, &mixed, "X"), None);
}

#[test]
fn nothing_changed_is_declined() {
    let tx = transaction(&[USER], &[10_000], &[10_000], vec![], vec![]);
    let event = swap_with(tx);
    assert_eq!(
        event.calculate_balance_changes(USER),
        vec![entry(COMBINED_NATIVE_LABEL, 10_000, 10_000, 0)]
    );
    assert_eq!(event.calculate_trade_info(USER), None);
}

#[test]
fn mismatched_directions_are_declined() {
    // The native balance fell and a token was spent: neither a buy nor a sell.
    let both_down = vec![entry(COMBINED_NATIVE_LABEL, 9, 4, -5), entry(TOKEN_A, 9, 4, -5)];
    assert_eq!(classify_balance_changes(USER, &both_down, "X"), None);
    let both_up = vec![entry(COMBINED_NATIVE_LABEL, 4, 9, 5), entry(TOKEN_A, 4, 9, 5)];
    assert_eq!(classify_balance_changes(USER, &both_up, "X"), None);
    let swap_with_native = vec![
        entry(COMBINED_NATIVE_LABEL, 4, 9, 5),
        entry(TOKEN_A, 4, 9, 5),
        entry(TOKEN_B, 9, 4, -5),
    ];
    assert_eq!(classify_balance_changes(USER, &swap_with_native, "X"), None);
    assert_eq!(classify_balance_changes(USER, &Vec::new(), "X"), None);
}

#[test]
fn missing_transaction_gives_no_entries() {
    let event = RaydiumAmmV4SwapEvent::default();
    assert_eq!(event.calculate_balance_changes(USER), Vec::new());
    assert_eq!(event.calculate_trade_info(USER), None);
}

#[test]
fn missing_balances_give_no_entries() {
    let tx = RawTransaction { account_keys: vec![USER.to_string()], meta: None };
    assert_eq!(transaction_balance_changes(&tx, USER), Vec::new());
    let event = swap_with(tx);
    assert_eq!(event.calculate_trade_info(USER), None);
}

fn meta_with(
    pre_balances: Option<Vec<Option<u64>>>,
    post_balances: Option<Vec<Option<u64>>>,
    pre_token_balances: Vec<TokenBalance>,
    post_token_balances: Vec<TokenBalance>,
) -> RawTransaction {
    RawTransaction {
        account_keys: vec![USER.to_string()],
        meta: Some(TransactionMeta {
            pre_balances,
            post_balances,
            pre_token_balances,
            post_token_balances,
        }),
    }
}

#[test]
fn meta_without_balance_arrays_gives_no_entries() {
    let tx = meta_with(None, None, vec![], vec![]);
    assert_eq!(transaction_balance_changes(&tx, USER), Vec::new());
    let event = swap_with(tx);
    assert_eq!(event.calculate_balance_changes(USER), Vec::new());
    assert!(event.calculate_balance_changes(USER).is_empty());
    assert_eq!(event.calculate_trade_info(USER), None);
}

#[test]
fn one_missing_native_array_gives_no_entries() {
    let tx = meta_with(Some(vec![Some(50)]), None, vec![], vec![]);
    assert_eq!(transaction_balance_changes(&tx, USER), Vec::new());
    let tx = meta_with(None, Some(vec![Some(50)]), vec![], vec![]);
    assert_eq!(transaction_balance_changes(&tx, USER), Vec::new());
}

#[test]
fn token_balances_without_native_balances_give_no_entries() {
    let tx = meta_with(
        None,
        None,
        vec![token(USER, TOKEN_A, "900")],
        vec![token(USER, TOKEN_A, "600"), token(USER, TOKEN_B, "70")],
    );
    assert_eq!(transaction_balance_changes(&tx, USER), Vec::new());
    assert_eq!(swap_with(tx).calculate_trade_info(USER), None);
}

#[test]
fn unreadable_native_balance_gives_no_entries() {
    let tx = meta_with(Some(vec![None]), Some(vec![Some(70)]), vec![], vec![]);
    assert_eq!(transaction_balance_changes(&tx, USER), Vec::new());
    let tx = meta_with(Some(vec![Some(70)]), Some(vec![None]), vec![], vec![]);
    assert_eq!(transaction_balance_changes(&tx, USER), Vec::new());
    let tx = meta_with(Some(vec![Some(70)]), Some(vec![Some(0)]), vec![], vec![]);
    assert_eq!(
        transaction_balance_changes(&tx, USER),
        vec![entry(COMBINED_NATIVE_LABEL, 70, 0, -70)]
    );
}

#[test]
fn unknown_user_falls_back_to_the_fee_payer() {
    let keys = vec![OTHER.to_string(), USER.to_string(), USER.to_string()];
    assert_eq!(find_signer_index(&keys, USER), 1);
    assert_eq!(find_signer_index(&keys, OTHER), 0);
    assert_eq!(find_signer_index(&keys, "nobody"), 0);
    assert_eq!(find_signer_index(&Vec::new(), USER), 0);
    let tx = transaction(&[OTHER], &[800], &[300], vec![], vec![]);
    assert_eq!(
        transaction_balance_changes(&tx, USER),
        vec![entry(COMBINED_NATIVE_LABEL, 800, 300, -500)]
    );
}

#[test]
fn index_beyond_the_balances_gives_no_entries() {
    let tx = transaction(&[OTHER, USER], &[800], &[300], vec![], vec![]);
    assert_eq!(transaction_balance_changes(&tx, USER), Vec::new());
    let tx = transaction(&[OTHER, USER], &[800, 5], &[300], vec![], vec![]);
    assert_eq!(transaction_balance_changes(&tx, USER), Vec::new());
    let tx = transaction(&[OTHER, USER], &[800, 5], &[300, 9], vec![], vec![]);
    assert_eq!(
        transaction_balance_changes(&tx, USER),
        vec![entry(COMBINED_NATIVE_LABEL, 5, 9, 4)]
    );
    // A user who is not listed stands at the fee payer's position; with no
    // balance recorded there, nothing can be said.
    let tx = transaction(&[], &[], &[], vec![], vec![token(USER, TOKEN_A, "5")]);
    assert_eq!(transaction_balance_changes(&tx, USER), Vec::new());
}

#[test]
fn tokens_of_other_owners_are_left_out() {
    let tx = transaction(
        &[USER],
        &[100],
        &[100],
        vec![token(OTHER, TOKEN_A, "5"), token(USER, TOKEN_B, "5")],
        vec![token(OTHER, TOKEN_A, "9"), token(USER, TOKEN_B, "5")],
    );
    assert_eq!(transaction_balance_changes(&tx, USER), vec![entry(COMBINED_NATIVE_LABEL, 100, 100, 0)]);
}

#[test]
fn wrapped_native_tokens_join_the_native_balance() {
    let tx = transaction(
        &[USER],
        &[1_000],
        &[900],
        vec![token(USER, WSOL_MINT, "400"), token(OTHER, WSOL_MINT, "1")],
        vec![token(USER, WSOL_MINT, "150"), token(OTHER, WSOL_MINT, "100000")],
    );
    assert_eq!(
        transaction_balance_changes(&tx, USER),
        vec![entry(COMBINED_NATIVE_LABEL, 1_000, 650, -350)]
    );
}

#[test]
fn combined_balance_is_held_at_zero() {
    let tx = transaction(
        &[USER],
        &[1_000],
        &[100],
        vec![token(USER, WSOL_MINT, "400")],
        vec![],
    );
    assert_eq!(
        transaction_balance_changes(&tx, USER),
        vec![entry(COMBINED_NATIVE_LABEL, 1_000, 0, -1_000)]
    );
}

#[test]
fn amounts_that_are_no_numbers_are_skipped() {
    let tx = transaction(
        &[USER],
        &[100],
        &[100],
        vec![
            token(USER, TOKEN_A, "12x"),
            token(USER, TOKEN_B, ""),
            token(USER, TOKEN_C, "-4"),
        ],
        vec![
            token(USER, TOKEN_A, "18446744073709551616"),
            token(USER, TOKEN_B, " 7"),
            token(USER, TOKEN_C, "1_000"),
        ],
    );
    assert_eq!(transaction_balance_changes(&tx, USER), vec![entry(COMBINED_NATIVE_LABEL, 100, 100, 0)]);
}

#[test]
fn amounts_may_carry_a_plus_sign_and_leading_zeros() {
    let tx = transaction(
        &[USER],
        &[100],
        &[100],
        vec![token(USER, TOKEN_A, "+5")],
        vec![token(USER, TOKEN_A, "0018446744073709551615")],
    );
    assert_eq!(
        transaction_balance_changes(&tx, USER),
        vec![
            entry(COMBINED_NATIVE_LABEL, 100, 100, 0),
            entry(TOKEN_A, 5, u64::MAX, i64::MAX),
        ]
    );
}

#[test]
fn the_last_entry_of_an_asset_counts() {
    let tx = transaction(
        &[USER],
        &[100],
        &[100],
        vec![token(USER, TOKEN_A, "5"), token(USER, TOKEN_B, "1"), token(USER, TOKEN_A, "8")],
        vec![token(USER, TOKEN_A, "20"), token(USER, TOKEN_A, "bad")],
    );
    assert_eq!(
        transaction_balance_changes(&tx, USER),
        vec![
            entry(COMBINED_NATIVE_LABEL, 100, 100, 0),
            entry(TOKEN_A, 8, 20, 12),
            entry(TOKEN_B, 1, 0, -1),
        ]
    );
}

#[test]
fn entries_follow_first_occurrence() {
    let tx = transaction(
        &[USER],
        &[100],
        &[100],
        vec![token(USER, TOKEN_B, "1")],
        vec![token(USER, TOKEN_C, "3"), token(USER, TOKEN_A, "2"), token(USER, TOKEN_B, "9")],
    );
    assert_eq!(
        transaction_balance_changes(&tx, USER),
        vec![
            entry(COMBINED_NATIVE_LABEL, 100, 100, 0),
            entry(TOKEN_B, 1, 9, 8),
            entry(TOKEN_C, 0, 3, 3),
            entry(TOKEN_A, 0, 2, 2),
        ]
    );
}

#[test]
fn classification_reads_the_first_entry_as_native() {
    let changes = vec![entry(TOKEN_A, 10, 4, -6), entry("SOL-like", 0, 9, 9)];
    let trade = classify_balance_changes(USER, &changes, "X").unwrap();
    assert_eq!(trade.direction, TradeDirection::Buy);
    assert_eq!(trade.input_mint, WSOL_MINT);
    assert_eq!(trade.output_mint, "SOL-like");
    assert_eq!(trade.amount_in, 6);
    assert_eq!(trade.amount_out, 9);
}

#[test]
fn price_formulas_are_exact() {
    assert_eq!(
        price_of(TradeDirection::Buy, 2_000_000_000, 4),
        Some(Price { numerator: 2_000_000_000, denominator: 4_000_000_000 })
    );
    assert_eq!(
        price_of(TradeDirection::Sell, 4, 2_000_000_000),
        Some(Price { numerator: 2_000_000_000, denominator: 4_000_000_000 })
    );
    assert_eq!(
        price_of(TradeDirection::TokenSwap, 300, 60),
        Some(Price { numerator: 300, denominator: 60 })
    );
    assert_eq!(
        price_of(TradeDirection::Buy, u64::MAX, u64::MAX),
        Some(Price {
            numerator: 18_446_744_073_709_551_615,
            denominator: 18_446_744_073_709_551_615_000_000_000,
        })
    );
    assert_eq!(price_of(TradeDirection::Arbitrage, 5, 5), None);
    assert_eq!(price_of(TradeDirection::Buy, 0, 5), None);
    assert_eq!(price_of(TradeDirection::Sell, 5, 0), None);
    assert_eq!(price_of(TradeDirection::TokenSwap, 0, 0), None);
}

#[test]
fn changes_are_held_to_their_range() {
    assert_eq!(signed_delta(5, 3), -2);
    assert_eq!(signed_delta(3, 5), 2);
    assert_eq!(signed_delta(0, u64::MAX), i64::MAX);
    assert_eq!(signed_delta(u64::MAX, 0), i64::MIN);
    assert_eq!(signed_delta(1 << 63, 0), i64::MIN);
    assert_eq!(signed_delta(0, (1 << 63) - 1), i64::MAX);
    assert_eq!(unsigned_magnitude(-7), 7);
    assert_eq!(unsigned_magnitude(7), 7);
    assert_eq!(unsigned_magnitude(i64::MIN), 1 << 63);
    assert_eq!(shifted_balance(10, 5, 7), 8);
    assert_eq!(shifted_balance(10, 0, 11), 0);
    assert_eq!(shifted_balance(10, 0, u128::MAX), 0);
    assert_eq!(shifted_balance(10, u128::MAX, 0), u64::MAX);
    assert_eq!(shifted_balance(u64::MAX, 1, 0), u64::MAX);
    assert_eq!(shifted_balance(u64::MAX - 1, 3, 2), u64::MAX);
}

#[test]
fn direction_names() {
    assert_eq!(TradeDirection::Buy.label(), "Buy");
    assert_eq!(TradeDirection::Sell.label(), "Sell");
    assert_eq!(TradeDirection::TokenSwap.label(), "TokenSwap");
    assert_eq!(TradeDirection::Arbitrage.label(), "Arbitrage");
}

#[test]
fn amounts_are_read_from_decimal_text() {
    assert_eq!(parse_amount("0"), Some(0));
    assert_eq!(parse_amount("500"), Some(500));
    assert_eq!(parse_amount("+500"), Some(500));
    assert_eq!(parse_amount("007"), Some(7));
    assert_eq!(parse_amount("18446744073709551615"), Some(u64::MAX));
    assert_eq!(parse_amount("+00018446744073709551615"), Some(u64::MAX));
}

#[test]
fn texts_that_are_no_amounts_are_rejected() {
    for text in [
        "", "+", "-", "-1", "-0", "++1", "1+", " 1", "1 ", "1_000", "0x10", "1.0", "1e3", "٣",
        "12a", "a12", "18446744073709551616", "99999999999999999999", "184467440737095516150",
    ] {
        assert_eq!(parse_amount(text), None);
        assert_eq!(parse_amount(text), text.parse::<u64>().ok());
    }
}

#[test]
fn amount_reading_agrees_with_the_standard_parser() {
    for text in ["0", "+0", "42", "+42", "0000", "18446744073709551615", "18446744073709551614"] {
        assert_eq!(parse_amount(text), text.parse::<u64>().ok());
    }
}

#[test]
fn signer_position_tells_a_listed_user_from_the_fallback() {
    let keys = vec![OTHER.to_string(), USER.to_string(), USER.to_string()];
    assert_eq!(signer_position(&keys, USER), Some(1));
    assert_eq!(signer_position(&keys, OTHER), Some(0));
    assert_eq!(signer_position(&keys, "nobody"), None);
    assert_eq!(signer_position(&Vec::new(), USER), None);
}
