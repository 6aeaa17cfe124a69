use dex_event_parser::balance_delta::{
    transaction_balance_changes, BalanceChangeEntry, RawTransaction, TokenBalance,
    TransactionMeta, COMBINED_NATIVE_LABEL,
};
use serde_json::Value;

fn parse(text: &str) -> Value {
    serde_json::from_str(text).unwrap()
}

fn token(owner: &str, mint: &str, amount: &str) -> TokenBalance {
    TokenBalance { owner: owner.to_string(), mint: mint.to_string(), amount: amount.to_string() }
}

#[test]
fn transaction_is_read_from_json() {
    let json = parse(
        r#"{
            "transaction": {"message": {"accountKeys": ["Payer", "User", 7, "Pool"]}},
            "meta": {
                "preBalances": [10, 5000000000, 3],
                "postBalances": [9, 4000000000, 3],
                "preTokenBalances": [
                    {"owner": "User", "mint": "MintA", "uiTokenAmount": {"amount": "100", "decimals": 6}}
                ],
                "postTokenBalances": [
                    {"owner": "User", "mint": "MintA", "uiTokenAmount": {"amount": "600"}},
                    {"owner": "Pool", "mint": "MintA", "uiTokenAmount": {"amount": "1"}}
                ]
            }
        }"#,
    );
    let tx = RawTransaction::from_json(&json);
    assert_eq!(
        tx,
        RawTransaction {
            account_keys: vec!["Payer".to_string(), "User".to_string(), "Pool".to_string()],
            meta: Some(TransactionMeta {
                pre_balances: Some(vec![Some(10), Some(5_000_000_000), Some(3)]),
                post_balances: Some(vec![Some(9), Some(4_000_000_000), Some(3)]),
                pre_token_balances: vec![token("User", "MintA", "100")],
                post_token_balances: vec![token("User", "MintA", "600"), token("Pool", "MintA", "1")],
            }),
        }
    );
    assert_eq!(
        transaction_balance_changes(&tx, "User"),
        vec![
            BalanceChangeEntry {
                mint: COMBINED_NATIVE_LABEL.to_string(),
                balance_pre: 5_000_000_000,
                balance_post: 4_000_000_000,
                change: -1_000_000_000,
            },
            BalanceChangeEntry {
                mint: "MintA".to_string(),
                balance_pre: 100,
                balance_post: 600,
                change: 500,
            },
        ]
    );
}

#[test]
fn missing_meta_is_absent() {
    let tx = RawTransaction::from_json(&parse(
        r#"{"transaction": {"message": {"accountKeys": ["A"]}}}"#,
    ));
    assert_eq!(tx, RawTransaction { account_keys: vec!["A".to_string()], meta: None });
    assert_eq!(transaction_balance_changes(&tx, "A"), Vec::new());
}

#[test]
fn missing_account_list_is_empty() {
    let empty_meta = Some(TransactionMeta {
        pre_balances: None,
        post_balances: None,
        pre_token_balances: vec![],
        post_token_balances: vec![],
    });
    let tx = RawTransaction::from_json(&parse(r#"{"meta": {}}"#));
    assert_eq!(tx, RawTransaction { account_keys: vec![], meta: empty_meta.clone() });
    let tx = RawTransaction::from_json(&parse(
        r#"{"transaction": {"message": {"accountKeys": "A"}}, "meta": {}}"#,
    ));
    assert_eq!(tx, RawTransaction { account_keys: vec![], meta: empty_meta.clone() });
    let tx = RawTransaction::from_json(&parse(r#"{"transaction": ["message"], "meta": {}}"#));
    assert_eq!(tx, RawTransaction { account_keys: vec![], meta: empty_meta });
}

#[test]
fn values_of_another_shape_are_left_out() {
    for text in ["null", "[]", "5", "\"meta\"", "true"] {
        let tx = RawTransaction::from_json(&parse(text));
        assert_eq!(tx, RawTransaction { account_keys: vec![], meta: None });
    }
}

#[test]
fn a_meta_that_is_no_object_has_no_balances() {
    let tx = RawTransaction::from_json(&parse(r#"{"meta": null}"#));
    assert_eq!(
        tx.meta,
        Some(TransactionMeta {
            pre_balances: None,
            post_balances: None,
            pre_token_balances: vec![],
            post_token_balances: vec![],
        })
    );
    assert_eq!(transaction_balance_changes(&tx, "A"), Vec::new());
}

#[test]
fn a_meta_without_balance_arrays_gives_no_balance_changes() {
    let tx = RawTransaction::from_json(&parse(
        r#"{"transaction": {"message": {"accountKeys": ["A"]}}, "meta": {"fee": 5000}}"#,
    ));
    assert_eq!(
        tx.meta,
        Some(TransactionMeta {
            pre_balances: None,
            post_balances: None,
            pre_token_balances: vec![],
            post_token_balances: vec![],
        })
    );
    assert!(transaction_balance_changes(&tx, "A").is_empty());
}

#[test]
fn a_native_balance_that_is_no_number_gives_no_balance_changes() {
    let tx = RawTransaction::from_json(&parse(
        r#"{"transaction": {"message": {"accountKeys": ["A", "B"]}},
            "meta": {"preBalances": [10, "20"], "postBalances": [9, 25]}}"#,
    ));
    assert_eq!(transaction_balance_changes(&tx, "B"), Vec::new());
    assert_eq!(transaction_balance_changes(&tx, "A").len(), 1);
    assert_eq!(transaction_balance_changes(&tx, "A")[0].change, -1);
}

#[test]
fn native_balances_that_are_no_unsigned_numbers_are_absent() {
    let tx = RawTransaction::from_json(&parse(
        r#"{"meta": {"preBalances": [1, -2, 3.5, "4", null, 18446744073709551615],
                     "postBalances": {"0": 1}}}"#,
    ));
    let meta = tx.meta.unwrap();
    assert_eq!(
        meta.pre_balances,
        Some(vec![Some(1), None, None, None, None, Some(u64::MAX)])
    );
    assert_eq!(meta.post_balances, None);
}

#[test]
fn token_entries_get_their_defaults() {
    let tx = RawTransaction::from_json(&parse(
        r#"{"meta": {
            "preTokenBalances": [
                {},
                {"owner": 5, "mint": "M", "uiTokenAmount": {"amount": 7}},
                {"owner": "O", "uiTokenAmount": "12"},
                {"owner": "O", "mint": "M", "uiTokenAmount": {"amount": "12"}},
                "text"
            ],
            "postTokenBalances": "none"
        }}"#,
    ));
    let meta = tx.meta.unwrap();
    assert_eq!(
        meta.pre_token_balances,
        vec![
            token("", "", "0"),
            token("", "M", "0"),
            token("O", "", "0"),
            token("O", "M", "12"),
            token("", "", "0"),
        ]
    );
    assert_eq!(meta.post_token_balances, Vec::new());
}
