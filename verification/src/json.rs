//! Reading the account list and the recorded balances of a raw
//! transaction from its JSON form.
//!
//! Only the parts that balance analysis needs are read. A part that is
//! missing or of another shape is left out; nothing here fails.

use crate::balance_delta::{
    natives_view, texts, tokens_view, RawTransaction, RawTransactionModel, TokenBalance,
    TokenBalanceModel, TransactionMeta, TransactionMetaModel,
};
use serde_json::Value;
use vstd::prelude::*;

verus! {

/// `serde_json::Value`, a JSON value of any shape. Nothing inside it is
/// visible here; its content goes by the name `json_content`.
#[verifier::external_type_specification]
#[verifier::external_body]
pub struct ExValue(serde_json::Value);

/// What a JSON value holds. Of a number only this is kept: the unsigned
/// 64-bit integer that it is, if it is one.
pub enum JsonTree {
    Null,
    Bool(bool),
    Number(Option<u64>),
    Text(Seq<char>),
    Array(Seq<JsonTree>),
    Object(Map<Seq<char>, JsonTree>),
}

/// The content of a JSON value: what its accessors `get`, `as_array`,
/// `as_str` and `as_u64` give.
pub uninterp spec fn json_content(value: Value) -> JsonTree;

/// The contents of a list of JSON values.
pub open spec fn json_contents(values: Seq<Value>) -> Seq<JsonTree> {
    values.map_values(|v: Value| json_content(v))
}

impl JsonTree {
    /// The member of an object under `key`.
    pub open spec fn member(self, key: Seq<char>) -> Option<JsonTree> {
        match self {
            JsonTree::Object(members) if members.contains_key(key) => Some(members[key]),
            _ => None,
        }
    }

    /// The items of an array.
    pub open spec fn items(self) -> Option<Seq<JsonTree>> {
        match self {
            JsonTree::Array(items) => Some(items),
            _ => None,
        }
    }

    /// The characters of a string.
    pub open spec fn text(self) -> Option<Seq<char>> {
        match self {
            JsonTree::Text(text) => Some(text),
            _ => None,
        }
    }

    /// The value of a number that is an unsigned 64-bit integer.
    pub open spec fn unsigned(self) -> Option<u64> {
        match self {
            JsonTree::Number(value) => value,
            _ => None,
        }
    }

    /// The text of the member under `key`, or `fallback` where there is
    /// no such member or it is no string.
    pub open spec fn text_or(self, key: Seq<char>, fallback: Seq<char>) -> Seq<char> {
        match self.member(key) {
            Some(found) => match found.text() {
                Some(text) => text,
                None => fallback,
            },
            None => fallback,
        }
    }
}

/// Calls `Value::get` with a string key, which gives the member of an
/// object under that key, and nothing for a missing key or a value that
/// is no object.
#[verifier::external_body]
fn json_get<'a>(value: &'a Value, key: &str) -> (found: Option<&'a Value>)
    ensures
        found matches Some(inner) ==> json_content(*value).member(key@) == Some(
            json_content(*inner),
        ),
        found is None ==> json_content(*value).member(key@) is None,
{
    value.get(key)
}

/// Calls `Value::as_array`, which gives the items of an array, and
/// nothing for any other value.
#[verifier::external_body]
fn json_array<'a>(value: &'a Value) -> (found: Option<&'a Vec<Value>>)
    ensures
        found matches Some(items) ==> json_content(*value).items() == Some(json_contents(items@)),
        found is None ==> json_content(*value).items() is None,
{
    value.as_array()
}

/// Calls `Value::as_str`, which gives the text of a string, and nothing
/// for any other value.
#[verifier::external_body]
fn json_str<'a>(value: &'a Value) -> (found: Option<&'a str>)
    ensures
        found matches Some(text) ==> json_content(*value).text() == Some(text@),
        found is None ==> json_content(*value).text() is None,
{
    value.as_str()
}

/// Calls `Value::as_u64`, which gives the value of a number that is an
/// unsigned 64-bit integer, and nothing for any other value.
#[verifier::external_body]
fn json_u64(value: &Value) -> (found: Option<u64>)
    ensures
        found == json_content(*value).unsigned(),
{
    value.as_u64()
}

/// The token balance that one entry of a token balance array records. A
/// missing owner or asset is the empty text, a missing amount is `0`.
pub open spec fn token_model(entry: JsonTree) -> TokenBalanceModel {
    TokenBalanceModel {
        owner: entry.text_or("owner"@, ""@),
        mint: entry.text_or("mint"@, ""@),
        amount: match entry.member("uiTokenAmount"@) {
            Some(amount) => amount.text_or("amount"@, "0"@),
            None => "0"@,
        },
    }
}

/// The token balances under `field`; none where the field is missing or
/// no array.
pub open spec fn token_models(meta: JsonTree, field: Seq<char>) -> Seq<TokenBalanceModel> {
    match meta.member(field) {
        Some(list) => match list.items() {
            Some(items) => items.map_values(|entry: JsonTree| token_model(entry)),
            None => Seq::empty(),
        },
        None => Seq::empty(),
    }
}

/// The native balances under `field`, if the field is an array. An item
/// that is no unsigned number is kept as an absent balance.
pub open spec fn native_models(meta: JsonTree, field: Seq<char>) -> Option<Seq<Option<u64>>> {
    match meta.member(field) {
        Some(list) => match list.items() {
            Some(items) => Some(items.map_values(|item: JsonTree| item.unsigned())),
            None => None,
        },
        None => None,
    }
}

/// The texts of those items that are strings, in order.
pub open spec fn key_texts(items: Seq<JsonTree>) -> Seq<Seq<char>>
    decreases items.len(),
{
    if items.len() == 0 {
        Seq::empty()
    } else {
        let earlier = key_texts(items.drop_last());
        match items.last().text() {
            Some(text) => earlier.push(text),
            None => earlier,
        }
    }
}

/// The items of `transaction.message.accountKeys`, if that is an array.
pub open spec fn account_key_items(tree: JsonTree) -> Option<Seq<JsonTree>> {
    match tree.member("transaction"@) {
        Some(transaction) => match transaction.member("message"@) {
            Some(message) => match message.member("accountKeys"@) {
                Some(keys) => keys.items(),
                None => None,
            },
            None => None,
        },
        None => None,
    }
}

/// The recorded balances that the `meta` member holds.
pub open spec fn meta_model(meta: JsonTree) -> TransactionMetaModel {
    TransactionMetaModel {
        pre_balances: native_models(meta, "preBalances"@),
        post_balances: native_models(meta, "postBalances"@),
        pre_token_balances: token_models(meta, "preTokenBalances"@),
        post_token_balances: token_models(meta, "postTokenBalances"@),
    }
}

/// What balance analysis reads of a transaction in JSON form.
pub open spec fn transaction_model(tree: JsonTree) -> RawTransactionModel {
    RawTransactionModel {
        account_keys: match account_key_items(tree) {
            Some(items) => key_texts(items),
            None => Seq::empty(),
        },
        meta: match tree.member("meta"@) {
            Some(meta) => Some(meta_model(meta)),
            None => None,
        },
    }
}

/// The text of the member under `key`, or `fallback`.
fn text_member_or(entry: &Value, key: &str, fallback: &str) -> (text: String)
    ensures
        text@ == json_content(*entry).text_or(key@, fallback@),
{
    match json_get(entry, key) {
        Some(found) => match json_str(found) {
            Some(text) => text.to_owned(),
            None => fallback.to_owned(),
        },
        None => fallback.to_owned(),
    }
}

/// Reads one entry of a token balance array.
fn read_token(entry: &Value) -> (token: TokenBalance)
    ensures
        token@ == token_model(json_content(*entry)),
{
    let amount = match json_get(entry, "uiTokenAmount") {
        Some(amount) => text_member_or(amount, "amount", "0"),
        None => "0".to_owned(),
    };
    TokenBalance {
        owner: text_member_or(entry, "owner", ""),
        mint: text_member_or(entry, "mint", ""),
        amount,
    }
}

/// Reads the token balances under `field`.
fn read_tokens(meta: &Value, field: &str) -> (tokens: Vec<TokenBalance>)
    ensures
        tokens_view(tokens@) == token_models(json_content(*meta), field@),
{
    let mut tokens: Vec<TokenBalance> = Vec::new();
    let items = match json_get(meta, field) {
        Some(list) => match json_array(list) {
            Some(items) => items,
            None => {
                assert(tokens_view(tokens@) =~= Seq::empty());
                return tokens;
            },
        },
        None => {
            assert(tokens_view(tokens@) =~= Seq::empty());
            return tokens;
        },
    };
    let ghost expected = json_contents(items@).map_values(|entry: JsonTree| token_model(entry));
    let mut i: usize = 0;
    while i < items.len()
        invariant
            i <= items.len(),
            expected == json_contents(items@).map_values(|entry: JsonTree| token_model(entry)),
            tokens_view(tokens@) =~= expected.take(i as int),
        decreases items.len() - i,
    {
        let token = read_token(&items[i]);
        let ghost earlier = tokens_view(tokens@);
        tokens.push(token);
        proof {
            assert(expected[i as int] == token_model(json_contents(items@)[i as int]));
            assert(tokens_view(tokens@) =~= earlier.push(token@));
            assert(expected.take(i + 1) =~= expected.take(i as int).push(expected[i as int]));
        }
        i += 1;
    }
    assert(expected.take(i as int) =~= expected);
    tokens
}

/// Reads the native balances under `field`.
fn read_natives(meta: &Value, field: &str) -> (balances: Option<Vec<Option<u64>>>)
    ensures
        natives_view(balances) == native_models(json_content(*meta), field@),
{
    let items = match json_get(meta, field) {
        Some(list) => match json_array(list) {
            Some(items) => items,
            None => {
                return None;
            },
        },
        None => {
            return None;
        },
    };
    let ghost expected = json_contents(items@).map_values(|item: JsonTree| item.unsigned());
    let mut balances: Vec<Option<u64>> = Vec::new();
    let mut i: usize = 0;
    while i < items.len()
        invariant
            i <= items.len(),
            expected == json_contents(items@).map_values(|item: JsonTree| item.unsigned()),
            balances@ =~= expected.take(i as int),
        decreases items.len() - i,
    {
        balances.push(json_u64(&items[i]));
        i += 1;
    }
    assert(expected.take(i as int) =~= expected);
    Some(balances)
}

/// The items of `transaction.message.accountKeys`.
fn account_key_list<'a>(json: &'a Value) -> (found: Option<&'a Vec<Value>>)
    ensures
        found matches Some(items) ==> account_key_items(json_content(*json)) == Some(
            json_contents(items@),
        ),
        found is None ==> account_key_items(json_content(*json)) is None,
{
    let transaction = json_get(json, "transaction")?;
    let message = json_get(transaction, "message")?;
    let keys = json_get(message, "accountKeys")?;
    json_array(keys)
}

/// Reads the account list: those items of it that are strings.
fn read_account_keys(json: &Value) -> (keys: Vec<String>)
    ensures
        texts(keys@) == transaction_model(json_content(*json)).account_keys,
{
    let mut keys: Vec<String> = Vec::new();
    let items = match account_key_list(json) {
        Some(items) => items,
        None => {
            assert(texts(keys@) =~= Seq::empty());
            return keys;
        },
    };
    let ghost all = json_contents(items@);
    let mut i: usize = 0;
    assert(all.take(0) =~= Seq::empty());
    assert(texts(keys@) =~= Seq::empty());
    while i < items.len()
        invariant
            i <= items.len(),
            all == json_contents(items@),
            texts(keys@) =~= key_texts(all.take(i as int)),
        decreases items.len() - i,
    {
        proof {
            assert(all.take(i + 1).drop_last() =~= all.take(i as int));
            assert(all.take(i + 1).last() == json_content(items@[i as int]));
        }
        let ghost earlier = texts(keys@);
        match json_str(&items[i]) {
            Some(text) => {
                keys.push(text.to_owned());
                assert(texts(keys@) =~= earlier.push(text@));
            },
            None => {},
        }
        i += 1;
    }
    assert(all.take(i as int) =~= all);
    keys
}

impl RawTransaction {
    /// Reads the account list and the recorded balances of a transaction
    /// from its JSON form.
    pub fn from_json(json: &Value) -> (tx: RawTransaction)
        ensures
            tx@ == transaction_model(json_content(*json)),
    {
        let account_keys = read_account_keys(json);
        let meta = match json_get(json, "meta") {
            Some(meta) => Some(
                TransactionMeta {
                    pre_balances: read_natives(meta, "preBalances"),
                    post_balances: read_natives(meta, "postBalances"),
                    pre_token_balances: read_tokens(meta, "preTokenBalances"),
                    post_token_balances: read_tokens(meta, "postTokenBalances"),
                },
            ),
            None => None,
        };
        RawTransaction { account_keys, meta }
    }
}

} // verus!
