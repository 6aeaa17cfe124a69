//! Per-asset balance changes of one user across a transaction, read from
//! the balances that the transaction recorded before and after it ran.

use crate::amount::{
    clamp_i64, clamp_u64, parse_amount, parsed_amount, shifted_balance, signed_delta,
};
use crate::identifier::{is_reference_asset, reference_asset, same_text, WSOL_MINT};
use vstd::prelude::*;

verus! {

/// Label of the entry that combines the native balance with the wrapped
/// native tokens that the user owns.
pub const COMBINED_NATIVE_LABEL: &'static str = "SOL (native + signer-owned wSOL)";

/// One token balance that a transaction recorded: who owns the token
/// account, which asset it holds, and the amount in text form.
#[derive(Clone, Debug, PartialEq, Eq)]
pub struct TokenBalance {
    pub owner: String,
    pub mint: String,
    pub amount: String,
}

/// What a transaction recorded of balances. A native balance array that
/// is missing is `None`, and so is a native balance that the ledger did
/// not give as an unsigned number.
#[derive(Clone, Debug, PartialEq, Eq)]
pub struct TransactionMeta {
    pub pre_balances: Option<Vec<Option<u64>>>,
    pub post_balances: Option<Vec<Option<u64>>>,
    pub pre_token_balances: Vec<TokenBalance>,
    pub post_token_balances: Vec<TokenBalance>,
}

/// The part of a raw transaction that balance analysis reads: the ordered
/// account list and the recorded balances.
#[derive(Clone, Debug, PartialEq, Eq)]
pub struct RawTransaction {
    pub account_keys: Vec<String>,
    pub meta: Option<TransactionMeta>,
}

/// The texts of a list of strings.
pub open spec fn texts(items: Seq<String>) -> Seq<Seq<char>> {
    items.map_values(|s: String| s@)
}

/// A token balance as a mathematical value.
pub struct TokenBalanceModel {
    pub owner: Seq<char>,
    pub mint: Seq<char>,
    pub amount: Seq<char>,
}

/// Recorded balances as a mathematical value.
pub struct TransactionMetaModel {
    pub pre_balances: Option<Seq<Option<u64>>>,
    pub post_balances: Option<Seq<Option<u64>>>,
    pub pre_token_balances: Seq<TokenBalanceModel>,
    pub post_token_balances: Seq<TokenBalanceModel>,
}

/// A raw transaction as a mathematical value.
pub struct RawTransactionModel {
    pub account_keys: Seq<Seq<char>>,
    pub meta: Option<TransactionMetaModel>,
}

impl View for TokenBalance {
    type V = TokenBalanceModel;

    open spec fn view(&self) -> TokenBalanceModel {
        TokenBalanceModel { owner: self.owner@, mint: self.mint@, amount: self.amount@ }
    }
}

/// The token balances of a list as mathematical values.
pub open spec fn tokens_view(tokens: Seq<TokenBalance>) -> Seq<TokenBalanceModel> {
    tokens.map_values(|t: TokenBalance| t@)
}

/// An optional list of native balances as a mathematical value.
pub open spec fn natives_view(balances: Option<Vec<Option<u64>>>) -> Option<Seq<Option<u64>>> {
    match balances {
        Some(list) => Some(list@),
        None => None,
    }
}

impl View for TransactionMeta {
    type V = TransactionMetaModel;

    open spec fn view(&self) -> TransactionMetaModel {
        TransactionMetaModel {
            pre_balances: natives_view(self.pre_balances),
            post_balances: natives_view(self.post_balances),
            pre_token_balances: tokens_view(self.pre_token_balances@),
            post_token_balances: tokens_view(self.post_token_balances@),
        }
    }
}

impl View for RawTransaction {
    type V = RawTransactionModel;

    open spec fn view(&self) -> RawTransactionModel {
        RawTransactionModel {
            account_keys: texts(self.account_keys@),
            meta: match self.meta {
                Some(meta) => Some(meta@),
                None => None,
            },
        }
    }
}

/// Balance change entry for a specific mint/account.
#[derive(Clone, Debug, PartialEq, Eq)]
pub struct BalanceChangeEntry {
    pub mint: String,
    pub balance_pre: u64,
    pub balance_post: u64,
    pub change: i64,
}

/// A balance change entry as a mathematical value.
pub struct BalanceChange {
    pub mint: Seq<char>,
    pub balance_pre: u64,
    pub balance_post: u64,
    pub change: i64,
}

impl View for BalanceChangeEntry {
    type V = BalanceChange;

    open spec fn view(&self) -> BalanceChange {
        BalanceChange {
            mint: self.mint@,
            balance_pre: self.balance_pre,
            balance_post: self.balance_post,
            change: self.change,
        }
    }
}

/// The entries of a list as mathematical values.
pub open spec fn changes_view(entries: Seq<BalanceChangeEntry>) -> Seq<BalanceChange> {
    entries.map_values(|e: BalanceChangeEntry| e@)
}

/// Whether `i` is the first position of `user` in the account list.
pub open spec fn is_first_position(keys: Seq<Seq<char>>, user: Seq<char>, i: int) -> bool {
    &&& 0 <= i < keys.len()
    &&& keys[i] == user
    &&& forall|j: int| 0 <= j < i ==> #[trigger] keys[j] != user
}

/// Whether the account list names `user`.
pub open spec fn is_listed(keys: Seq<Seq<char>>, user: Seq<char>) -> bool {
    exists|i: int| is_first_position(keys, user, i)
}

/// The user's position in the account list. A user who is not in the list
/// is taken to be at position 0, the fee payer's: a heuristic, with no
/// guarantee for transactions of several signers.
pub open spec fn signer_index(keys: Seq<Seq<char>>, user: Seq<char>) -> int {
    if is_listed(keys, user) {
        choose|i: int| is_first_position(keys, user, i)
    } else {
        0
    }
}

/// The native balance recorded at a position, where one was recorded
/// there as an unsigned number.
pub open spec fn native_at(balances: Seq<Option<u64>>, index: int) -> Option<u64> {
    if 0 <= index < balances.len() {
        balances[index]
    } else {
        None
    }
}

/// The native balances at a position before and after the transaction.
/// There are none unless both arrays are there and both hold a balance at
/// the position: a balance that was not recorded is absent, not zero.
pub open spec fn native_balances(meta: TransactionMetaModel, index: int) -> Option<(u64, u64)> {
    match (meta.pre_balances, meta.post_balances) {
        (Some(pre), Some(post)) => match (native_at(pre, index), native_at(post, index)) {
            (Some(before), Some(after)) => Some((before, after)),
            _ => None,
        },
        _ => None,
    }
}

/// The amount of a token balance that counts for `user`: the entry is
/// owned by the user and its amount text is a valid amount.
pub open spec fn owned_amount(entry: TokenBalanceModel, user: Seq<char>) -> Option<u64> {
    if entry.owner == user {
        parsed_amount(entry.amount)
    } else {
        None
    }
}

/// The distinct assets of the entries that count for `user`, in the order
/// of their first occurrence, after those already in `seen`.
pub open spec fn tracked_mints(
    seen: Seq<Seq<char>>,
    entries: Seq<TokenBalanceModel>,
    user: Seq<char>,
) -> Seq<Seq<char>>
    decreases entries.len(),
{
    if entries.len() == 0 {
        seen
    } else {
        let earlier = tracked_mints(seen, entries.drop_last(), user);
        let entry = entries.last();
        if owned_amount(entry, user) is Some && !earlier.contains(entry.mint) {
            earlier.push(entry.mint)
        } else {
            earlier
        }
    }
}

/// The amount of the last entry that counts for `user` and holds `mint`;
/// 0 where there is none.
pub open spec fn last_amount(
    entries: Seq<TokenBalanceModel>,
    user: Seq<char>,
    mint: Seq<char>,
) -> u64
    decreases entries.len(),
{
    if entries.len() == 0 {
        0
    } else {
        let entry = entries.last();
        match owned_amount(entry, user) {
            Some(amount) if entry.mint == mint => amount,
            _ => last_amount(entries.drop_last(), user, mint),
        }
    }
}

/// The sum of the amounts of all entries that count for `user` and hold
/// `mint`.
pub open spec fn owned_total(
    entries: Seq<TokenBalanceModel>,
    user: Seq<char>,
    mint: Seq<char>,
) -> nat
    decreases entries.len(),
{
    if entries.len() == 0 {
        0
    } else {
        let entry = entries.last();
        let earlier = owned_total(entries.drop_last(), user, mint);
        match owned_amount(entry, user) {
            Some(amount) if entry.mint == mint => earlier + amount as nat,
            _ => earlier,
        }
    }
}

/// The entry for one asset.
pub open spec fn token_change(mint: Seq<char>, pre: u64, post: u64) -> BalanceChange {
    BalanceChange { mint, balance_pre: pre, balance_post: post, change: clamp_i64(post - pre) }
}

/// The entries of the assets in `mints` whose balance changed, the
/// reference asset left out, in the order of `mints`.
pub open spec fn token_entries(
    mints: Seq<Seq<char>>,
    pre: Seq<TokenBalanceModel>,
    post: Seq<TokenBalanceModel>,
    user: Seq<char>,
) -> Seq<BalanceChange>
    decreases mints.len(),
{
    if mints.len() == 0 {
        Seq::empty()
    } else {
        let earlier = token_entries(mints.drop_last(), pre, post, user);
        let mint = mints.last();
        let before = last_amount(pre, user, mint);
        let after = last_amount(post, user, mint);
        if before != after && mint != reference_asset() {
            earlier.push(token_change(mint, before, after))
        } else {
            earlier
        }
    }
}

/// The combined native entry: the user's native balance, with the change
/// of the wrapped native tokens that the user owns added to the balance
/// after the transaction. That balance is held at zero from below and at
/// the largest 64-bit value from above.
pub open spec fn combined_entry(
    meta: TransactionMetaModel,
    user: Seq<char>,
    before: u64,
    recorded_after: u64,
) -> BalanceChange {
    let wrapped_before = owned_total(meta.pre_token_balances, user, reference_asset());
    let wrapped_after = owned_total(meta.post_token_balances, user, reference_asset());
    let after = clamp_u64(recorded_after + wrapped_after - wrapped_before);
    BalanceChange {
        mint: COMBINED_NATIVE_LABEL@,
        balance_pre: before,
        balance_post: after,
        change: clamp_i64(after - before),
    }
}

/// The balance changes of `user` in a transaction: the combined native
/// entry first, then one entry for each other asset whose balance in the
/// user's token accounts changed. There are no entries at all where the
/// transaction recorded no balances, or no native balance at the user's
/// position before or after: such a transaction is not classifiable.
pub open spec fn balance_changes(tx: RawTransactionModel, user: Seq<char>) -> Seq<BalanceChange> {
    match tx.meta {
        None => Seq::empty(),
        Some(meta) => match native_balances(meta, signer_index(tx.account_keys, user)) {
            None => Seq::empty(),
            Some((before, recorded_after)) => {
                let pre = meta.pre_token_balances;
                let post = meta.post_token_balances;
                let mints = tracked_mints(tracked_mints(Seq::empty(), pre, user), post, user);
                seq![combined_entry(meta, user, before, recorded_after)] + token_entries(
                    mints,
                    pre,
                    post,
                    user,
                )
            },
        },
    }
}

/// A transaction whose recorded balances lack either native array has no
/// balance changes, whatever its token balances hold.
pub proof fn lemma_missing_native_array_gives_no_entries(
    tx: RawTransactionModel,
    user: Seq<char>,
)
    requires
        tx.meta matches Some(meta) ==> meta.pre_balances is None || meta.post_balances is None,
    ensures
        balance_changes(tx, user) == Seq::<BalanceChange>::empty(),
{
}

/// Where there are balance changes, the first is the combined native
/// entry and tells the native balance that was recorded before the
/// transaction at the user's position.
pub proof fn lemma_first_entry_is_native(tx: RawTransactionModel, user: Seq<char>)
    requires
        balance_changes(tx, user).len() > 0,
    ensures
        tx.meta is Some,
        native_balances(tx.meta->Some_0, signer_index(tx.account_keys, user)) is Some,
        balance_changes(tx, user)[0].mint == COMBINED_NATIVE_LABEL@,
        balance_changes(tx, user)[0].balance_pre == native_balances(
            tx.meta->Some_0,
            signer_index(tx.account_keys, user),
        )->Some_0.0,
{
}

/// Whether some entry that counts for `user` holds `mint`.
pub open spec fn is_tracked(
    entries: Seq<TokenBalanceModel>,
    user: Seq<char>,
    mint: Seq<char>,
) -> bool {
    exists|i: int|
        0 <= i < entries.len() && owned_amount(#[trigger] entries[i], user) is Some
            && entries[i].mint == mint
}

/// The tracked assets are those already seen and those of the entries
/// that count for the user, and no others.
pub proof fn lemma_tracked_mints_complete(
    seen: Seq<Seq<char>>,
    entries: Seq<TokenBalanceModel>,
    user: Seq<char>,
    mint: Seq<char>,
)
    ensures
        tracked_mints(seen, entries, user).contains(mint) <==> seen.contains(mint) || is_tracked(
            entries,
            user,
            mint,
        ),
    decreases entries.len(),
{
    if entries.len() > 0 {
        let shorter = entries.drop_last();
        let earlier = tracked_mints(seen, shorter, user);
        let entry = entries.last();
        lemma_tracked_mints_complete(seen, shorter, user, mint);
        if is_tracked(shorter, user, mint) {
            let i = choose|i: int|
                0 <= i < shorter.len() && owned_amount(#[trigger] shorter[i], user) is Some
                    && shorter[i].mint == mint;
            assert(entries[i] == shorter[i]);
        }
        if is_tracked(entries, user, mint) {
            let i = choose|i: int|
                0 <= i < entries.len() && owned_amount(#[trigger] entries[i], user) is Some
                    && entries[i].mint == mint;
            if i < shorter.len() {
                assert(shorter[i] == entries[i]);
            }
        }
        if owned_amount(entry, user) is Some && !earlier.contains(entry.mint) {
            let longer = earlier.push(entry.mint);
            assert(longer[earlier.len() as int] == entry.mint);
            assert forall|m: Seq<char>| longer.contains(m) <==> earlier.contains(m) || m
                == entry.mint by {
                if earlier.contains(m) {
                    let j = choose|j: int| 0 <= j < earlier.len() && earlier[j] == m;
                    assert(longer[j] == m);
                }
                if longer.contains(m) {
                    let j = choose|j: int| 0 <= j < longer.len() && longer[j] == m;
                    if j < earlier.len() {
                        assert(earlier[j] == m);
                    }
                }
            }
        }
    }
}

/// No asset is tracked twice.
pub proof fn lemma_tracked_mints_distinct(
    seen: Seq<Seq<char>>,
    entries: Seq<TokenBalanceModel>,
    user: Seq<char>,
)
    requires
        seen.no_duplicates(),
    ensures
        tracked_mints(seen, entries, user).no_duplicates(),
    decreases entries.len(),
{
    if entries.len() > 0 {
        lemma_tracked_mints_distinct(seen, entries.drop_last(), user);
    }
}

/// Every entry after the combined native entry records a balance that
/// changed, of an asset other than the reference asset.
pub proof fn lemma_token_entries_changed(
    mints: Seq<Seq<char>>,
    pre: Seq<TokenBalanceModel>,
    post: Seq<TokenBalanceModel>,
    user: Seq<char>,
    i: int,
)
    requires
        0 <= i < token_entries(mints, pre, post, user).len(),
    ensures
        token_entries(mints, pre, post, user)[i].balance_pre != token_entries(
            mints,
            pre,
            post,
            user,
        )[i].balance_post,
        token_entries(mints, pre, post, user)[i].change != 0,
        token_entries(mints, pre, post, user)[i].mint != reference_asset(),
    decreases mints.len(),
{
    let earlier = token_entries(mints.drop_last(), pre, post, user);
    if i < earlier.len() {
        lemma_token_entries_changed(mints.drop_last(), pre, post, user, i);
    }
}

/// The user's first position in the account list, if the list names the
/// user. A caller who must know whether `find_signer_index` fell back to
/// the fee payer asks here.
pub fn signer_position(keys: &Vec<String>, user: &str) -> (position: Option<usize>)
    ensures
        position matches Some(index) ==> is_first_position(texts(keys@), user@, index as int),
        position is None ==> !is_listed(texts(keys@), user@),
{
    let mut i: usize = 0;
    while i < keys.len()
        invariant
            i <= keys.len(),
            forall|j: int| 0 <= j < i ==> #[trigger] texts(keys@)[j] != user@,
        decreases keys.len() - i,
    {
        if same_text(keys[i].as_str(), user) {
            assert(texts(keys@)[i as int] == user@);
            return Some(i);
        }
        assert(texts(keys@)[i as int] != user@);
        i += 1;
    }
    None
}

/// The user's position in the account list, or 0 for a user who is not
/// in it.
pub fn find_signer_index(keys: &Vec<String>, user: &str) -> (index: usize)
    ensures
        index == signer_index(texts(keys@), user@),
{
    match signer_position(keys, user) {
        Some(index) => {
            proof {
                let chosen = choose|c: int| is_first_position(texts(keys@), user@, c);
                assert(is_first_position(texts(keys@), user@, chosen));
                assert(chosen == index);
            }
            index
        },
        None => 0,
    }
}

/// The native balance recorded at `index`, if there is one.
fn native_balance_at(balances: &Vec<Option<u64>>, index: usize) -> (lamports: Option<u64>)
    ensures
        lamports == native_at(balances@, index as int),
{
    if index < balances.len() {
        balances[index]
    } else {
        None
    }
}

/// The native balances at `index` before and after the transaction.
fn native_balances_at(meta: &TransactionMeta, index: usize) -> (balances: Option<(u64, u64)>)
    ensures
        balances == native_balances(meta@, index as int),
{
    match (&meta.pre_balances, &meta.post_balances) {
        (Some(pre), Some(post)) => match (
            native_balance_at(pre, index),
            native_balance_at(post, index),
        ) {
            (Some(before), Some(after)) => Some((before, after)),
            _ => None,
        },
        _ => None,
    }
}

/// The amount of `entry` that counts for `user`.
fn owned_amount_of(entry: &TokenBalance, user: &str) -> (amount: Option<u64>)
    ensures
        amount == owned_amount(entry@, user@),
{
    if same_text(entry.owner.as_str(), user) {
        parse_amount(entry.amount.as_str())
    } else {
        None
    }
}

/// Whether `mints` holds the text `mint`.
fn holds_text(mints: &Vec<String>, mint: &str) -> (found: bool)
    ensures
        found == texts(mints@).contains(mint@),
{
    let mut i: usize = 0;
    while i < mints.len()
        invariant
            i <= mints.len(),
            forall|j: int| 0 <= j < i ==> texts(mints@)[j] != mint@,
        decreases mints.len() - i,
    {
        if same_text(mints[i].as_str(), mint) {
            assert(texts(mints@)[i as int] == mint@);
            return true;
        }
        i += 1;
    }
    false
}

/// Adds to `mints` the assets of the entries that count for `user` and
/// that `mints` does not hold yet.
fn collect_mints(entries: &Vec<TokenBalance>, user: &str, mints: &mut Vec<String>)
    ensures
        texts(final(mints)@) == tracked_mints(texts(old(mints)@), tokens_view(entries@), user@),
{
    let ghost seen = texts(mints@);
    let ghost all = tokens_view(entries@);
    let mut k: usize = 0;
    while k < entries.len()
        invariant
            k <= entries.len(),
            all == tokens_view(entries@),
            texts(mints@) == tracked_mints(seen, all.take(k as int), user@),
        decreases entries.len() - k,
    {
        let entry = &entries[k];
        let ghost earlier = texts(mints@);
        proof {
            assert(all.take(k + 1).drop_last() =~= all.take(k as int));
            assert(all.take(k + 1).last() == entries@[k as int]@);
        }
        if owned_amount_of(entry, user).is_some() && !holds_text(mints, entry.mint.as_str()) {
            mints.push(entry.mint.clone());
            assert(texts(mints@) =~= earlier.push(entry.mint@));
        }
        k += 1;
    }
    proof {
        assert(all.take(k as int) =~= all);
    }
}

/// The amount of the last entry that counts for `user` and holds `mint`.
fn last_amount_of(entries: &Vec<TokenBalance>, user: &str, mint: &str) -> (amount: u64)
    ensures
        amount == last_amount(tokens_view(entries@), user@, mint@),
{
    let ghost all = tokens_view(entries@);
    let mut amount: u64 = 0;
    let mut k: usize = 0;
    while k < entries.len()
        invariant
            k <= entries.len(),
            all == tokens_view(entries@),
            amount == last_amount(all.take(k as int), user@, mint@),
        decreases entries.len() - k,
    {
        let entry = &entries[k];
        proof {
            assert(all.take(k + 1).drop_last() =~= all.take(k as int));
            assert(all.take(k + 1).last() == entries@[k as int]@);
        }
        if same_text(entry.mint.as_str(), mint) {
            match owned_amount_of(entry, user) {
                Some(found) => {
                    amount = found;
                },
                None => {},
            }
        }
        k += 1;
    }
    proof {
        assert(all.take(k as int) =~= all);
    }
    amount
}

/// The sum of the amounts of the entries that count for `user` and hold
/// `mint`.
fn owned_total_of(entries: &Vec<TokenBalance>, user: &str, mint: &str) -> (total: u128)
    ensures
        total == owned_total(tokens_view(entries@), user@, mint@),
{
    let ghost all = tokens_view(entries@);
    let mut total: u128 = 0;
    let mut k: usize = 0;
    while k < entries.len()
        invariant
            k <= entries.len(),
            all == tokens_view(entries@),
            total == owned_total(all.take(k as int), user@, mint@),
            total <= k * 0xffff_ffff_ffff_ffff,
        decreases entries.len() - k,
    {
        let entry = &entries[k];
        proof {
            assert(all.take(k + 1).drop_last() =~= all.take(k as int));
            assert(all.take(k + 1).last() == entries@[k as int]@);
            assert((k + 1) * 0xffff_ffff_ffff_ffff <= 0xffff_ffff_ffff_ffff * 0xffff_ffff_ffff_ffff)
                by (nonlinear_arith)
                requires
                    k + 1 <= 0xffff_ffff_ffff_ffff,
            ;
            assert((k + 1) * 0xffff_ffff_ffff_ffff == k * 0xffff_ffff_ffff_ffff
                + 0xffff_ffff_ffff_ffff) by (nonlinear_arith);
        }
        if same_text(entry.mint.as_str(), mint) {
            match owned_amount_of(entry, user) {
                Some(found) => {
                    total = total + found as u128;
                },
                None => {},
            }
        }
        k += 1;
    }
    proof {
        assert(all.take(k as int) =~= all);
    }
    total
}

/// Calculates the balance changes of `user_address` in a transaction.
pub fn transaction_balance_changes(tx: &RawTransaction, user_address: &str) -> (changes: Vec<
    BalanceChangeEntry,
>)
    ensures
        changes_view(changes@) == balance_changes(tx@, user_address@),
{
    let mut changes: Vec<BalanceChangeEntry> = Vec::new();
    let meta = match &tx.meta {
        Some(meta) => meta,
        None => {
            assert(changes_view(changes@) =~= Seq::empty());
            return changes;
        },
    };
    let index = find_signer_index(&tx.account_keys, user_address);
    let (before, recorded_after) = match native_balances_at(meta, index) {
        Some(balances) => balances,
        None => {
            assert(changes_view(changes@) =~= Seq::empty());
            return changes;
        },
    };
    let wrapped_before = owned_total_of(&meta.pre_token_balances, user_address, WSOL_MINT);
    let wrapped_after = owned_total_of(&meta.post_token_balances, user_address, WSOL_MINT);
    let after = shifted_balance(recorded_after, wrapped_after, wrapped_before);
    changes.push(
        BalanceChangeEntry {
            mint: COMBINED_NATIVE_LABEL.to_owned(),
            balance_pre: before,
            balance_post: after,
            change: signed_delta(before, after),
        },
    );
    let ghost first = combined_entry(meta@, user_address@, before, recorded_after);
    assert(changes_view(changes@) =~= seq![first]);

    let mut mints: Vec<String> = Vec::new();
    assert(texts(mints@) =~= Seq::empty());
    collect_mints(&meta.pre_token_balances, user_address, &mut mints);
    collect_mints(&meta.post_token_balances, user_address, &mut mints);

    let ghost pre = tokens_view(meta.pre_token_balances@);
    let ghost post = tokens_view(meta.post_token_balances@);
    let mut k: usize = 0;
    assert(texts(mints@).take(0) =~= Seq::empty());
    while k < mints.len()
        invariant
            k <= mints.len(),
            pre == tokens_view(meta.pre_token_balances@),
            post == tokens_view(meta.post_token_balances@),
            changes_view(changes@) =~= seq![first] + token_entries(
                texts(mints@).take(k as int),
                pre,
                post,
                user_address@,
            ),
        decreases mints.len() - k,
    {
        let mint = &mints[k];
        let ghost earlier = changes_view(changes@);
        proof {
            assert(texts(mints@).take(k + 1).drop_last() =~= texts(mints@).take(k as int));
            assert(texts(mints@).take(k + 1).last() == mint@);
        }
        let amount_before = last_amount_of(&meta.pre_token_balances, user_address, mint.as_str());
        let amount_after = last_amount_of(&meta.post_token_balances, user_address, mint.as_str());
        if amount_before != amount_after && !is_reference_asset(mint.as_str()) {
            changes.push(
                BalanceChangeEntry {
                    mint: mint.clone(),
                    balance_pre: amount_before,
                    balance_post: amount_after,
                    change: signed_delta(amount_before, amount_after),
                },
            );
            assert(changes_view(changes@) =~= earlier.push(
                token_change(mint@, amount_before, amount_after),
            ));
        }
        k += 1;
    }
    proof {
        assert(texts(mints@).take(k as int) =~= texts(mints@));
    }
    changes
}

} // verus!
