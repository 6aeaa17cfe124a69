//! Records of the Raydium AMM v4 program, and the trade that the balance
//! changes of a swap's user show.

use crate::balance_delta::{
    balance_changes, changes_view, transaction_balance_changes, BalanceChange, BalanceChangeEntry,
};
use crate::classifier::{
    calculated_trade, calculated_view, classify_balance_changes, TradeInfoCalculated,
};
use crate::identifier::Identifier;
use crate::metadata::EventMetadata;
use crate::unified::{
    copy_bytes, fields_view, FieldContent, FieldValue, NamedField, UnifiedEvent,
};
use crate::wire::{has_prefix, starts_with, RecordCategory};
use vstd::prelude::*;

verus! {

/// Platform tag of the trades of this program.
pub const RAYDIUM_AMM_V4_PLATFORM: &'static str = "RaydiumAmmV4";

/// A swap. `amount_in` and `minimum_amount_out` belong to a swap with a fixed
/// input, `max_amount_in` and `amount_out` to one with a fixed output.
#[derive(Clone, Debug, Default, PartialEq, Eq)]
pub struct RaydiumAmmV4SwapEvent {
    pub metadata: EventMetadata,
    pub amount_in: u64,
    pub minimum_amount_out: u64,
    pub max_amount_in: u64,
    pub amount_out: u64,
    pub token_program: Identifier,
    pub amm: Identifier,
    pub amm_authority: Identifier,
    pub amm_open_orders: Identifier,
    pub amm_target_orders: Option<Identifier>,
    pub pool_coin_token_account: Identifier,
    pub pool_pc_token_account: Identifier,
    pub serum_program: Identifier,
    pub serum_market: Identifier,
    pub serum_bids: Identifier,
    pub serum_asks: Identifier,
    pub serum_event_queue: Identifier,
    pub serum_coin_vault_account: Identifier,
    pub serum_pc_vault_account: Identifier,
    pub serum_vault_signer: Identifier,
    pub user_source_token_account: Identifier,
    pub user_destination_token_account: Identifier,
    pub user_source_owner: Identifier,
}

impl RaydiumAmmV4SwapEvent {
    /// The balance changes of `user` in the transaction of this record;
    /// none where the metadata carries no transaction.
    pub open spec fn balance_changes_of(&self, user: Seq<char>) -> Seq<BalanceChange> {
        match self.metadata.raw_transaction {
            Some(tx) => balance_changes(tx@, user),
            None => Seq::empty(),
        }
    }

    /// Calculate balance changes for the transaction user.
    pub fn calculate_balance_changes(&self, user_address: &str) -> (changes: Vec<
        BalanceChangeEntry,
    >)
        ensures
            changes_view(changes@) == self.balance_changes_of(user_address@),
    {
        match &self.metadata.raw_transaction {
            Some(tx) => transaction_balance_changes(tx, user_address),
            None => {
                let changes: Vec<BalanceChangeEntry> = Vec::new();
                assert(changes_view(changes@) =~= Seq::empty());
                changes
            },
        }
    }

    /// Calculate accurate trade info based on balance changes.
    pub fn calculate_trade_info(&self, user_address: &str) -> (trade: Option<TradeInfoCalculated>)
        ensures
            calculated_view(trade) == calculated_trade(
                user_address@,
                self.balance_changes_of(user_address@),
            ),
    {
        let changes = self.calculate_balance_changes(user_address);
        match classify_balance_changes(user_address, &changes, RAYDIUM_AMM_V4_PLATFORM) {
            Some(trade) => Some(TradeInfoCalculated::from_trade(trade)),
            None => None,
        }
    }
}

/// A deposit of liquidity.
#[derive(Clone, Debug, Default, PartialEq, Eq)]
pub struct RaydiumAmmV4DepositEvent {
    pub metadata: EventMetadata,
    pub max_coin_amount: u64,
    pub max_pc_amount: u64,
    pub base_side: u64,
    pub token_program: Identifier,
    pub amm: Identifier,
    pub amm_authority: Identifier,
    pub amm_open_orders: Identifier,
    pub amm_target_orders: Identifier,
    pub lp_mint_address: Identifier,
    pub pool_coin_token_account: Identifier,
    pub pool_pc_token_account: Identifier,
    pub serum_market: Identifier,
    pub user_coin_token_account: Identifier,
    pub user_pc_token_account: Identifier,
    pub user_lp_token_account: Identifier,
    pub user_owner: Identifier,
    pub serum_event_queue: Identifier,
}

/// The initialization of a pool.
#[derive(Clone, Debug, Default, PartialEq, Eq)]
pub struct RaydiumAmmV4Initialize2Event {
    pub metadata: EventMetadata,
    pub nonce: u8,
    pub open_time: u64,
    pub init_pc_amount: u64,
    pub init_coin_amount: u64,
    pub token_program: Identifier,
    pub spl_associated_token_account: Identifier,
    pub system_program: Identifier,
    pub rent: Identifier,
    pub amm: Identifier,
    pub amm_authority: Identifier,
    pub amm_open_orders: Identifier,
    pub lp_mint: Identifier,
    pub coin_mint: Identifier,
    pub pc_mint: Identifier,
    pub pool_coin_token_account: Identifier,
    pub pool_pc_token_account: Identifier,
    pub pool_withdraw_queue: Identifier,
    pub amm_target_orders: Identifier,
    pub pool_temp_lp: Identifier,
    pub serum_program: Identifier,
    pub serum_market: Identifier,
    pub user_wallet: Identifier,
    pub user_token_coin: Identifier,
    pub user_token_pc: Identifier,
    pub user_lp_token_account: Identifier,
}

/// A withdrawal of liquidity.
#[derive(Clone, Debug, Default, PartialEq, Eq)]
pub struct RaydiumAmmV4WithdrawEvent {
    pub metadata: EventMetadata,
    pub amount: u64,
    pub token_program: Identifier,
    pub amm: Identifier,
    pub amm_authority: Identifier,
    pub amm_open_orders: Identifier,
    pub amm_target_orders: Identifier,
    pub lp_mint_address: Identifier,
    pub pool_coin_token_account: Identifier,
    pub pool_pc_token_account: Identifier,
    pub pool_withdraw_queue: Identifier,
    pub pool_temp_lp_token_account: Identifier,
    pub serum_program: Identifier,
    pub serum_market: Identifier,
    pub serum_coin_vault_account: Identifier,
    pub serum_pc_vault_account: Identifier,
    pub serum_vault_signer: Identifier,
    pub user_lp_token_account: Identifier,
    pub user_coin_token_account: Identifier,
    pub user_pc_token_account: Identifier,
    pub user_owner: Identifier,
    pub serum_event_queue: Identifier,
    pub serum_bids: Identifier,
    pub serum_asks: Identifier,
}

/// A withdrawal of profit.
#[derive(Clone, Debug, Default, PartialEq, Eq)]
pub struct RaydiumAmmV4WithdrawPnlEvent {
    pub metadata: EventMetadata,
    pub token_program: Identifier,
    pub amm: Identifier,
    pub amm_config: Identifier,
    pub amm_authority: Identifier,
    pub amm_open_orders: Identifier,
    pub pool_coin_token_account: Identifier,
    pub pool_pc_token_account: Identifier,
    pub coin_pnl_token_account: Identifier,
    pub pc_pnl_token_account: Identifier,
    pub pnl_owner_account: Identifier,
    pub amm_target_orders: Identifier,
    pub serum_program: Identifier,
    pub serum_market: Identifier,
    pub serum_event_queue: Identifier,
    pub serum_coin_vault_account: Identifier,
    pub serum_pc_vault_account: Identifier,
    pub serum_vault_signer: Identifier,
}

/// Snapshot of a pool account. The account's own data is carried as it
/// was read.
#[derive(Clone, Debug, Default, PartialEq, Eq)]
pub struct RaydiumAmmV4AmmInfoAccountEvent {
    pub metadata: EventMetadata,
    pub pubkey: String,
    pub executable: bool,
    pub lamports: u64,
    pub owner: String,
    pub rent_epoch: u64,
    pub amm_info: Vec<u8>,
}

/// Tag of a swap instruction with a fixed input.
pub const SWAP_BASE_IN: [u8; 1] = [9];

/// Tag of a swap instruction with a fixed output.
pub const SWAP_BASE_OUT: [u8; 1] = [11];

/// Tag of a deposit instruction.
pub const DEPOSIT: [u8; 1] = [3];

/// Tag of an initialize instruction.
pub const INITIALIZE2: [u8; 1] = [1];

/// Tag of a withdraw instruction.
pub const WITHDRAW: [u8; 1] = [4];

/// Tag of a withdraw-profit instruction.
pub const WITHDRAW_PNL: [u8; 1] = [7];

/// Tag of a pool account.
pub const AMM_INFO: [u8; 1] = [6];

/// The kinds of record of this program.
#[derive(Clone, Copy, Debug, PartialEq, Eq, Structural)]
pub enum RaydiumAmmV4RecordKind {
    SwapBaseIn,
    SwapBaseOut,
    Deposit,
    Initialize2,
    Withdraw,
    WithdrawPnl,
    AmmInfo,
}

/// The prefix that marks a kind of record in a category, where the
/// category has such records.
pub open spec fn discriminator(category: RecordCategory, kind: RaydiumAmmV4RecordKind) -> Option<
    Seq<u8>,
> {
    match (category, kind) {
        (RecordCategory::Instruction, RaydiumAmmV4RecordKind::SwapBaseIn) => Some(SWAP_BASE_IN@),
        (RecordCategory::Instruction, RaydiumAmmV4RecordKind::SwapBaseOut) => Some(SWAP_BASE_OUT@),
        (RecordCategory::Instruction, RaydiumAmmV4RecordKind::Deposit) => Some(DEPOSIT@),
        (RecordCategory::Instruction, RaydiumAmmV4RecordKind::Initialize2) => Some(INITIALIZE2@),
        (RecordCategory::Instruction, RaydiumAmmV4RecordKind::Withdraw) => Some(WITHDRAW@),
        (RecordCategory::Instruction, RaydiumAmmV4RecordKind::WithdrawPnl) => Some(WITHDRAW_PNL@),
        (RecordCategory::Account, RaydiumAmmV4RecordKind::AmmInfo) => Some(AMM_INFO@),
        _ => None,
    }
}

/// Whether `data` is a record of the given kind in the given category: it
/// begins with exactly that kind's prefix.
pub open spec fn is_kind(
    data: Seq<u8>,
    category: RecordCategory,
    kind: RaydiumAmmV4RecordKind,
) -> bool {
    match discriminator(category, kind) {
        Some(prefix) => has_prefix(data, prefix),
        None => false,
    }
}

/// Within one category no two kinds share a prefix.
pub proof fn lemma_discriminators_unique(
    category: RecordCategory,
    a: RaydiumAmmV4RecordKind,
    b: RaydiumAmmV4RecordKind,
)
    requires
        a != b,
        discriminator(category, a) is Some,
        discriminator(category, b) is Some,
    ensures
        discriminator(category, a) != discriminator(category, b),
{
    assert(SWAP_BASE_IN@[0] == 9);
    assert(SWAP_BASE_OUT@[0] == 11);
    assert(DEPOSIT@[0] == 3);
    assert(INITIALIZE2@[0] == 1);
    assert(WITHDRAW@[0] == 4);
    assert(WITHDRAW_PNL@[0] == 7);
    assert(AMM_INFO@[0] == 6);
}

/// Bytes match at most one kind of a category.
pub proof fn lemma_kind_is_unambiguous(
    data: Seq<u8>,
    category: RecordCategory,
    a: RaydiumAmmV4RecordKind,
    b: RaydiumAmmV4RecordKind,
)
    requires
        is_kind(data, category, a),
        is_kind(data, category, b),
    ensures
        a == b,
{
    if a != b {
        lemma_discriminators_unique(category, a, b);
        let first = discriminator(category, a)->Some_0;
        let second = discriminator(category, b)->Some_0;
        assert(first.len() == second.len());
        assert(first =~= data.subrange(0, first.len() as int));
    }
}

/// Tells which kind of record `data` is by its prefix. Bytes with no known
/// prefix are no error: they are not a record of this program.
pub fn identify(data: &[u8], category: RecordCategory) -> (kind: Option<RaydiumAmmV4RecordKind>)
    ensures
        kind matches Some(found) ==> is_kind(data@, category, found),
        kind is None ==> forall|any: RaydiumAmmV4RecordKind| !is_kind(data@, category, any),
{
    match category {
        RecordCategory::Log => None,
        RecordCategory::Instruction => {
            if starts_with(data, SWAP_BASE_IN.as_slice()) {
                Some(RaydiumAmmV4RecordKind::SwapBaseIn)
            } else if starts_with(data, SWAP_BASE_OUT.as_slice()) {
                Some(RaydiumAmmV4RecordKind::SwapBaseOut)
            } else if starts_with(data, DEPOSIT.as_slice()) {
                Some(RaydiumAmmV4RecordKind::Deposit)
            } else if starts_with(data, INITIALIZE2.as_slice()) {
                Some(RaydiumAmmV4RecordKind::Initialize2)
            } else if starts_with(data, WITHDRAW.as_slice()) {
                Some(RaydiumAmmV4RecordKind::Withdraw)
            } else if starts_with(data, WITHDRAW_PNL.as_slice()) {
                Some(RaydiumAmmV4RecordKind::WithdrawPnl)
            } else {
                None
            }
        },
        RecordCategory::Account => {
            if starts_with(data, AMM_INFO.as_slice()) {
                Some(RaydiumAmmV4RecordKind::AmmInfo)
            } else {
                None
            }
        },
    }
}

impl UnifiedEvent for RaydiumAmmV4SwapEvent {
    open spec fn envelope(&self) -> EventMetadata {
        self.metadata
    }

    open spec fn wire_fields(&self) -> Seq<(Seq<char>, FieldContent)> {
        seq![
            ("amount_in"@, FieldContent::U64(self.amount_in)),
            ("minimum_amount_out"@, FieldContent::U64(self.minimum_amount_out)),
            ("max_amount_in"@, FieldContent::U64(self.max_amount_in)),
            ("amount_out"@, FieldContent::U64(self.amount_out)),
            ("token_program"@, FieldContent::Id(self.token_program)),
            ("amm"@, FieldContent::Id(self.amm)),
            ("amm_authority"@, FieldContent::Id(self.amm_authority)),
            ("amm_open_orders"@, FieldContent::Id(self.amm_open_orders)),
            ("amm_target_orders"@, FieldContent::OptionalId(self.amm_target_orders)),
            ("pool_coin_token_account"@, FieldContent::Id(self.pool_coin_token_account)),
            ("pool_pc_token_account"@, FieldContent::Id(self.pool_pc_token_account)),
            ("serum_program"@, FieldContent::Id(self.serum_program)),
            ("serum_market"@, FieldContent::Id(self.serum_market)),
            ("serum_bids"@, FieldContent::Id(self.serum_bids)),
            ("serum_asks"@, FieldContent::Id(self.serum_asks)),
            ("serum_event_queue"@, FieldContent::Id(self.serum_event_queue)),
            ("serum_coin_vault_account"@, FieldContent::Id(self.serum_coin_vault_account)),
            ("serum_pc_vault_account"@, FieldContent::Id(self.serum_pc_vault_account)),
            ("serum_vault_signer"@, FieldContent::Id(self.serum_vault_signer)),
            ("user_source_token_account"@, FieldContent::Id(self.user_source_token_account)),
            (
                "user_destination_token_account"@,
                FieldContent::Id(self.user_destination_token_account),
            ),
            ("user_source_owner"@, FieldContent::Id(self.user_source_owner)),
        ]
    }

    fn apply_metadata(self, metadata: EventMetadata) -> (merged: Self)
        ensures
            merged == (RaydiumAmmV4SwapEvent { metadata: metadata, ..self }),
    {
        let mut merged = self;
        merged.metadata = metadata;
        merged
    }

    fn mergeable_fields(&self) -> (fields: Vec<NamedField>) {
        let mut fields: Vec<NamedField> = Vec::new();
        fields.push(NamedField::new("amount_in", FieldValue::U64(self.amount_in)));
        fields.push(
            NamedField::new("minimum_amount_out", FieldValue::U64(self.minimum_amount_out)),
        );
        fields.push(NamedField::new("max_amount_in", FieldValue::U64(self.max_amount_in)));
        fields.push(NamedField::new("amount_out", FieldValue::U64(self.amount_out)));
        fields.push(NamedField::new("token_program", FieldValue::Id(self.token_program)));
        fields.push(NamedField::new("amm", FieldValue::Id(self.amm)));
        fields.push(NamedField::new("amm_authority", FieldValue::Id(self.amm_authority)));
        fields.push(NamedField::new("amm_open_orders", FieldValue::Id(self.amm_open_orders)));
        fields.push(
            NamedField::new("amm_target_orders", FieldValue::OptionalId(self.amm_target_orders)),
        );
        fields.push(
            NamedField::new(
                "pool_coin_token_account",
                FieldValue::Id(self.pool_coin_token_account),
            ),
        );
        fields.push(
            NamedField::new("pool_pc_token_account", FieldValue::Id(self.pool_pc_token_account)),
        );
        fields.push(NamedField::new("serum_program", FieldValue::Id(self.serum_program)));
        fields.push(NamedField::new("serum_market", FieldValue::Id(self.serum_market)));
        fields.push(NamedField::new("serum_bids", FieldValue::Id(self.serum_bids)));
        fields.push(NamedField::new("serum_asks", FieldValue::Id(self.serum_asks)));
        fields.push(NamedField::new("serum_event_queue", FieldValue::Id(self.serum_event_queue)));
        fields.push(
            NamedField::new(
                "serum_coin_vault_account",
                FieldValue::Id(self.serum_coin_vault_account),
            ),
        );
        fields.push(
            NamedField::new("serum_pc_vault_account", FieldValue::Id(self.serum_pc_vault_account)),
        );
        fields.push(NamedField::new("serum_vault_signer", FieldValue::Id(self.serum_vault_signer)));
        fields.push(
            NamedField::new(
                "user_source_token_account",
                FieldValue::Id(self.user_source_token_account),
            ),
        );
        fields.push(
            NamedField::new(
                "user_destination_token_account",
                FieldValue::Id(self.user_destination_token_account),
            ),
        );
        fields.push(NamedField::new("user_source_owner", FieldValue::Id(self.user_source_owner)));
        assert(fields_view(fields@) =~= self.wire_fields());
        fields
    }
}

impl UnifiedEvent for RaydiumAmmV4DepositEvent {
    open spec fn envelope(&self) -> EventMetadata {
        self.metadata
    }

    open spec fn wire_fields(&self) -> Seq<(Seq<char>, FieldContent)> {
        seq![
            ("max_coin_amount"@, FieldContent::U64(self.max_coin_amount)),
            ("max_pc_amount"@, FieldContent::U64(self.max_pc_amount)),
            ("base_side"@, FieldContent::U64(self.base_side)),
            ("token_program"@, FieldContent::Id(self.token_program)),
            ("amm"@, FieldContent::Id(self.amm)),
            ("amm_authority"@, FieldContent::Id(self.amm_authority)),
            ("amm_open_orders"@, FieldContent::Id(self.amm_open_orders)),
            ("amm_target_orders"@, FieldContent::Id(self.amm_target_orders)),
            ("lp_mint_address"@, FieldContent::Id(self.lp_mint_address)),
            ("pool_coin_token_account"@, FieldContent::Id(self.pool_coin_token_account)),
            ("pool_pc_token_account"@, FieldContent::Id(self.pool_pc_token_account)),
            ("serum_market"@, FieldContent::Id(self.serum_market)),
            ("user_coin_token_account"@, FieldContent::Id(self.user_coin_token_account)),
            ("user_pc_token_account"@, FieldContent::Id(self.user_pc_token_account)),
            ("user_lp_token_account"@, FieldContent::Id(self.user_lp_token_account)),
            ("user_owner"@, FieldContent::Id(self.user_owner)),
            ("serum_event_queue"@, FieldContent::Id(self.serum_event_queue)),
        ]
    }

    fn apply_metadata(self, metadata: EventMetadata) -> (merged: Self)
        ensures
            merged == (RaydiumAmmV4DepositEvent { metadata: metadata, ..self }),
    {
        let mut merged = self;
        merged.metadata = metadata;
        merged
    }

    fn mergeable_fields(&self) -> (fields: Vec<NamedField>) {
        let mut fields: Vec<NamedField> = Vec::new();
        fields.push(NamedField::new("max_coin_amount", FieldValue::U64(self.max_coin_amount)));
        fields.push(NamedField::new("max_pc_amount", FieldValue::U64(self.max_pc_amount)));
        fields.push(NamedField::new("base_side", FieldValue::U64(self.base_side)));
        fields.push(NamedField::new("token_program", FieldValue::Id(self.token_program)));
        fields.push(NamedField::new("amm", FieldValue::Id(self.amm)));
        fields.push(NamedField::new("amm_authority", FieldValue::Id(self.amm_authority)));
        fields.push(NamedField::new("amm_open_orders", FieldValue::Id(self.amm_open_orders)));
        fields.push(NamedField::new("amm_target_orders", FieldValue::Id(self.amm_target_orders)));
        fields.push(NamedField::new("lp_mint_address", FieldValue::Id(self.lp_mint_address)));
        fields.push(
            NamedField::new(
                "pool_coin_token_account",
                FieldValue::Id(self.pool_coin_token_account),
            ),
        );
        fields.push(
            NamedField::new("pool_pc_token_account", FieldValue::Id(self.pool_pc_token_account)),
        );
        fields.push(NamedField::new("serum_market", FieldValue::Id(self.serum_market)));
        fields.push(
            NamedField::new(
                "user_coin_token_account",
                FieldValue::Id(self.user_coin_token_account),
            ),
        );
        fields.push(
            NamedField::new("user_pc_token_account", FieldValue::Id(self.user_pc_token_account)),
        );
        fields.push(
            NamedField::new("user_lp_token_account", FieldValue::Id(self.user_lp_token_account)),
        );
        fields.push(NamedField::new("user_owner", FieldValue::Id(self.user_owner)));
        fields.push(NamedField::new("serum_event_queue", FieldValue::Id(self.serum_event_queue)));
        assert(fields_view(fields@) =~= self.wire_fields());
        fields
    }
}

impl UnifiedEvent for RaydiumAmmV4Initialize2Event {
    open spec fn envelope(&self) -> EventMetadata {
        self.metadata
    }

    open spec fn wire_fields(&self) -> Seq<(Seq<char>, FieldContent)> {
        seq![
            ("nonce"@, FieldContent::U8(self.nonce)),
            ("open_time"@, FieldContent::U64(self.open_time)),
            ("init_pc_amount"@, FieldContent::U64(self.init_pc_amount)),
            ("init_coin_amount"@, FieldContent::U64(self.init_coin_amount)),
            ("token_program"@, FieldContent::Id(self.token_program)),
            ("spl_associated_token_account"@, FieldContent::Id(self.spl_associated_token_account)),
            ("system_program"@, FieldContent::Id(self.system_program)),
            ("rent"@, FieldContent::Id(self.rent)),
            ("amm"@, FieldContent::Id(self.amm)),
            ("amm_authority"@, FieldContent::Id(self.amm_authority)),
            ("amm_open_orders"@, FieldContent::Id(self.amm_open_orders)),
            ("lp_mint"@, FieldContent::Id(self.lp_mint)),
            ("coin_mint"@, FieldContent::Id(self.coin_mint)),
            ("pc_mint"@, FieldContent::Id(self.pc_mint)),
            ("pool_coin_token_account"@, FieldContent::Id(self.pool_coin_token_account)),
            ("pool_pc_token_account"@, FieldContent::Id(self.pool_pc_token_account)),
            ("pool_withdraw_queue"@, FieldContent::Id(self.pool_withdraw_queue)),
            ("amm_target_orders"@, FieldContent::Id(self.amm_target_orders)),
            ("pool_temp_lp"@, FieldContent::Id(self.pool_temp_lp)),
            ("serum_program"@, FieldContent::Id(self.serum_program)),
            ("serum_market"@, FieldContent::Id(self.serum_market)),
            ("user_wallet"@, FieldContent::Id(self.user_wallet)),
            ("user_token_coin"@, FieldContent::Id(self.user_token_coin)),
            ("user_token_pc"@, FieldContent::Id(self.user_token_pc)),
            ("user_lp_token_account"@, FieldContent::Id(self.user_lp_token_account)),
        ]
    }

    fn apply_metadata(self, metadata: EventMetadata) -> (merged: Self)
        ensures
            merged == (RaydiumAmmV4Initialize2Event { metadata: metadata, ..self }),
    {
        let mut merged = self;
        merged.metadata = metadata;
        merged
    }

    fn mergeable_fields(&self) -> (fields: Vec<NamedField>) {
        let mut fields: Vec<NamedField> = Vec::new();
        fields.push(NamedField::new("nonce", FieldValue::U8(self.nonce)));
        fields.push(NamedField::new("open_time", FieldValue::U64(self.open_time)));
        fields.push(NamedField::new("init_pc_amount", FieldValue::U64(self.init_pc_amount)));
        fields.push(NamedField::new("init_coin_amount", FieldValue::U64(self.init_coin_amount)));
        fields.push(NamedField::new("token_program", FieldValue::Id(self.token_program)));
        fields.push(
            NamedField::new(
                "spl_associated_token_account",
                FieldValue::Id(self.spl_associated_token_account),
            ),
        );
        fields.push(NamedField::new("system_program", FieldValue::Id(self.system_program)));
        fields.push(NamedField::new("rent", FieldValue::Id(self.rent)));
        fields.push(NamedField::new("amm", FieldValue::Id(self.amm)));
        fields.push(NamedField::new("amm_authority", FieldValue::Id(self.amm_authority)));
        fields.push(NamedField::new("amm_open_orders", FieldValue::Id(self.amm_open_orders)));
        fields.push(NamedField::new("lp_mint", FieldValue::Id(self.lp_mint)));
        fields.push(NamedField::new("coin_mint", FieldValue::Id(self.coin_mint)));
        fields.push(NamedField::new("pc_mint", FieldValue::Id(self.pc_mint)));
        fields.push(
            NamedField::new(
                "pool_coin_token_account",
                FieldValue::Id(self.pool_coin_token_account),
            ),
        );
        fields.push(
            NamedField::new("pool_pc_token_account", FieldValue::Id(self.pool_pc_token_account)),
        );
        fields.push(
            NamedField::new("pool_withdraw_queue", FieldValue::Id(self.pool_withdraw_queue)),
        );
        fields.push(NamedField::new("amm_target_orders", FieldValue::Id(self.amm_target_orders)));
        fields.push(NamedField::new("pool_temp_lp", FieldValue::Id(self.pool_temp_lp)));
        fields.push(NamedField::new("serum_program", FieldValue::Id(self.serum_program)));
        fields.push(NamedField::new("serum_market", FieldValue::Id(self.serum_market)));
        fields.push(NamedField::new("user_wallet", FieldValue::Id(self.user_wallet)));
        fields.push(NamedField::new("user_token_coin", FieldValue::Id(self.user_token_coin)));
        fields.push(NamedField::new("user_token_pc", FieldValue::Id(self.user_token_pc)));
        fields.push(
            NamedField::new("user_lp_token_account", FieldValue::Id(self.user_lp_token_account)),
        );
        assert(fields_view(fields@) =~= self.wire_fields());
        fields
    }
}

impl UnifiedEvent for RaydiumAmmV4WithdrawEvent {
    open spec fn envelope(&self) -> EventMetadata {
        self.metadata
    }

    open spec fn wire_fields(&self) -> Seq<(Seq<char>, FieldContent)> {
        seq![
            ("amount"@, FieldContent::U64(self.amount)),
            ("token_program"@, FieldContent::Id(self.token_program)),
            ("amm"@, FieldContent::Id(self.amm)),
            ("amm_authority"@, FieldContent::Id(self.amm_authority)),
            ("amm_open_orders"@, FieldContent::Id(self.amm_open_orders)),
            ("amm_target_orders"@, FieldContent::Id(self.amm_target_orders)),
            ("lp_mint_address"@, FieldContent::Id(self.lp_mint_address)),
            ("pool_coin_token_account"@, FieldContent::Id(self.pool_coin_token_account)),
            ("pool_pc_token_account"@, FieldContent::Id(self.pool_pc_token_account)),
            ("pool_withdraw_queue"@, FieldContent::Id(self.pool_withdraw_queue)),
            ("pool_temp_lp_token_account"@, FieldContent::Id(self.pool_temp_lp_token_account)),
            ("serum_program"@, FieldContent::Id(self.serum_program)),
            ("serum_market"@, FieldContent::Id(self.serum_market)),
            ("serum_coin_vault_account"@, FieldContent::Id(self.serum_coin_vault_account)),
            ("serum_pc_vault_account"@, FieldContent::Id(self.serum_pc_vault_account)),
            ("serum_vault_signer"@, FieldContent::Id(self.serum_vault_signer)),
            ("user_lp_token_account"@, FieldContent::Id(self.user_lp_token_account)),
            ("user_coin_token_account"@, FieldContent::Id(self.user_coin_token_account)),
            ("user_pc_token_account"@, FieldContent::Id(self.user_pc_token_account)),
            ("user_owner"@, FieldContent::Id(self.user_owner)),
            ("serum_event_queue"@, FieldContent::Id(self.serum_event_queue)),
            ("serum_bids"@, FieldContent::Id(self.serum_bids)),
            ("serum_asks"@, FieldContent::Id(self.serum_asks)),
        ]
    }

    fn apply_metadata(self, metadata: EventMetadata) -> (merged: Self)
        ensures
            merged == (RaydiumAmmV4WithdrawEvent { metadata: metadata, ..self }),
    {
        let mut merged = self;
        merged.metadata = metadata;
        merged
    }

    fn mergeable_fields(&self) -> (fields: Vec<NamedField>) {
        let mut fields: Vec<NamedField> = Vec::new();
        fields.push(NamedField::new("amount", FieldValue::U64(self.amount)));
        fields.push(NamedField::new("token_program", FieldValue::Id(self.token_program)));
        fields.push(NamedField::new("amm", FieldValue::Id(self.amm)));
        fields.push(NamedField::new("amm_authority", FieldValue::Id(self.amm_authority)));
        fields.push(NamedField::new("amm_open_orders", FieldValue::Id(self.amm_open_orders)));
        fields.push(NamedField::new("amm_target_orders", FieldValue::Id(self.amm_target_orders)));
        fields.push(NamedField::new("lp_mint_address", FieldValue::Id(self.lp_mint_address)));
        fields.push(
            NamedField::new(
                "pool_coin_token_account",
                FieldValue::Id(self.pool_coin_token_account),
            ),
        );
        fields.push(
            NamedField::new("pool_pc_token_account", FieldValue::Id(self.pool_pc_token_account)),
        );
        fields.push(
            NamedField::new("pool_withdraw_queue", FieldValue::Id(self.pool_withdraw_queue)),
        );
        fields.push(
            NamedField::new(
                "pool_temp_lp_token_account",
                FieldValue::Id(self.pool_temp_lp_token_account),
            ),
        );
        fields.push(NamedField::new("serum_program", FieldValue::Id(self.serum_program)));
        fields.push(NamedField::new("serum_market", FieldValue::Id(self.serum_market)));
        fields.push(
            NamedField::new(
                "serum_coin_vault_account",
                FieldValue::Id(self.serum_coin_vault_account),
            ),
        );
        fields.push(
            NamedField::new("serum_pc_vault_account", FieldValue::Id(self.serum_pc_vault_account)),
        );
        fields.push(NamedField::new("serum_vault_signer", FieldValue::Id(self.serum_vault_signer)));
        fields.push(
            NamedField::new("user_lp_token_account", FieldValue::Id(self.user_lp_token_account)),
        );
        fields.push(
            NamedField::new(
                "user_coin_token_account",
                FieldValue::Id(self.user_coin_token_account),
            ),
        );
        fields.push(
            NamedField::new("user_pc_token_account", FieldValue::Id(self.user_pc_token_account)),
        );
        fields.push(NamedField::new("user_owner", FieldValue::Id(self.user_owner)));
        fields.push(NamedField::new("serum_event_queue", FieldValue::Id(self.serum_event_queue)));
        fields.push(NamedField::new("serum_bids", FieldValue::Id(self.serum_bids)));
        fields.push(NamedField::new("serum_asks", FieldValue::Id(self.serum_asks)));
        assert(fields_view(fields@) =~= self.wire_fields());
        fields
    }
}

impl UnifiedEvent for RaydiumAmmV4WithdrawPnlEvent {
    open spec fn envelope(&self) -> EventMetadata {
        self.metadata
    }

    open spec fn wire_fields(&self) -> Seq<(Seq<char>, FieldContent)> {
        seq![
            ("token_program"@, FieldContent::Id(self.token_program)),
            ("amm"@, FieldContent::Id(self.amm)),
            ("amm_config"@, FieldContent::Id(self.amm_config)),
            ("amm_authority"@, FieldContent::Id(self.amm_authority)),
            ("amm_open_orders"@, FieldContent::Id(self.amm_open_orders)),
            ("pool_coin_token_account"@, FieldContent::Id(self.pool_coin_token_account)),
            ("pool_pc_token_account"@, FieldContent::Id(self.pool_pc_token_account)),
            ("coin_pnl_token_account"@, FieldContent::Id(self.coin_pnl_token_account)),
            ("pc_pnl_token_account"@, FieldContent::Id(self.pc_pnl_token_account)),
            ("pnl_owner_account"@, FieldContent::Id(self.pnl_owner_account)),
            ("amm_target_orders"@, FieldContent::Id(self.amm_target_orders)),
            ("serum_program"@, FieldContent::Id(self.serum_program)),
            ("serum_market"@, FieldContent::Id(self.serum_market)),
            ("serum_event_queue"@, FieldContent::Id(self.serum_event_queue)),
            ("serum_coin_vault_account"@, FieldContent::Id(self.serum_coin_vault_account)),
            ("serum_pc_vault_account"@, FieldContent::Id(self.serum_pc_vault_account)),
            ("serum_vault_signer"@, FieldContent::Id(self.serum_vault_signer)),
        ]
    }

    fn apply_metadata(self, metadata: EventMetadata) -> (merged: Self)
        ensures
            merged == (RaydiumAmmV4WithdrawPnlEvent { metadata: metadata, ..self }),
    {
        let mut merged = self;
        merged.metadata = metadata;
        merged
    }

    fn mergeable_fields(&self) -> (fields: Vec<NamedField>) {
        let mut fields: Vec<NamedField> = Vec::new();
        fields.push(NamedField::new("token_program", FieldValue::Id(self.token_program)));
        fields.push(NamedField::new("amm", FieldValue::Id(self.amm)));
        fields.push(NamedField::new("amm_config", FieldValue::Id(self.amm_config)));
        fields.push(NamedField::new("amm_authority", FieldValue::Id(self.amm_authority)));
        fields.push(NamedField::new("amm_open_orders", FieldValue::Id(self.amm_open_orders)));
        fields.push(
            NamedField::new(
                "pool_coin_token_account",
                FieldValue::Id(self.pool_coin_token_account),
            ),
        );
        fields.push(
            NamedField::new("pool_pc_token_account", FieldValue::Id(self.pool_pc_token_account)),
        );
        fields.push(
            NamedField::new("coin_pnl_token_account", FieldValue::Id(self.coin_pnl_token_account)),
        );
        fields.push(
            NamedField::new("pc_pnl_token_account", FieldValue::Id(self.pc_pnl_token_account)),
        );
        fields.push(NamedField::new("pnl_owner_account", FieldValue::Id(self.pnl_owner_account)));
        fields.push(NamedField::new("amm_target_orders", FieldValue::Id(self.amm_target_orders)));
        fields.push(NamedField::new("serum_program", FieldValue::Id(self.serum_program)));
        fields.push(NamedField::new("serum_market", FieldValue::Id(self.serum_market)));
        fields.push(NamedField::new("serum_event_queue", FieldValue::Id(self.serum_event_queue)));
        fields.push(
            NamedField::new(
                "serum_coin_vault_account",
                FieldValue::Id(self.serum_coin_vault_account),
            ),
        );
        fields.push(
            NamedField::new("serum_pc_vault_account", FieldValue::Id(self.serum_pc_vault_account)),
        );
        fields.push(NamedField::new("serum_vault_signer", FieldValue::Id(self.serum_vault_signer)));
        assert(fields_view(fields@) =~= self.wire_fields());
        fields
    }
}

impl UnifiedEvent for RaydiumAmmV4AmmInfoAccountEvent {
    open spec fn envelope(&self) -> EventMetadata {
        self.metadata
    }

    open spec fn wire_fields(&self) -> Seq<(Seq<char>, FieldContent)> {
        seq![
            ("pubkey"@, FieldContent::Text(self.pubkey@)),
            ("executable"@, FieldContent::Flag(self.executable)),
            ("lamports"@, FieldContent::U64(self.lamports)),
            ("owner"@, FieldContent::Text(self.owner@)),
            ("rent_epoch"@, FieldContent::U64(self.rent_epoch)),
            ("amm_info"@, FieldContent::Bytes(self.amm_info@)),
        ]
    }

    fn apply_metadata(self, metadata: EventMetadata) -> (merged: Self)
        ensures
            merged == (RaydiumAmmV4AmmInfoAccountEvent { metadata: metadata, ..self }),
    {
        let mut merged = self;
        merged.metadata = metadata;
        merged
    }

    fn mergeable_fields(&self) -> (fields: Vec<NamedField>) {
        let mut fields: Vec<NamedField> = Vec::new();
        fields.push(NamedField::new("pubkey", FieldValue::Text(self.pubkey.clone())));
        fields.push(NamedField::new("executable", FieldValue::Flag(self.executable)));
        fields.push(NamedField::new("lamports", FieldValue::U64(self.lamports)));
        fields.push(NamedField::new("owner", FieldValue::Text(self.owner.clone())));
        fields.push(NamedField::new("rent_epoch", FieldValue::U64(self.rent_epoch)));
        fields.push(NamedField::new("amm_info", FieldValue::Bytes(copy_bytes(&self.amm_info))));
        assert(fields_view(fields@) =~= self.wire_fields());
        fields
    }
}

} // verus!
