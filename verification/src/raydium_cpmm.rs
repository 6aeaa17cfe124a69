//! Records of the Raydium CPMM program, and the trade that its swap
//! resolves to.

use crate::identifier::Identifier;
use crate::metadata::{EventMetadata, SwapData};
use crate::resolver::{resolve_trade, resolved_trade};
use crate::trade::{trade_view, TradeFact, TradeInfo};
use crate::unified::{
    copy_bytes, fields_view, CopyTradeableEvent, FieldContent, FieldValue, NamedField,
    UnifiedEvent,
};
use crate::wire::{has_prefix, starts_with, RecordCategory};
use vstd::prelude::*;

verus! {

/// Platform tag of the trades of this program.
pub const RAYDIUM_CPMM_PLATFORM: &'static str = "RaydiumCpmm";

/// A swap. The record names both of its assets.
#[derive(Clone, Debug, Default, PartialEq, Eq)]
pub struct RaydiumCpmmSwapEvent {
    pub metadata: EventMetadata,
    pub amount_in: u64,
    pub minimum_amount_out: u64,
    pub max_amount_in: u64,
    pub amount_out: u64,
    pub payer: Identifier,
    pub authority: Identifier,
    pub amm_config: Identifier,
    pub pool_state: Identifier,
    pub input_token_account: Identifier,
    pub output_token_account: Identifier,
    pub input_vault: Identifier,
    pub output_vault: Identifier,
    pub input_token_program: Identifier,
    pub output_token_program: Identifier,
    pub input_token_mint: Identifier,
    pub output_token_mint: Identifier,
    pub observation_state: Identifier,
}

impl RaydiumCpmmSwapEvent {
    /// The assets that the record names.
    pub open spec fn legs(&self) -> SwapData {
        SwapData { from_mint: self.input_token_mint, to_mint: self.output_token_mint }
    }

    /// The trade that this record resolves to.
    pub open spec fn trade(&self) -> Option<TradeFact> {
        resolved_trade(
            self.payer,
            Some(self.legs()),
            self.metadata,
            self.amount_in,
            self.amount_out,
            RAYDIUM_CPMM_PLATFORM@,
        )
    }

    /// Extract trade information with direction detection.
    pub fn get_trade_info(&self) -> (trade: Option<TradeInfo>)
        ensures
            trade_view(trade) == self.trade(),
    {
        let direct = Some(
            SwapData { from_mint: self.input_token_mint, to_mint: self.output_token_mint },
        );
        resolve_trade(
            &self.payer,
            &direct,
            &self.metadata,
            self.amount_in,
            self.amount_out,
            RAYDIUM_CPMM_PLATFORM,
        )
    }
}

impl CopyTradeableEvent for RaydiumCpmmSwapEvent {
    open spec fn trade_fact(&self) -> Option<TradeFact> {
        self.trade()
    }

    fn get_trade_info(&self) -> (trade: Option<TradeInfo>) {
        self.get_trade_info()
    }
}

/// A deposit of liquidity.
#[derive(Clone, Debug, Default, PartialEq, Eq)]
pub struct RaydiumCpmmDepositEvent {
    pub metadata: EventMetadata,
    pub lp_token_amount: u64,
    pub maximum_token0_amount: u64,
    pub maximum_token1_amount: u64,
    pub owner: Identifier,
    pub authority: Identifier,
    pub pool_state: Identifier,
    pub owner_lp_token: Identifier,
    pub token0_account: Identifier,
    pub token1_account: Identifier,
    pub token0_vault: Identifier,
    pub token1_vault: Identifier,
    pub token_program: Identifier,
    pub token_program2022: Identifier,
    pub vault0_mint: Identifier,
    pub vault1_mint: Identifier,
    pub lp_mint: Identifier,
}

/// The initialization of a pool.
#[derive(Clone, Debug, Default, PartialEq, Eq)]
pub struct RaydiumCpmmInitializeEvent {
    pub metadata: EventMetadata,
    pub init_amount0: u64,
    pub init_amount1: u64,
    pub open_time: u64,
    pub creator: Identifier,
    pub amm_config: Identifier,
    pub authority: Identifier,
    pub pool_state: Identifier,
    pub token0_mint: Identifier,
    pub token1_mint: Identifier,
    pub lp_mint: Identifier,
    pub creator_token0: Identifier,
    pub creator_token1: Identifier,
    pub creator_lp_token: Identifier,
    pub token0_vault: Identifier,
    pub token1_vault: Identifier,
    pub create_pool_fee: Identifier,
    pub observation_state: Identifier,
    pub token_program: Identifier,
    pub token0_program: Identifier,
    pub token1_program: Identifier,
    pub associated_token_program: Identifier,
    pub system_program: Identifier,
    pub rent: Identifier,
}

/// A withdrawal of liquidity.
#[derive(Clone, Debug, Default, PartialEq, Eq)]
pub struct RaydiumCpmmWithdrawEvent {
    pub metadata: EventMetadata,
    pub lp_token_amount: u64,
    pub minimum_token0_amount: u64,
    pub minimum_token1_amount: u64,
    pub owner: Identifier,
    pub authority: Identifier,
    pub pool_state: Identifier,
    pub owner_lp_token: Identifier,
    pub token0_account: Identifier,
    pub token1_account: Identifier,
    pub token0_vault: Identifier,
    pub token1_vault: Identifier,
    pub token_program: Identifier,
    pub token_program2022: Identifier,
    pub vault0_mint: Identifier,
    pub vault1_mint: Identifier,
    pub lp_mint: Identifier,
    pub memo_program: Identifier,
}

/// Snapshot of a pool configuration account. The account's own data is
/// carried as it was read.
#[derive(Clone, Debug, Default, PartialEq, Eq)]
pub struct RaydiumCpmmAmmConfigAccountEvent {
    pub metadata: EventMetadata,
    pub pubkey: Identifier,
    pub executable: bool,
    pub lamports: u64,
    pub owner: Identifier,
    pub rent_epoch: u64,
    pub amm_config: Vec<u8>,
}

/// Snapshot of a pool state account. The account's own data is carried as
/// it was read.
#[derive(Clone, Debug, Default, PartialEq, Eq)]
pub struct RaydiumCpmmPoolStateAccountEvent {
    pub metadata: EventMetadata,
    pub pubkey: Identifier,
    pub executable: bool,
    pub lamports: u64,
    pub owner: Identifier,
    pub rent_epoch: u64,
    pub pool_state: Vec<u8>,
}

/// Prefix of a swap instruction with a fixed input.
pub const SWAP_BASE_IN: [u8; 8] = [143, 190, 90, 218, 196, 30, 51, 222];

/// Prefix of a swap instruction with a fixed output.
pub const SWAP_BASE_OUT: [u8; 8] = [55, 217, 98, 86, 163, 74, 180, 173];

/// Prefix of a deposit instruction.
pub const DEPOSIT: [u8; 8] = [242, 35, 198, 137, 82, 225, 242, 182];

/// Prefix of an initialize instruction.
pub const INITIALIZE: [u8; 8] = [175, 175, 109, 31, 13, 152, 155, 237];

/// Prefix of a withdraw instruction.
pub const WITHDRAW: [u8; 8] = [183, 18, 70, 156, 148, 109, 161, 34];

/// Prefix of a pool configuration account.
pub const AMM_CONFIG: [u8; 8] = [218, 244, 33, 104, 203, 203, 43, 111];

/// Prefix of a pool state account.
pub const POOL_STATE: [u8; 8] = [247, 237, 227, 245, 215, 195, 222, 70];

/// The kinds of record of this program.
#[derive(Clone, Copy, Debug, PartialEq, Eq, Structural)]
pub enum RaydiumCpmmRecordKind {
    SwapBaseIn,
    SwapBaseOut,
    Deposit,
    Initialize,
    Withdraw,
    AmmConfig,
    PoolState,
}

/// The prefix that marks a kind of record in a category, where the
/// category has such records.
pub open spec fn discriminator(category: RecordCategory, kind: RaydiumCpmmRecordKind) -> Option<
    Seq<u8>,
> {
    match (category, kind) {
        (RecordCategory::Instruction, RaydiumCpmmRecordKind::SwapBaseIn) => Some(SWAP_BASE_IN@),
        (RecordCategory::Instruction, RaydiumCpmmRecordKind::SwapBaseOut) => Some(SWAP_BASE_OUT@),
        (RecordCategory::Instruction, RaydiumCpmmRecordKind::Deposit) => Some(DEPOSIT@),
        (RecordCategory::Instruction, RaydiumCpmmRecordKind::Initialize) => Some(INITIALIZE@),
        (RecordCategory::Instruction, RaydiumCpmmRecordKind::Withdraw) => Some(WITHDRAW@),
        (RecordCategory::Account, RaydiumCpmmRecordKind::AmmConfig) => Some(AMM_CONFIG@),
        (RecordCategory::Account, RaydiumCpmmRecordKind::PoolState) => Some(POOL_STATE@),
        _ => None,
    }
}

/// Whether `data` is a record of the given kind in the given category: it
/// begins with exactly that kind's prefix.
pub open spec fn is_kind(
    data: Seq<u8>,
    category: RecordCategory,
    kind: RaydiumCpmmRecordKind,
) -> bool {
    match discriminator(category, kind) {
        Some(prefix) => has_prefix(data, prefix),
        None => false,
    }
}

/// Within one category no two kinds share a prefix.
pub proof fn lemma_discriminators_unique(
    category: RecordCategory,
    a: RaydiumCpmmRecordKind,
    b: RaydiumCpmmRecordKind,
)
    requires
        a != b,
        discriminator(category, a) is Some,
        discriminator(category, b) is Some,
    ensures
        discriminator(category, a) != discriminator(category, b),
{
    assert(SWAP_BASE_IN@[0] == 143);
    assert(SWAP_BASE_OUT@[0] == 55);
    assert(DEPOSIT@[0] == 242);
    assert(INITIALIZE@[0] == 175);
    assert(WITHDRAW@[0] == 183);
    assert(AMM_CONFIG@[0] == 218);
    assert(POOL_STATE@[0] == 247);
}

/// Bytes match at most one kind of a category.
pub proof fn lemma_kind_is_unambiguous(
    data: Seq<u8>,
    category: RecordCategory,
    a: RaydiumCpmmRecordKind,
    b: RaydiumCpmmRecordKind,
)
    requires
        is_kind(data, category, a),
        is_kind(data, category, b),
    ensures
        a == b,
{
    if a != b {
        lemma_discriminators_unique(category, a, b);
        let first = discriminator(category, a)->Some_0;
        let second = discriminator(category, b)->Some_0;
        assert(first.len() == second.len());
        assert(first =~= data.subrange(0, first.len() as int));
    }
}

/// Tells which kind of record `data` is by its prefix. Bytes with no known
/// prefix are no error: they are not a record of this program.
pub fn identify(data: &[u8], category: RecordCategory) -> (kind: Option<RaydiumCpmmRecordKind>)
    ensures
        kind matches Some(found) ==> is_kind(data@, category, found),
        kind is None ==> forall|any: RaydiumCpmmRecordKind| !is_kind(data@, category, any),
{
    match category {
        RecordCategory::Log => None,
        RecordCategory::Instruction => {
            if starts_with(data, SWAP_BASE_IN.as_slice()) {
                Some(RaydiumCpmmRecordKind::SwapBaseIn)
            } else if starts_with(data, SWAP_BASE_OUT.as_slice()) {
                Some(RaydiumCpmmRecordKind::SwapBaseOut)
            } else if starts_with(data, DEPOSIT.as_slice()) {
                Some(RaydiumCpmmRecordKind::Deposit)
            } else if starts_with(data, INITIALIZE.as_slice()) {
                Some(RaydiumCpmmRecordKind::Initialize)
            } else if starts_with(data, WITHDRAW.as_slice()) {
                Some(RaydiumCpmmRecordKind::Withdraw)
            } else {
                None
            }
        },
        RecordCategory::Account => {
            if starts_with(data, AMM_CONFIG.as_slice()) {
                Some(RaydiumCpmmRecordKind::AmmConfig)
            } else if starts_with(data, POOL_STATE.as_slice()) {
                Some(RaydiumCpmmRecordKind::PoolState)
            } else {
                None
            }
        },
    }
}

impl UnifiedEvent for RaydiumCpmmSwapEvent {
    open spec fn envelope(&self) -> EventMetadata {
        self.metadata
    }

    open spec fn wire_fields(&self) -> Seq<(Seq<char>, FieldContent)> {
        seq![
            ("amount_in"@, FieldContent::U64(self.amount_in)),
            ("minimum_amount_out"@, FieldContent::U64(self.minimum_amount_out)),
            ("max_amount_in"@, FieldContent::U64(self.max_amount_in)),
            ("amount_out"@, FieldContent::U64(self.amount_out)),
            ("payer"@, FieldContent::Id(self.payer)),
            ("authority"@, FieldContent::Id(self.authority)),
            ("amm_config"@, FieldContent::Id(self.amm_config)),
            ("pool_state"@, FieldContent::Id(self.pool_state)),
            ("input_token_account"@, FieldContent::Id(self.input_token_account)),
            ("output_token_account"@, FieldContent::Id(self.output_token_account)),
            ("input_vault"@, FieldContent::Id(self.input_vault)),
            ("output_vault"@, FieldContent::Id(self.output_vault)),
            ("input_token_program"@, FieldContent::Id(self.input_token_program)),
            ("output_token_program"@, FieldContent::Id(self.output_token_program)),
            ("input_token_mint"@, FieldContent::Id(self.input_token_mint)),
            ("output_token_mint"@, FieldContent::Id(self.output_token_mint)),
            ("observation_state"@, FieldContent::Id(self.observation_state)),
        ]
    }

    fn apply_metadata(self, metadata: EventMetadata) -> (merged: Self)
        ensures
            merged == (RaydiumCpmmSwapEvent { metadata: metadata, ..self }),
    {
        let mut merged = self;
        merged.metadata = metadata;
        merged
    }

    fn mergeable_fields(&self) -> (fields: Vec<NamedField>) {
        let mut fields: Vec<NamedField> = Vec::new();
        fields.push(NamedField::new("amount_in", FieldValue::U64(self.amount_in)));
        fields.push(
            NamedField::new("minimum_amount_out", FieldValue::U64(self.minimum_amount_out)),
        );
        fields.push(NamedField::new("max_amount_in", FieldValue::U64(self.max_amount_in)));
        fields.push(NamedField::new("amount_out", FieldValue::U64(self.amount_out)));
        fields.push(NamedField::new("payer", FieldValue::Id(self.payer)));
        fields.push(NamedField::new("authority", FieldValue::Id(self.authority)));
        fields.push(NamedField::new("amm_config", FieldValue::Id(self.amm_config)));
        fields.push(NamedField::new("pool_state", FieldValue::Id(self.pool_state)));
        fields.push(
            NamedField::new("input_token_account", FieldValue::Id(self.input_token_account)),
        );
        fields.push(
            NamedField::new("output_token_account", FieldValue::Id(self.output_token_account)),
        );
        fields.push(NamedField::new("input_vault", FieldValue::Id(self.input_vault)));
        fields.push(NamedField::new("output_vault", FieldValue::Id(self.output_vault)));
        fields.push(
            NamedField::new("input_token_program", FieldValue::Id(self.input_token_program)),
        );
        fields.push(
            NamedField::new("output_token_program", FieldValue::Id(self.output_token_program)),
        );
        fields.push(NamedField::new("input_token_mint", FieldValue::Id(self.input_token_mint)));
        fields.push(NamedField::new("output_token_mint", FieldValue::Id(self.output_token_mint)));
        fields.push(NamedField::new("observation_state", FieldValue::Id(self.observation_state)));
        assert(fields_view(fields@) =~= self.wire_fields());
        fields
    }
}

impl UnifiedEvent for RaydiumCpmmDepositEvent {
    open spec fn envelope(&self) -> EventMetadata {
        self.metadata
    }

    open spec fn wire_fields(&self) -> Seq<(Seq<char>, FieldContent)> {
        seq![
            ("lp_token_amount"@, FieldContent::U64(self.lp_token_amount)),
            ("maximum_token0_amount"@, FieldContent::U64(self.maximum_token0_amount)),
            ("maximum_token1_amount"@, FieldContent::U64(self.maximum_token1_amount)),
            ("owner"@, FieldContent::Id(self.owner)),
            ("authority"@, FieldContent::Id(self.authority)),
            ("pool_state"@, FieldContent::Id(self.pool_state)),
            ("owner_lp_token"@, FieldContent::Id(self.owner_lp_token)),
            ("token0_account"@, FieldContent::Id(self.token0_account)),
            ("token1_account"@, FieldContent::Id(self.token1_account)),
            ("token0_vault"@, FieldContent::Id(self.token0_vault)),
            ("token1_vault"@, FieldContent::Id(self.token1_vault)),
            ("token_program"@, FieldContent::Id(self.token_program)),
            ("token_program2022"@, FieldContent::Id(self.token_program2022)),
            ("vault0_mint"@, FieldContent::Id(self.vault0_mint)),
            ("vault1_mint"@, FieldContent::Id(self.vault1_mint)),
            ("lp_mint"@, FieldContent::Id(self.lp_mint)),
        ]
    }

    fn apply_metadata(self, metadata: EventMetadata) -> (merged: Self)
        ensures
            merged == (RaydiumCpmmDepositEvent { metadata: metadata, ..self }),
    {
        let mut merged = self;
        merged.metadata = metadata;
        merged
    }

    fn mergeable_fields(&self) -> (fields: Vec<NamedField>) {
        let mut fields: Vec<NamedField> = Vec::new();
        fields.push(NamedField::new("lp_token_amount", FieldValue::U64(self.lp_token_amount)));
        fields.push(
            NamedField::new("maximum_token0_amount", FieldValue::U64(self.maximum_token0_amount)),
        );
        fields.push(
            NamedField::new("maximum_token1_amount", FieldValue::U64(self.maximum_token1_amount)),
        );
        fields.push(NamedField::new("owner", FieldValue::Id(self.owner)));
        fields.push(NamedField::new("authority", FieldValue::Id(self.authority)));
        fields.push(NamedField::new("pool_state", FieldValue::Id(self.pool_state)));
        fields.push(NamedField::new("owner_lp_token", FieldValue::Id(self.owner_lp_token)));
        fields.push(NamedField::new("token0_account", FieldValue::Id(self.token0_account)));
        fields.push(NamedField::new("token1_account", FieldValue::Id(self.token1_account)));
        fields.push(NamedField::new("token0_vault", FieldValue::Id(self.token0_vault)));
        fields.push(NamedField::new("token1_vault", FieldValue::Id(self.token1_vault)));
        fields.push(NamedField::new("token_program", FieldValue::Id(self.token_program)));
        fields.push(NamedField::new("token_program2022", FieldValue::Id(self.token_program2022)));
        fields.push(NamedField::new("vault0_mint", FieldValue::Id(self.vault0_mint)));
        fields.push(NamedField::new("vault1_mint", FieldValue::Id(self.vault1_mint)));
        fields.push(NamedField::new("lp_mint", FieldValue::Id(self.lp_mint)));
        assert(fields_view(fields@) =~= self.wire_fields());
        fields
    }
}

impl UnifiedEvent for RaydiumCpmmInitializeEvent {
    open spec fn envelope(&self) -> EventMetadata {
        self.metadata
    }

    open spec fn wire_fields(&self) -> Seq<(Seq<char>, FieldContent)> {
        seq![
            ("init_amount0"@, FieldContent::U64(self.init_amount0)),
            ("init_amount1"@, FieldContent::U64(self.init_amount1)),
            ("open_time"@, FieldContent::U64(self.open_time)),
            ("creator"@, FieldContent::Id(self.creator)),
            ("amm_config"@, FieldContent::Id(self.amm_config)),
            ("authority"@, FieldContent::Id(self.authority)),
            ("pool_state"@, FieldContent::Id(self.pool_state)),
            ("token0_mint"@, FieldContent::Id(self.token0_mint)),
            ("token1_mint"@, FieldContent::Id(self.token1_mint)),
            ("lp_mint"@, FieldContent::Id(self.lp_mint)),
            ("creator_token0"@, FieldContent::Id(self.creator_token0)),
            ("creator_token1"@, FieldContent::Id(self.creator_token1)),
            ("creator_lp_token"@, FieldContent::Id(self.creator_lp_token)),
            ("token0_vault"@, FieldContent::Id(self.token0_vault)),
            ("token1_vault"@, FieldContent::Id(self.token1_vault)),
            ("create_pool_fee"@, FieldContent::Id(self.create_pool_fee)),
            ("observation_state"@, FieldContent::Id(self.observation_state)),
            ("token_program"@, FieldContent::Id(self.token_program)),
            ("token0_program"@, FieldContent::Id(self.token0_program)),
            ("token1_program"@, FieldContent::Id(self.token1_program)),
            ("associated_token_program"@, FieldContent::Id(self.associated_token_program)),
            ("system_program"@, FieldContent::Id(self.system_program)),
            ("rent"@, FieldContent::Id(self.rent)),
        ]
    }

    fn apply_metadata(self, metadata: EventMetadata) -> (merged: Self)
        ensures
            merged == (RaydiumCpmmInitializeEvent { metadata: metadata, ..self }),
    {
        let mut merged = self;
        merged.metadata = metadata;
        merged
    }

    fn mergeable_fields(&self) -> (fields: Vec<NamedField>) {
        let mut fields: Vec<NamedField> = Vec::new();
        fields.push(NamedField::new("init_amount0", FieldValue::U64(self.init_amount0)));
        fields.push(NamedField::new("init_amount1", FieldValue::U64(self.init_amount1)));
        fields.push(NamedField::new("open_time", FieldValue::U64(self.open_time)));
        fields.push(NamedField::new("creator", FieldValue::Id(self.creator)));
        fields.push(NamedField::new("amm_config", FieldValue::Id(self.amm_config)));
        fields.push(NamedField::new("authority", FieldValue::Id(self.authority)));
        fields.push(NamedField::new("pool_state", FieldValue::Id(self.pool_state)));
        fields.push(NamedField::new("token0_mint", FieldValue::Id(self.token0_mint)));
        fields.push(NamedField::new("token1_mint", FieldValue::Id(self.token1_mint)));
        fields.push(NamedField::new("lp_mint", FieldValue::Id(self.lp_mint)));
        fields.push(NamedField::new("creator_token0", FieldValue::Id(self.creator_token0)));
        fields.push(NamedField::new("creator_token1", FieldValue::Id(self.creator_token1)));
        fields.push(NamedField::new("creator_lp_token", FieldValue::Id(self.creator_lp_token)));
        fields.push(NamedField::new("token0_vault", FieldValue::Id(self.token0_vault)));
        fields.push(NamedField::new("token1_vault", FieldValue::Id(self.token1_vault)));
        fields.push(NamedField::new("create_pool_fee", FieldValue::Id(self.create_pool_fee)));
        fields.push(NamedField::new("observation_state", FieldValue::Id(self.observation_state)));
        fields.push(NamedField::new("token_program", FieldValue::Id(self.token_program)));
        fields.push(NamedField::new("token0_program", FieldValue::Id(self.token0_program)));
        fields.push(NamedField::new("token1_program", FieldValue::Id(self.token1_program)));
        fields.push(
            NamedField::new(
                "associated_token_program",
                FieldValue::Id(self.associated_token_program),
            ),
        );
        fields.push(NamedField::new("system_program", FieldValue::Id(self.system_program)));
        fields.push(NamedField::new("rent", FieldValue::Id(self.rent)));
        assert(fields_view(fields@) =~= self.wire_fields());
        fields
    }
}

impl UnifiedEvent for RaydiumCpmmWithdrawEvent {
    open spec fn envelope(&self) -> EventMetadata {
        self.metadata
    }

    open spec fn wire_fields(&self) -> Seq<(Seq<char>, FieldContent)> {
        seq![
            ("lp_token_amount"@, FieldContent::U64(self.lp_token_amount)),
            ("minimum_token0_amount"@, FieldContent::U64(self.minimum_token0_amount)),
            ("minimum_token1_amount"@, FieldContent::U64(self.minimum_token1_amount)),
            ("owner"@, FieldContent::Id(self.owner)),
            ("authority"@, FieldContent::Id(self.authority)),
            ("pool_state"@, FieldContent::Id(self.pool_state)),
            ("owner_lp_token"@, FieldContent::Id(self.owner_lp_token)),
            ("token0_account"@, FieldContent::Id(self.token0_account)),
            ("token1_account"@, FieldContent::Id(self.token1_account)),
            ("token0_vault"@, FieldContent::Id(self.token0_vault)),
            ("token1_vault"@, FieldContent::Id(self.token1_vault)),
            ("token_program"@, FieldContent::Id(self.token_program)),
            ("token_program2022"@, FieldContent::Id(self.token_program2022)),
            ("vault0_mint"@, FieldContent::Id(self.vault0_mint)),
            ("vault1_mint"@, FieldContent::Id(self.vault1_mint)),
            ("lp_mint"@, FieldContent::Id(self.lp_mint)),
            ("memo_program"@, FieldContent::Id(self.memo_program)),
        ]
    }

    fn apply_metadata(self, metadata: EventMetadata) -> (merged: Self)
        ensures
            merged == (RaydiumCpmmWithdrawEvent { metadata: metadata, ..self }),
    {
        let mut merged = self;
        merged.metadata = metadata;
        merged
    }

    fn mergeable_fields(&self) -> (fields: Vec<NamedField>) {
        let mut fields: Vec<NamedField> = Vec::new();
        fields.push(NamedField::new("lp_token_amount", FieldValue::U64(self.lp_token_amount)));
        fields.push(
            NamedField::new("minimum_token0_amount", FieldValue::U64(self.minimum_token0_amount)),
        );
        fields.push(
            NamedField::new("minimum_token1_amount", FieldValue::U64(self.minimum_token1_amount)),
        );
        fields.push(NamedField::new("owner", FieldValue::Id(self.owner)));
        fields.push(NamedField::new("authority", FieldValue::Id(self.authority)));
        fields.push(NamedField::new("pool_state", FieldValue::Id(self.pool_state)));
        fields.push(NamedField::new("owner_lp_token", FieldValue::Id(self.owner_lp_token)));
        fields.push(NamedField::new("token0_account", FieldValue::Id(self.token0_account)));
        fields.push(NamedField::new("token1_account", FieldValue::Id(self.token1_account)));
        fields.push(NamedField::new("token0_vault", FieldValue::Id(self.token0_vault)));
        fields.push(NamedField::new("token1_vault", FieldValue::Id(self.token1_vault)));
        fields.push(NamedField::new("token_program", FieldValue::Id(self.token_program)));
        fields.push(NamedField::new("token_program2022", FieldValue::Id(self.token_program2022)));
        fields.push(NamedField::new("vault0_mint", FieldValue::Id(self.vault0_mint)));
        fields.push(NamedField::new("vault1_mint", FieldValue::Id(self.vault1_mint)));
        fields.push(NamedField::new("lp_mint", FieldValue::Id(self.lp_mint)));
        fields.push(NamedField::new("memo_program", FieldValue::Id(self.memo_program)));
        assert(fields_view(fields@) =~= self.wire_fields());
        fields
    }
}

impl UnifiedEvent for RaydiumCpmmAmmConfigAccountEvent {
    open spec fn envelope(&self) -> EventMetadata {
        self.metadata
    }

    open spec fn wire_fields(&self) -> Seq<(Seq<char>, FieldContent)> {
        seq![
            ("pubkey"@, FieldContent::Id(self.pubkey)),
            ("executable"@, FieldContent::Flag(self.executable)),
            ("lamports"@, FieldContent::U64(self.lamports)),
            ("owner"@, FieldContent::Id(self.owner)),
            ("rent_epoch"@, FieldContent::U64(self.rent_epoch)),
            ("amm_config"@, FieldContent::Bytes(self.amm_config@)),
        ]
    }

    fn apply_metadata(self, metadata: EventMetadata) -> (merged: Self)
        ensures
            merged == (RaydiumCpmmAmmConfigAccountEvent { metadata: metadata, ..self }),
    {
        let mut merged = self;
        merged.metadata = metadata;
        merged
    }

    fn mergeable_fields(&self) -> (fields: Vec<NamedField>) {
        let mut fields: Vec<NamedField> = Vec::new();
        fields.push(NamedField::new("pubkey", FieldValue::Id(self.pubkey)));
        fields.push(NamedField::new("executable", FieldValue::Flag(self.executable)));
        fields.push(NamedField::new("lamports", FieldValue::U64(self.lamports)));
        fields.push(NamedField::new("owner", FieldValue::Id(self.owner)));
        fields.push(NamedField::new("rent_epoch", FieldValue::U64(self.rent_epoch)));
        fields.push(NamedField::new("amm_config", FieldValue::Bytes(copy_bytes(&self.amm_config))));
        assert(fields_view(fields@) =~= self.wire_fields());
        fields
    }
}

impl UnifiedEvent for RaydiumCpmmPoolStateAccountEvent {
    open spec fn envelope(&self) -> EventMetadata {
        self.metadata
    }

    open spec fn wire_fields(&self) -> Seq<(Seq<char>, FieldContent)> {
        seq![
            ("pubkey"@, FieldContent::Id(self.pubkey)),
            ("executable"@, FieldContent::Flag(self.executable)),
            ("lamports"@, FieldContent::U64(self.lamports)),
            ("owner"@, FieldContent::Id(self.owner)),
            ("rent_epoch"@, FieldContent::U64(self.rent_epoch)),
            ("pool_state"@, FieldContent::Bytes(self.pool_state@)),
        ]
    }

    fn apply_metadata(self, metadata: EventMetadata) -> (merged: Self)
        ensures
            merged == (RaydiumCpmmPoolStateAccountEvent { metadata: metadata, ..self }),
    {
        let mut merged = self;
        merged.metadata = metadata;
        merged
    }

    fn mergeable_fields(&self) -> (fields: Vec<NamedField>) {
        let mut fields: Vec<NamedField> = Vec::new();
        fields.push(NamedField::new("pubkey", FieldValue::Id(self.pubkey)));
        fields.push(NamedField::new("executable", FieldValue::Flag(self.executable)));
        fields.push(NamedField::new("lamports", FieldValue::U64(self.lamports)));
        fields.push(NamedField::new("owner", FieldValue::Id(self.owner)));
        fields.push(NamedField::new("rent_epoch", FieldValue::U64(self.rent_epoch)));
        fields.push(NamedField::new("pool_state", FieldValue::Bytes(copy_bytes(&self.pool_state))));
        assert(fields_view(fields@) =~= self.wire_fields());
        fields
    }
}

} // verus!
