//! Records of the PumpSwap program: its log events and account
//! snapshots, their wire layouts, and the trades that its buy and sell
//! events resolve to.

use crate::identifier::{base58_text, reference_asset, zero_bytes, Identifier};
use crate::metadata::{EventMetadata, SwapData};
use crate::resolver::{balance_trade, named_trade, resolve_trade};
use crate::trade::{trade_view, TradeFact, TradeInfo};
use crate::unified::{
    copy_bytes, fields_view, CopyTradeableEvent, FieldContent, FieldValue, NamedField,
    UnifiedEvent,
};
use crate::wire::{
    flag_of, has_prefix, le_i64, le_u16, le_u64, lemma_span_within, read_flag, read_i64,
    read_identifier, read_u16, read_u64, read_u8, span, starts_with, RecordCategory,
};
use vstd::prelude::*;
use vstd::slice::slice_subrange;

verus! {

/// Platform tag of the trades of this program.
pub const PUMP_SWAP_PLATFORM: &'static str = "PumpSwap";

/// Log event of a buy: base tokens bought for quote tokens.
#[derive(Clone, Debug, Default, PartialEq, Eq)]
pub struct PumpSwapBuyEvent {
    pub metadata: EventMetadata,
    pub timestamp: i64,
    pub base_amount_out: u64,
    pub max_quote_amount_in: u64,
    pub user_base_token_reserves: u64,
    pub user_quote_token_reserves: u64,
    pub pool_base_token_reserves: u64,
    pub pool_quote_token_reserves: u64,
    pub quote_amount_in: u64,
    pub lp_fee_basis_points: u64,
    pub lp_fee: u64,
    pub protocol_fee_basis_points: u64,
    pub protocol_fee: u64,
    pub quote_amount_in_with_lp_fee: u64,
    pub user_quote_amount_in: u64,
    pub pool: Identifier,
    pub user: Identifier,
    pub user_base_token_account: Identifier,
    pub user_quote_token_account: Identifier,
    pub protocol_fee_recipient: Identifier,
    pub protocol_fee_recipient_token_account: Identifier,
    pub coin_creator: Identifier,
    pub coin_creator_fee_basis_points: u64,
    pub coin_creator_fee: u64,
    pub track_volume: bool,
    pub total_unclaimed_tokens: u64,
    pub total_claimed_tokens: u64,
    pub current_sol_volume: u64,
    pub last_update_timestamp: i64,
    pub base_mint: Identifier,
    pub quote_mint: Identifier,
    pub coin_creator_vault_ata: Identifier,
    pub coin_creator_vault_authority: Identifier,
    pub fee_config: Identifier,
    pub fee_program: Identifier,
}

/// Length in bytes of a buy event on the wire.
pub const PUMP_SWAP_BUY_EVENT_LOG_SIZE: usize = 385;

impl PumpSwapBuyEvent {
    /// Whether this record is what the decoder makes of `data`: each wire
    /// field holds the value at its offset, each field that the wire format
    /// lacks is zero, and the metadata is blank.
    pub open spec fn decoded_from(&self, data: Seq<u8>) -> bool {
        &&& self.metadata.is_blank()
        &&& self.timestamp == le_i64(data, 0)
        &&& self.base_amount_out == le_u64(data, 8)
        &&& self.max_quote_amount_in == le_u64(data, 16)
        &&& self.user_base_token_reserves == le_u64(data, 24)
        &&& self.user_quote_token_reserves == le_u64(data, 32)
        &&& self.pool_base_token_reserves == le_u64(data, 40)
        &&& self.pool_quote_token_reserves == le_u64(data, 48)
        &&& self.quote_amount_in == le_u64(data, 56)
        &&& self.lp_fee_basis_points == le_u64(data, 64)
        &&& self.lp_fee == le_u64(data, 72)
        &&& self.protocol_fee_basis_points == le_u64(data, 80)
        &&& self.protocol_fee == le_u64(data, 88)
        &&& self.quote_amount_in_with_lp_fee == le_u64(data, 96)
        &&& self.user_quote_amount_in == le_u64(data, 104)
        &&& self.pool@ == span(data, 112, 32)
        &&& self.user@ == span(data, 144, 32)
        &&& self.user_base_token_account@ == span(data, 176, 32)
        &&& self.user_quote_token_account@ == span(data, 208, 32)
        &&& self.protocol_fee_recipient@ == span(data, 240, 32)
        &&& self.protocol_fee_recipient_token_account@ == span(data, 272, 32)
        &&& self.coin_creator@ == span(data, 304, 32)
        &&& self.coin_creator_fee_basis_points == le_u64(data, 336)
        &&& self.coin_creator_fee == le_u64(data, 344)
        &&& flag_of(data[352]) == Some(self.track_volume)
        &&& self.total_unclaimed_tokens == le_u64(data, 353)
        &&& self.total_claimed_tokens == le_u64(data, 361)
        &&& self.current_sol_volume == le_u64(data, 369)
        &&& self.last_update_timestamp == le_i64(data, 377)
        &&& self.base_mint@ == zero_bytes()
        &&& self.quote_mint@ == zero_bytes()
        &&& self.coin_creator_vault_ata@ == zero_bytes()
        &&& self.coin_creator_vault_authority@ == zero_bytes()
        &&& self.fee_config@ == zero_bytes()
        &&& self.fee_program@ == zero_bytes()
    }

    /// The assets that the record itself holds: the quote asset is paid,
    /// the base asset is received. Neither is on the wire; both are zero
    /// until they are filled in.
    pub open spec fn legs(&self) -> SwapData {
        SwapData { from_mint: self.quote_mint, to_mint: self.base_mint }
    }

    /// The assets that decide whether the record is a trade: those that
    /// the metadata names, and the record's own only where the metadata
    /// names none.
    pub open spec fn named_assets(&self) -> SwapData {
        match self.metadata.swap_data {
            Some(context) => context,
            None => self.legs(),
        }
    }

    /// The trade that this record resolves to: the trade between the
    /// assets that decide, where they qualify, and else the trade that the
    /// balance changes of the user show.
    pub open spec fn trade(&self) -> Option<TradeFact> {
        let user = base58_text(self.user@);
        let by_assets = named_trade(
            user,
            Some(self.named_assets()),
            self.user_quote_amount_in,
            self.base_amount_out,
            PUMP_SWAP_PLATFORM@,
        );
        if by_assets is Some {
            by_assets
        } else {
            balance_trade(user, self.metadata, PUMP_SWAP_PLATFORM@)
        }
    }

    /// Extract trade information with direction detection.
    pub fn get_trade_info(&self) -> (trade: Option<TradeInfo>)
        ensures
            trade_view(trade) == self.trade(),
    {
        let direct = if self.metadata.swap_data.is_some() {
            None
        } else {
            Some(SwapData { from_mint: self.quote_mint, to_mint: self.base_mint })
        };
        resolve_trade(
            &self.user,
            &direct,
            &self.metadata,
            self.user_quote_amount_in,
            self.base_amount_out,
            PUMP_SWAP_PLATFORM,
        )
    }
}

/// Where the metadata of a buy event names the assets of the swap, the
/// record's own asset fields have no say in the trade.
pub proof fn lemma_buy_context_comes_first(event: PumpSwapBuyEvent, other: PumpSwapBuyEvent)
    requires
        event.metadata.swap_data is Some,
        other == (PumpSwapBuyEvent {
            base_mint: other.base_mint,
            quote_mint: other.quote_mint,
            ..event
        }),
    ensures
        event.trade() == other.trade(),
{
}

/// Where both assets that decide are the reference asset, a buy event is
/// no trade by its assets, and resolves as the balance changes of its
/// user do.
pub proof fn lemma_buy_reference_on_both_sides_falls_through(event: PumpSwapBuyEvent)
    requires
        base58_text(event.named_assets().from_mint@) == reference_asset(),
        base58_text(event.named_assets().to_mint@) == reference_asset(),
    ensures
        event.trade() == balance_trade(
            base58_text(event.user@),
            event.metadata,
            PUMP_SWAP_PLATFORM@,
        ),
{
}

/// Decodes a buy event from the first `PUMP_SWAP_BUY_EVENT_LOG_SIZE` bytes of
/// `data`. Bytes after them are ignored.
pub fn pump_swap_buy_event_log_decode(data: &[u8]) -> (event: Option<PumpSwapBuyEvent>)
    ensures
        data@.len() < PUMP_SWAP_BUY_EVENT_LOG_SIZE ==> event is None,
        data@.len() >= PUMP_SWAP_BUY_EVENT_LOG_SIZE ==> (event is Some
            <==> flag_of(data@[352]) is Some),
        event matches Some(decoded) ==> decoded.decoded_from(data@),
{
    if data.len() < PUMP_SWAP_BUY_EVENT_LOG_SIZE {
        return None;
    }
    let timestamp = read_i64(data, 0)?;
    let base_amount_out = read_u64(data, 8)?;
    let max_quote_amount_in = read_u64(data, 16)?;
    let user_base_token_reserves = read_u64(data, 24)?;
    let user_quote_token_reserves = read_u64(data, 32)?;
    let pool_base_token_reserves = read_u64(data, 40)?;
    let pool_quote_token_reserves = read_u64(data, 48)?;
    let quote_amount_in = read_u64(data, 56)?;
    let lp_fee_basis_points = read_u64(data, 64)?;
    let lp_fee = read_u64(data, 72)?;
    let protocol_fee_basis_points = read_u64(data, 80)?;
    let protocol_fee = read_u64(data, 88)?;
    let quote_amount_in_with_lp_fee = read_u64(data, 96)?;
    let user_quote_amount_in = read_u64(data, 104)?;
    let pool = read_identifier(data, 112)?;
    let user = read_identifier(data, 144)?;
    let user_base_token_account = read_identifier(data, 176)?;
    let user_quote_token_account = read_identifier(data, 208)?;
    let protocol_fee_recipient = read_identifier(data, 240)?;
    let protocol_fee_recipient_token_account = read_identifier(data, 272)?;
    let coin_creator = read_identifier(data, 304)?;
    let coin_creator_fee_basis_points = read_u64(data, 336)?;
    let coin_creator_fee = read_u64(data, 344)?;
    let track_volume = read_flag(data, 352)?;
    let total_unclaimed_tokens = read_u64(data, 353)?;
    let total_claimed_tokens = read_u64(data, 361)?;
    let current_sol_volume = read_u64(data, 369)?;
    let last_update_timestamp = read_i64(data, 377)?;
    Some(
        PumpSwapBuyEvent {
            metadata: EventMetadata::blank(),
            timestamp,
            base_amount_out,
            max_quote_amount_in,
            user_base_token_reserves,
            user_quote_token_reserves,
            pool_base_token_reserves,
            pool_quote_token_reserves,
            quote_amount_in,
            lp_fee_basis_points,
            lp_fee,
            protocol_fee_basis_points,
            protocol_fee,
            quote_amount_in_with_lp_fee,
            user_quote_amount_in,
            pool,
            user,
            user_base_token_account,
            user_quote_token_account,
            protocol_fee_recipient,
            protocol_fee_recipient_token_account,
            coin_creator,
            coin_creator_fee_basis_points,
            coin_creator_fee,
            track_volume,
            total_unclaimed_tokens,
            total_claimed_tokens,
            current_sol_volume,
            last_update_timestamp,
            base_mint: Identifier::zero(),
            quote_mint: Identifier::zero(),
            coin_creator_vault_ata: Identifier::zero(),
            coin_creator_vault_authority: Identifier::zero(),
            fee_config: Identifier::zero(),
            fee_program: Identifier::zero(),
        },
    )
}

/// Decoding a buy event reads its first bytes only, as many as the
/// event is long on the wire: two inputs that agree on them decode to
/// the same record.
pub proof fn lemma_buy_decoding_reads_a_prefix(
    event: PumpSwapBuyEvent,
    data: Seq<u8>,
    other: Seq<u8>,
)
    requires
        data.len() >= PUMP_SWAP_BUY_EVENT_LOG_SIZE,
        other.len() >= PUMP_SWAP_BUY_EVENT_LOG_SIZE,
        data.subrange(0, PUMP_SWAP_BUY_EVENT_LOG_SIZE as int) == other.subrange(
            0,
            PUMP_SWAP_BUY_EVENT_LOG_SIZE as int,
        ),
    ensures
        event.decoded_from(data) == event.decoded_from(other),
{
    lemma_span_within(data, other, PUMP_SWAP_BUY_EVENT_LOG_SIZE as int, 0, 8);
    lemma_span_within(data, other, PUMP_SWAP_BUY_EVENT_LOG_SIZE as int, 8, 8);
    lemma_span_within(data, other, PUMP_SWAP_BUY_EVENT_LOG_SIZE as int, 16, 8);
    lemma_span_within(data, other, PUMP_SWAP_BUY_EVENT_LOG_SIZE as int, 24, 8);
    lemma_span_within(data, other, PUMP_SWAP_BUY_EVENT_LOG_SIZE as int, 32, 8);
    lemma_span_within(data, other, PUMP_SWAP_BUY_EVENT_LOG_SIZE as int, 40, 8);
    lemma_span_within(data, other, PUMP_SWAP_BUY_EVENT_LOG_SIZE as int, 48, 8);
    lemma_span_within(data, other, PUMP_SWAP_BUY_EVENT_LOG_SIZE as int, 56, 8);
    lemma_span_within(data, other, PUMP_SWAP_BUY_EVENT_LOG_SIZE as int, 64, 8);
    lemma_span_within(data, other, PUMP_SWAP_BUY_EVENT_LOG_SIZE as int, 72, 8);
    lemma_span_within(data, other, PUMP_SWAP_BUY_EVENT_LOG_SIZE as int, 80, 8);
    lemma_span_within(data, other, PUMP_SWAP_BUY_EVENT_LOG_SIZE as int, 88, 8);
    lemma_span_within(data, other, PUMP_SWAP_BUY_EVENT_LOG_SIZE as int, 96, 8);
    lemma_span_within(data, other, PUMP_SWAP_BUY_EVENT_LOG_SIZE as int, 104, 8);
    lemma_span_within(data, other, PUMP_SWAP_BUY_EVENT_LOG_SIZE as int, 112, 32);
    lemma_span_within(data, other, PUMP_SWAP_BUY_EVENT_LOG_SIZE as int, 144, 32);
    lemma_span_within(data, other, PUMP_SWAP_BUY_EVENT_LOG_SIZE as int, 176, 32);
    lemma_span_within(data, other, PUMP_SWAP_BUY_EVENT_LOG_SIZE as int, 208, 32);
    lemma_span_within(data, other, PUMP_SWAP_BUY_EVENT_LOG_SIZE as int, 240, 32);
    lemma_span_within(data, other, PUMP_SWAP_BUY_EVENT_LOG_SIZE as int, 272, 32);
    lemma_span_within(data, other, PUMP_SWAP_BUY_EVENT_LOG_SIZE as int, 304, 32);
    lemma_span_within(data, other, PUMP_SWAP_BUY_EVENT_LOG_SIZE as int, 336, 8);
    lemma_span_within(data, other, PUMP_SWAP_BUY_EVENT_LOG_SIZE as int, 344, 8);
    lemma_span_within(data, other, PUMP_SWAP_BUY_EVENT_LOG_SIZE as int, 352, 1);
    lemma_span_within(data, other, PUMP_SWAP_BUY_EVENT_LOG_SIZE as int, 353, 8);
    lemma_span_within(data, other, PUMP_SWAP_BUY_EVENT_LOG_SIZE as int, 361, 8);
    lemma_span_within(data, other, PUMP_SWAP_BUY_EVENT_LOG_SIZE as int, 369, 8);
    lemma_span_within(data, other, PUMP_SWAP_BUY_EVENT_LOG_SIZE as int, 377, 8);
}

impl UnifiedEvent for PumpSwapBuyEvent {
    open spec fn envelope(&self) -> EventMetadata {
        self.metadata
    }

    open spec fn wire_fields(&self) -> Seq<(Seq<char>, FieldContent)> {
        seq![
            ("timestamp"@, FieldContent::I64(self.timestamp)),
            ("base_amount_out"@, FieldContent::U64(self.base_amount_out)),
            ("max_quote_amount_in"@, FieldContent::U64(self.max_quote_amount_in)),
            ("user_base_token_reserves"@, FieldContent::U64(self.user_base_token_reserves)),
            ("user_quote_token_reserves"@, FieldContent::U64(self.user_quote_token_reserves)),
            ("pool_base_token_reserves"@, FieldContent::U64(self.pool_base_token_reserves)),
            ("pool_quote_token_reserves"@, FieldContent::U64(self.pool_quote_token_reserves)),
            ("quote_amount_in"@, FieldContent::U64(self.quote_amount_in)),
            ("lp_fee_basis_points"@, FieldContent::U64(self.lp_fee_basis_points)),
            ("lp_fee"@, FieldContent::U64(self.lp_fee)),
            ("protocol_fee_basis_points"@, FieldContent::U64(self.protocol_fee_basis_points)),
            ("protocol_fee"@, FieldContent::U64(self.protocol_fee)),
            ("quote_amount_in_with_lp_fee"@, FieldContent::U64(self.quote_amount_in_with_lp_fee)),
            ("user_quote_amount_in"@, FieldContent::U64(self.user_quote_amount_in)),
            ("pool"@, FieldContent::Id(self.pool)),
            ("user"@, FieldContent::Id(self.user)),
            ("user_base_token_account"@, FieldContent::Id(self.user_base_token_account)),
            ("user_quote_token_account"@, FieldContent::Id(self.user_quote_token_account)),
            ("protocol_fee_recipient"@, FieldContent::Id(self.protocol_fee_recipient)),
            (
                "protocol_fee_recipient_token_account"@,
                FieldContent::Id(self.protocol_fee_recipient_token_account),
            ),
            ("coin_creator"@, FieldContent::Id(self.coin_creator)),
            (
                "coin_creator_fee_basis_points"@,
                FieldContent::U64(self.coin_creator_fee_basis_points),
            ),
            ("coin_creator_fee"@, FieldContent::U64(self.coin_creator_fee)),
            ("track_volume"@, FieldContent::Flag(self.track_volume)),
            ("total_unclaimed_tokens"@, FieldContent::U64(self.total_unclaimed_tokens)),
            ("total_claimed_tokens"@, FieldContent::U64(self.total_claimed_tokens)),
            ("current_sol_volume"@, FieldContent::U64(self.current_sol_volume)),
            ("last_update_timestamp"@, FieldContent::I64(self.last_update_timestamp)),
        ]
    }

    fn apply_metadata(self, metadata: EventMetadata) -> (merged: Self)
        ensures
            merged == (PumpSwapBuyEvent { metadata: metadata, ..self }),
    {
        let mut merged = self;
        merged.metadata = metadata;
        merged
    }

    fn mergeable_fields(&self) -> (fields: Vec<NamedField>) {
        let mut fields: Vec<NamedField> = Vec::new();
        fields.push(NamedField::new("timestamp", FieldValue::I64(self.timestamp)));
        fields.push(NamedField::new("base_amount_out", FieldValue::U64(self.base_amount_out)));
        fields.push(
            NamedField::new("max_quote_amount_in", FieldValue::U64(self.max_quote_amount_in)),
        );
        fields.push(
            NamedField::new(
                "user_base_token_reserves",
                FieldValue::U64(self.user_base_token_reserves),
            ),
        );
        fields.push(
            NamedField::new(
                "user_quote_token_reserves",
                FieldValue::U64(self.user_quote_token_reserves),
            ),
        );
        fields.push(
            NamedField::new(
                "pool_base_token_reserves",
                FieldValue::U64(self.pool_base_token_reserves),
            ),
        );
        fields.push(
            NamedField::new(
                "pool_quote_token_reserves",
                FieldValue::U64(self.pool_quote_token_reserves),
            ),
        );
        fields.push(NamedField::new("quote_amount_in", FieldValue::U64(self.quote_amount_in)));
        fields.push(
            NamedField::new("lp_fee_basis_points", FieldValue::U64(self.lp_fee_basis_points)),
        );
        fields.push(NamedField::new("lp_fee", FieldValue::U64(self.lp_fee)));
        fields.push(
            NamedField::new(
                "protocol_fee_basis_points",
                FieldValue::U64(self.protocol_fee_basis_points),
            ),
        );
        fields.push(NamedField::new("protocol_fee", FieldValue::U64(self.protocol_fee)));
        fields.push(
            NamedField::new(
                "quote_amount_in_with_lp_fee",
                FieldValue::U64(self.quote_amount_in_with_lp_fee),
            ),
        );
        fields.push(
            NamedField::new("user_quote_amount_in", FieldValue::U64(self.user_quote_amount_in)),
        );
        fields.push(NamedField::new("pool", FieldValue::Id(self.pool)));
        fields.push(NamedField::new("user", FieldValue::Id(self.user)));
        fields.push(
            NamedField::new(
                "user_base_token_account",
                FieldValue::Id(self.user_base_token_account),
            ),
        );
        fields.push(
            NamedField::new(
                "user_quote_token_account",
                FieldValue::Id(self.user_quote_token_account),
            ),
        );
        fields.push(
            NamedField::new("protocol_fee_recipient", FieldValue::Id(self.protocol_fee_recipient)),
        );
        fields.push(
            NamedField::new(
                "protocol_fee_recipient_token_account",
                FieldValue::Id(self.protocol_fee_recipient_token_account),
            ),
        );
        fields.push(NamedField::new("coin_creator", FieldValue::Id(self.coin_creator)));
        fields.push(
            NamedField::new(
                "coin_creator_fee_basis_points",
                FieldValue::U64(self.coin_creator_fee_basis_points),
            ),
        );
        fields.push(NamedField::new("coin_creator_fee", FieldValue::U64(self.coin_creator_fee)));
        fields.push(NamedField::new("track_volume", FieldValue::Flag(self.track_volume)));
        fields.push(
            NamedField::new("total_unclaimed_tokens", FieldValue::U64(self.total_unclaimed_tokens)),
        );
        fields.push(
            NamedField::new("total_claimed_tokens", FieldValue::U64(self.total_claimed_tokens)),
        );
        fields.push(
            NamedField::new("current_sol_volume", FieldValue::U64(self.current_sol_volume)),
        );
        fields.push(
            NamedField::new("last_update_timestamp", FieldValue::I64(self.last_update_timestamp)),
        );
        assert(fields_view(fields@) =~= self.wire_fields());
        fields
    }
}

impl CopyTradeableEvent for PumpSwapBuyEvent {
    open spec fn trade_fact(&self) -> Option<TradeFact> {
        self.trade()
    }

    fn get_trade_info(&self) -> (trade: Option<TradeInfo>) {
        self.get_trade_info()
    }
}

/// Log event of a sell: base tokens sold for quote tokens.
#[derive(Clone, Debug, Default, PartialEq, Eq)]
pub struct PumpSwapSellEvent {
    pub metadata: EventMetadata,
    pub timestamp: i64,
    pub base_amount_in: u64,
    pub min_quote_amount_out: u64,
    pub user_base_token_reserves: u64,
    pub user_quote_token_reserves: u64,
    pub pool_base_token_reserves: u64,
    pub pool_quote_token_reserves: u64,
    pub quote_amount_out: u64,
    pub lp_fee_basis_points: u64,
    pub lp_fee: u64,
    pub protocol_fee_basis_points: u64,
    pub protocol_fee: u64,
    pub quote_amount_out_without_lp_fee: u64,
    pub user_quote_amount_out: u64,
    pub pool: Identifier,
    pub user: Identifier,
    pub user_base_token_account: Identifier,
    pub user_quote_token_account: Identifier,
    pub protocol_fee_recipient: Identifier,
    pub protocol_fee_recipient_token_account: Identifier,
    pub coin_creator: Identifier,
    pub coin_creator_fee_basis_points: u64,
    pub coin_creator_fee: u64,
    pub base_mint: Identifier,
    pub quote_mint: Identifier,
    pub coin_creator_vault_ata: Identifier,
    pub coin_creator_vault_authority: Identifier,
    pub fee_config: Identifier,
    pub fee_program: Identifier,
}

/// Length in bytes of a sell event on the wire.
pub const PUMP_SWAP_SELL_EVENT_LOG_SIZE: usize = 352;

impl PumpSwapSellEvent {
    /// Whether this record is what the decoder makes of `data`: each wire
    /// field holds the value at its offset, each field that the wire format
    /// lacks is zero, and the metadata is blank.
    pub open spec fn decoded_from(&self, data: Seq<u8>) -> bool {
        &&& self.metadata.is_blank()
        &&& self.timestamp == le_i64(data, 0)
        &&& self.base_amount_in == le_u64(data, 8)
        &&& self.min_quote_amount_out == le_u64(data, 16)
        &&& self.user_base_token_reserves == le_u64(data, 24)
        &&& self.user_quote_token_reserves == le_u64(data, 32)
        &&& self.pool_base_token_reserves == le_u64(data, 40)
        &&& self.pool_quote_token_reserves == le_u64(data, 48)
        &&& self.quote_amount_out == le_u64(data, 56)
        &&& self.lp_fee_basis_points == le_u64(data, 64)
        &&& self.lp_fee == le_u64(data, 72)
        &&& self.protocol_fee_basis_points == le_u64(data, 80)
        &&& self.protocol_fee == le_u64(data, 88)
        &&& self.quote_amount_out_without_lp_fee == le_u64(data, 96)
        &&& self.user_quote_amount_out == le_u64(data, 104)
        &&& self.pool@ == span(data, 112, 32)
        &&& self.user@ == span(data, 144, 32)
        &&& self.user_base_token_account@ == span(data, 176, 32)
        &&& self.user_quote_token_account@ == span(data, 208, 32)
        &&& self.protocol_fee_recipient@ == span(data, 240, 32)
        &&& self.protocol_fee_recipient_token_account@ == span(data, 272, 32)
        &&& self.coin_creator@ == span(data, 304, 32)
        &&& self.coin_creator_fee_basis_points == le_u64(data, 336)
        &&& self.coin_creator_fee == le_u64(data, 344)
        &&& self.base_mint@ == zero_bytes()
        &&& self.quote_mint@ == zero_bytes()
        &&& self.coin_creator_vault_ata@ == zero_bytes()
        &&& self.coin_creator_vault_authority@ == zero_bytes()
        &&& self.fee_config@ == zero_bytes()
        &&& self.fee_program@ == zero_bytes()
    }

    /// The assets that the record itself holds: the base asset is paid,
    /// the quote asset is received. Neither is on the wire; both are zero
    /// until they are filled in.
    pub open spec fn legs(&self) -> SwapData {
        SwapData { from_mint: self.base_mint, to_mint: self.quote_mint }
    }

    /// The assets that decide whether the record is a trade: those that
    /// the metadata names, and the record's own only where the metadata
    /// names none.
    pub open spec fn named_assets(&self) -> SwapData {
        match self.metadata.swap_data {
            Some(context) => context,
            None => self.legs(),
        }
    }

    /// The trade that this record resolves to: the trade between the
    /// assets that decide, where they qualify, and else the trade that the
    /// balance changes of the user show.
    pub open spec fn trade(&self) -> Option<TradeFact> {
        let user = base58_text(self.user@);
        let by_assets = named_trade(
            user,
            Some(self.named_assets()),
            self.base_amount_in,
            self.user_quote_amount_out,
            PUMP_SWAP_PLATFORM@,
        );
        if by_assets is Some {
            by_assets
        } else {
            balance_trade(user, self.metadata, PUMP_SWAP_PLATFORM@)
        }
    }

    /// Extract trade information with direction detection.
    pub fn get_trade_info(&self) -> (trade: Option<TradeInfo>)
        ensures
            trade_view(trade) == self.trade(),
    {
        let direct = if self.metadata.swap_data.is_some() {
            None
        } else {
            Some(SwapData { from_mint: self.base_mint, to_mint: self.quote_mint })
        };
        resolve_trade(
            &self.user,
            &direct,
            &self.metadata,
            self.base_amount_in,
            self.user_quote_amount_out,
            PUMP_SWAP_PLATFORM,
        )
    }
}

/// Where the metadata of a sell event names the assets of the swap, the
/// record's own asset fields have no say in the trade.
pub proof fn lemma_sell_context_comes_first(event: PumpSwapSellEvent, other: PumpSwapSellEvent)
    requires
        event.metadata.swap_data is Some,
        other == (PumpSwapSellEvent {
            base_mint: other.base_mint,
            quote_mint: other.quote_mint,
            ..event
        }),
    ensures
        event.trade() == other.trade(),
{
}

/// Where both assets that decide are the reference asset, a sell event is
/// no trade by its assets, and resolves as the balance changes of its
/// user do.
pub proof fn lemma_sell_reference_on_both_sides_falls_through(event: PumpSwapSellEvent)
    requires
        base58_text(event.named_assets().from_mint@) == reference_asset(),
        base58_text(event.named_assets().to_mint@) == reference_asset(),
    ensures
        event.trade() == balance_trade(
            base58_text(event.user@),
            event.metadata,
            PUMP_SWAP_PLATFORM@,
        ),
{
}

/// Decodes a sell event from the first `PUMP_SWAP_SELL_EVENT_LOG_SIZE` bytes
/// of `data`. Bytes after them are ignored.
pub fn pump_swap_sell_event_log_decode(data: &[u8]) -> (event: Option<PumpSwapSellEvent>)
    ensures
        data@.len() < PUMP_SWAP_SELL_EVENT_LOG_SIZE ==> event is None,
        data@.len() >= PUMP_SWAP_SELL_EVENT_LOG_SIZE ==> event is Some,
        event matches Some(decoded) ==> decoded.decoded_from(data@),
{
    if data.len() < PUMP_SWAP_SELL_EVENT_LOG_SIZE {
        return None;
    }
    let timestamp = read_i64(data, 0)?;
    let base_amount_in = read_u64(data, 8)?;
    let min_quote_amount_out = read_u64(data, 16)?;
    let user_base_token_reserves = read_u64(data, 24)?;
    let user_quote_token_reserves = read_u64(data, 32)?;
    let pool_base_token_reserves = read_u64(data, 40)?;
    let pool_quote_token_reserves = read_u64(data, 48)?;
    let quote_amount_out = read_u64(data, 56)?;
    let lp_fee_basis_points = read_u64(data, 64)?;
    let lp_fee = read_u64(data, 72)?;
    let protocol_fee_basis_points = read_u64(data, 80)?;
    let protocol_fee = read_u64(data, 88)?;
    let quote_amount_out_without_lp_fee = read_u64(data, 96)?;
    let user_quote_amount_out = read_u64(data, 104)?;
    let pool = read_identifier(data, 112)?;
    let user = read_identifier(data, 144)?;
    let user_base_token_account = read_identifier(data, 176)?;
    let user_quote_token_account = read_identifier(data, 208)?;
    let protocol_fee_recipient = read_identifier(data, 240)?;
    let protocol_fee_recipient_token_account = read_identifier(data, 272)?;
    let coin_creator = read_identifier(data, 304)?;
    let coin_creator_fee_basis_points = read_u64(data, 336)?;
    let coin_creator_fee = read_u64(data, 344)?;
    Some(
        PumpSwapSellEvent {
            metadata: EventMetadata::blank(),
            timestamp,
            base_amount_in,
            min_quote_amount_out,
            user_base_token_reserves,
            user_quote_token_reserves,
            pool_base_token_reserves,
            pool_quote_token_reserves,
            quote_amount_out,
            lp_fee_basis_points,
            lp_fee,
            protocol_fee_basis_points,
            protocol_fee,
            quote_amount_out_without_lp_fee,
            user_quote_amount_out,
            pool,
            user,
            user_base_token_account,
            user_quote_token_account,
            protocol_fee_recipient,
            protocol_fee_recipient_token_account,
            coin_creator,
            coin_creator_fee_basis_points,
            coin_creator_fee,
            base_mint: Identifier::zero(),
            quote_mint: Identifier::zero(),
            coin_creator_vault_ata: Identifier::zero(),
            coin_creator_vault_authority: Identifier::zero(),
            fee_config: Identifier::zero(),
            fee_program: Identifier::zero(),
        },
    )
}

/// Decoding a sell event reads its first bytes only, as many as the
/// event is long on the wire: two inputs that agree on them decode to
/// the same record.
pub proof fn lemma_sell_decoding_reads_a_prefix(
    event: PumpSwapSellEvent,
    data: Seq<u8>,
    other: Seq<u8>,
)
    requires
        data.len() >= PUMP_SWAP_SELL_EVENT_LOG_SIZE,
        other.len() >= PUMP_SWAP_SELL_EVENT_LOG_SIZE,
        data.subrange(0, PUMP_SWAP_SELL_EVENT_LOG_SIZE as int) == other.subrange(
            0,
            PUMP_SWAP_SELL_EVENT_LOG_SIZE as int,
        ),
    ensures
        event.decoded_from(data) == event.decoded_from(other),
{
    lemma_span_within(data, other, PUMP_SWAP_SELL_EVENT_LOG_SIZE as int, 0, 8);
    lemma_span_within(data, other, PUMP_SWAP_SELL_EVENT_LOG_SIZE as int, 8, 8);
    lemma_span_within(data, other, PUMP_SWAP_SELL_EVENT_LOG_SIZE as int, 16, 8);
    lemma_span_within(data, other, PUMP_SWAP_SELL_EVENT_LOG_SIZE as int, 24, 8);
    lemma_span_within(data, other, PUMP_SWAP_SELL_EVENT_LOG_SIZE as int, 32, 8);
    lemma_span_within(data, other, PUMP_SWAP_SELL_EVENT_LOG_SIZE as int, 40, 8);
    lemma_span_within(data, other, PUMP_SWAP_SELL_EVENT_LOG_SIZE as int, 48, 8);
    lemma_span_within(data, other, PUMP_SWAP_SELL_EVENT_LOG_SIZE as int, 56, 8);
    lemma_span_within(data, other, PUMP_SWAP_SELL_EVENT_LOG_SIZE as int, 64, 8);
    lemma_span_within(data, other, PUMP_SWAP_SELL_EVENT_LOG_SIZE as int, 72, 8);
    lemma_span_within(data, other, PUMP_SWAP_SELL_EVENT_LOG_SIZE as int, 80, 8);
    lemma_span_within(data, other, PUMP_SWAP_SELL_EVENT_LOG_SIZE as int, 88, 8);
    lemma_span_within(data, other, PUMP_SWAP_SELL_EVENT_LOG_SIZE as int, 96, 8);
    lemma_span_within(data, other, PUMP_SWAP_SELL_EVENT_LOG_SIZE as int, 104, 8);
    lemma_span_within(data, other, PUMP_SWAP_SELL_EVENT_LOG_SIZE as int, 112, 32);
    lemma_span_within(data, other, PUMP_SWAP_SELL_EVENT_LOG_SIZE as int, 144, 32);
    lemma_span_within(data, other, PUMP_SWAP_SELL_EVENT_LOG_SIZE as int, 176, 32);
    lemma_span_within(data, other, PUMP_SWAP_SELL_EVENT_LOG_SIZE as int, 208, 32);
    lemma_span_within(data, other, PUMP_SWAP_SELL_EVENT_LOG_SIZE as int, 240, 32);
    lemma_span_within(data, other, PUMP_SWAP_SELL_EVENT_LOG_SIZE as int, 272, 32);
    lemma_span_within(data, other, PUMP_SWAP_SELL_EVENT_LOG_SIZE as int, 304, 32);
    lemma_span_within(data, other, PUMP_SWAP_SELL_EVENT_LOG_SIZE as int, 336, 8);
    lemma_span_within(data, other, PUMP_SWAP_SELL_EVENT_LOG_SIZE as int, 344, 8);
}

impl UnifiedEvent for PumpSwapSellEvent {
    open spec fn envelope(&self) -> EventMetadata {
        self.metadata
    }

    open spec fn wire_fields(&self) -> Seq<(Seq<char>, FieldContent)> {
        seq![
            ("timestamp"@, FieldContent::I64(self.timestamp)),
            ("base_amount_in"@, FieldContent::U64(self.base_amount_in)),
            ("min_quote_amount_out"@, FieldContent::U64(self.min_quote_amount_out)),
            ("user_base_token_reserves"@, FieldContent::U64(self.user_base_token_reserves)),
            ("user_quote_token_reserves"@, FieldContent::U64(self.user_quote_token_reserves)),
            ("pool_base_token_reserves"@, FieldContent::U64(self.pool_base_token_reserves)),
            ("pool_quote_token_reserves"@, FieldContent::U64(self.pool_quote_token_reserves)),
            ("quote_amount_out"@, FieldContent::U64(self.quote_amount_out)),
            ("lp_fee_basis_points"@, FieldContent::U64(self.lp_fee_basis_points)),
            ("lp_fee"@, FieldContent::U64(self.lp_fee)),
            ("protocol_fee_basis_points"@, FieldContent::U64(self.protocol_fee_basis_points)),
            ("protocol_fee"@, FieldContent::U64(self.protocol_fee)),
            (
                "quote_amount_out_without_lp_fee"@,
                FieldContent::U64(self.quote_amount_out_without_lp_fee),
            ),
            ("user_quote_amount_out"@, FieldContent::U64(self.user_quote_amount_out)),
            ("pool"@, FieldContent::Id(self.pool)),
            ("user"@, FieldContent::Id(self.user)),
            ("user_base_token_account"@, FieldContent::Id(self.user_base_token_account)),
            ("user_quote_token_account"@, FieldContent::Id(self.user_quote_token_account)),
            ("protocol_fee_recipient"@, FieldContent::Id(self.protocol_fee_recipient)),
            (
                "protocol_fee_recipient_token_account"@,
                FieldContent::Id(self.protocol_fee_recipient_token_account),
            ),
            ("coin_creator"@, FieldContent::Id(self.coin_creator)),
            (
                "coin_creator_fee_basis_points"@,
                FieldContent::U64(self.coin_creator_fee_basis_points),
            ),
            ("coin_creator_fee"@, FieldContent::U64(self.coin_creator_fee)),
        ]
    }

    fn apply_metadata(self, metadata: EventMetadata) -> (merged: Self)
        ensures
            merged == (PumpSwapSellEvent { metadata: metadata, ..self }),
    {
        let mut merged = self;
        merged.metadata = metadata;
        merged
    }

    fn mergeable_fields(&self) -> (fields: Vec<NamedField>) {
        let mut fields: Vec<NamedField> = Vec::new();
        fields.push(NamedField::new("timestamp", FieldValue::I64(self.timestamp)));
        fields.push(NamedField::new("base_amount_in", FieldValue::U64(self.base_amount_in)));
        fields.push(
            NamedField::new("min_quote_amount_out", FieldValue::U64(self.min_quote_amount_out)),
        );
        fields.push(
            NamedField::new(
                "user_base_token_reserves",
                FieldValue::U64(self.user_base_token_reserves),
            ),
        );
        fields.push(
            NamedField::new(
                "user_quote_token_reserves",
                FieldValue::U64(self.user_quote_token_reserves),
            ),
        );
        fields.push(
            NamedField::new(
                "pool_base_token_reserves",
                FieldValue::U64(self.pool_base_token_reserves),
            ),
        );
        fields.push(
            NamedField::new(
                "pool_quote_token_reserves",
                FieldValue::U64(self.pool_quote_token_reserves),
            ),
        );
        fields.push(NamedField::new("quote_amount_out", FieldValue::U64(self.quote_amount_out)));
        fields.push(
            NamedField::new("lp_fee_basis_points", FieldValue::U64(self.lp_fee_basis_points)),
        );
        fields.push(NamedField::new("lp_fee", FieldValue::U64(self.lp_fee)));
        fields.push(
            NamedField::new(
                "protocol_fee_basis_points",
                FieldValue::U64(self.protocol_fee_basis_points),
            ),
        );
        fields.push(NamedField::new("protocol_fee", FieldValue::U64(self.protocol_fee)));
        fields.push(
            NamedField::new(
                "quote_amount_out_without_lp_fee",
                FieldValue::U64(self.quote_amount_out_without_lp_fee),
            ),
        );
        fields.push(
            NamedField::new("user_quote_amount_out", FieldValue::U64(self.user_quote_amount_out)),
        );
        fields.push(NamedField::new("pool", FieldValue::Id(self.pool)));
        fields.push(NamedField::new("user", FieldValue::Id(self.user)));
        fields.push(
            NamedField::new(
                "user_base_token_account",
                FieldValue::Id(self.user_base_token_account),
            ),
        );
        fields.push(
            NamedField::new(
                "user_quote_token_account",
                FieldValue::Id(self.user_quote_token_account),
            ),
        );
        fields.push(
            NamedField::new("protocol_fee_recipient", FieldValue::Id(self.protocol_fee_recipient)),
        );
        fields.push(
            NamedField::new(
                "protocol_fee_recipient_token_account",
                FieldValue::Id(self.protocol_fee_recipient_token_account),
            ),
        );
        fields.push(NamedField::new("coin_creator", FieldValue::Id(self.coin_creator)));
        fields.push(
            NamedField::new(
                "coin_creator_fee_basis_points",
                FieldValue::U64(self.coin_creator_fee_basis_points),
            ),
        );
        fields.push(NamedField::new("coin_creator_fee", FieldValue::U64(self.coin_creator_fee)));
        assert(fields_view(fields@) =~= self.wire_fields());
        fields
    }
}

impl CopyTradeableEvent for PumpSwapSellEvent {
    open spec fn trade_fact(&self) -> Option<TradeFact> {
        self.trade()
    }

    fn get_trade_info(&self) -> (trade: Option<TradeInfo>) {
        self.get_trade_info()
    }
}

/// Log event of the creation of a pool.
#[derive(Clone, Debug, Default, PartialEq, Eq)]
pub struct PumpSwapCreatePoolEvent {
    pub metadata: EventMetadata,
    pub timestamp: i64,
    pub index: u16,
    pub creator: Identifier,
    pub base_mint: Identifier,
    pub quote_mint: Identifier,
    pub base_mint_decimals: u8,
    pub quote_mint_decimals: u8,
    pub base_amount_in: u64,
    pub quote_amount_in: u64,
    pub pool_base_amount: u64,
    pub pool_quote_amount: u64,
    pub minimum_liquidity: u64,
    pub initial_liquidity: u64,
    pub lp_token_amount_out: u64,
    pub pool_bump: u8,
    pub pool: Identifier,
    pub lp_mint: Identifier,
    pub user_base_token_account: Identifier,
    pub user_quote_token_account: Identifier,
    pub coin_creator: Identifier,
    pub user_pool_token_account: Identifier,
}

/// Length in bytes of a create-pool event on the wire.
pub const PUMP_SWAP_CREATE_POOL_EVENT_LOG_SIZE: usize = 325;

impl PumpSwapCreatePoolEvent {
    /// Whether this record is what the decoder makes of `data`: each wire
    /// field holds the value at its offset, each field that the wire format
    /// lacks is zero, and the metadata is blank.
    pub open spec fn decoded_from(&self, data: Seq<u8>) -> bool {
        &&& self.metadata.is_blank()
        &&& self.timestamp == le_i64(data, 0)
        &&& self.index == le_u16(data, 8)
        &&& self.creator@ == span(data, 10, 32)
        &&& self.base_mint@ == span(data, 42, 32)
        &&& self.quote_mint@ == span(data, 74, 32)
        &&& self.base_mint_decimals == data[106]
        &&& self.quote_mint_decimals == data[107]
        &&& self.base_amount_in == le_u64(data, 108)
        &&& self.quote_amount_in == le_u64(data, 116)
        &&& self.pool_base_amount == le_u64(data, 124)
        &&& self.pool_quote_amount == le_u64(data, 132)
        &&& self.minimum_liquidity == le_u64(data, 140)
        &&& self.initial_liquidity == le_u64(data, 148)
        &&& self.lp_token_amount_out == le_u64(data, 156)
        &&& self.pool_bump == data[164]
        &&& self.pool@ == span(data, 165, 32)
        &&& self.lp_mint@ == span(data, 197, 32)
        &&& self.user_base_token_account@ == span(data, 229, 32)
        &&& self.user_quote_token_account@ == span(data, 261, 32)
        &&& self.coin_creator@ == span(data, 293, 32)
        &&& self.user_pool_token_account@ == zero_bytes()
    }
}

/// Decodes a create-pool event from the first
/// `PUMP_SWAP_CREATE_POOL_EVENT_LOG_SIZE` bytes of `data`. Bytes after them
/// are ignored.
pub fn pump_swap_create_pool_event_log_decode(data: &[u8]) -> (event: Option<
    PumpSwapCreatePoolEvent,
>)
    ensures
        data@.len() < PUMP_SWAP_CREATE_POOL_EVENT_LOG_SIZE ==> event is None,
        data@.len() >= PUMP_SWAP_CREATE_POOL_EVENT_LOG_SIZE ==> event is Some,
        event matches Some(decoded) ==> decoded.decoded_from(data@),
{
    if data.len() < PUMP_SWAP_CREATE_POOL_EVENT_LOG_SIZE {
        return None;
    }
    let timestamp = read_i64(data, 0)?;
    let index = read_u16(data, 8)?;
    let creator = read_identifier(data, 10)?;
    let base_mint = read_identifier(data, 42)?;
    let quote_mint = read_identifier(data, 74)?;
    let base_mint_decimals = read_u8(data, 106)?;
    let quote_mint_decimals = read_u8(data, 107)?;
    let base_amount_in = read_u64(data, 108)?;
    let quote_amount_in = read_u64(data, 116)?;
    let pool_base_amount = read_u64(data, 124)?;
    let pool_quote_amount = read_u64(data, 132)?;
    let minimum_liquidity = read_u64(data, 140)?;
    let initial_liquidity = read_u64(data, 148)?;
    let lp_token_amount_out = read_u64(data, 156)?;
    let pool_bump = read_u8(data, 164)?;
    let pool = read_identifier(data, 165)?;
    let lp_mint = read_identifier(data, 197)?;
    let user_base_token_account = read_identifier(data, 229)?;
    let user_quote_token_account = read_identifier(data, 261)?;
    let coin_creator = read_identifier(data, 293)?;
    Some(
        PumpSwapCreatePoolEvent {
            metadata: EventMetadata::blank(),
            timestamp,
            index,
            creator,
            base_mint,
            quote_mint,
            base_mint_decimals,
            quote_mint_decimals,
            base_amount_in,
            quote_amount_in,
            pool_base_amount,
            pool_quote_amount,
            minimum_liquidity,
            initial_liquidity,
            lp_token_amount_out,
            pool_bump,
            pool,
            lp_mint,
            user_base_token_account,
            user_quote_token_account,
            coin_creator,
            user_pool_token_account: Identifier::zero(),
        },
    )
}

/// Decoding a create-pool event reads its first bytes only, as many as the
/// event is long on the wire: two inputs that agree on them decode to
/// the same record.
pub proof fn lemma_create_pool_decoding_reads_a_prefix(
    event: PumpSwapCreatePoolEvent,
    data: Seq<u8>,
    other: Seq<u8>,
)
    requires
        data.len() >= PUMP_SWAP_CREATE_POOL_EVENT_LOG_SIZE,
        other.len() >= PUMP_SWAP_CREATE_POOL_EVENT_LOG_SIZE,
        data.subrange(0, PUMP_SWAP_CREATE_POOL_EVENT_LOG_SIZE as int) == other.subrange(
            0,
            PUMP_SWAP_CREATE_POOL_EVENT_LOG_SIZE as int,
        ),
    ensures
        event.decoded_from(data) == event.decoded_from(other),
{
    lemma_span_within(data, other, PUMP_SWAP_CREATE_POOL_EVENT_LOG_SIZE as int, 0, 8);
    lemma_span_within(data, other, PUMP_SWAP_CREATE_POOL_EVENT_LOG_SIZE as int, 8, 2);
    lemma_span_within(data, other, PUMP_SWAP_CREATE_POOL_EVENT_LOG_SIZE as int, 10, 32);
    lemma_span_within(data, other, PUMP_SWAP_CREATE_POOL_EVENT_LOG_SIZE as int, 42, 32);
    lemma_span_within(data, other, PUMP_SWAP_CREATE_POOL_EVENT_LOG_SIZE as int, 74, 32);
    lemma_span_within(data, other, PUMP_SWAP_CREATE_POOL_EVENT_LOG_SIZE as int, 106, 1);
    lemma_span_within(data, other, PUMP_SWAP_CREATE_POOL_EVENT_LOG_SIZE as int, 107, 1);
    lemma_span_within(data, other, PUMP_SWAP_CREATE_POOL_EVENT_LOG_SIZE as int, 108, 8);
    lemma_span_within(data, other, PUMP_SWAP_CREATE_POOL_EVENT_LOG_SIZE as int, 116, 8);
    lemma_span_within(data, other, PUMP_SWAP_CREATE_POOL_EVENT_LOG_SIZE as int, 124, 8);
    lemma_span_within(data, other, PUMP_SWAP_CREATE_POOL_EVENT_LOG_SIZE as int, 132, 8);
    lemma_span_within(data, other, PUMP_SWAP_CREATE_POOL_EVENT_LOG_SIZE as int, 140, 8);
    lemma_span_within(data, other, PUMP_SWAP_CREATE_POOL_EVENT_LOG_SIZE as int, 148, 8);
    lemma_span_within(data, other, PUMP_SWAP_CREATE_POOL_EVENT_LOG_SIZE as int, 156, 8);
    lemma_span_within(data, other, PUMP_SWAP_CREATE_POOL_EVENT_LOG_SIZE as int, 164, 1);
    lemma_span_within(data, other, PUMP_SWAP_CREATE_POOL_EVENT_LOG_SIZE as int, 165, 32);
    lemma_span_within(data, other, PUMP_SWAP_CREATE_POOL_EVENT_LOG_SIZE as int, 197, 32);
    lemma_span_within(data, other, PUMP_SWAP_CREATE_POOL_EVENT_LOG_SIZE as int, 229, 32);
    lemma_span_within(data, other, PUMP_SWAP_CREATE_POOL_EVENT_LOG_SIZE as int, 261, 32);
    lemma_span_within(data, other, PUMP_SWAP_CREATE_POOL_EVENT_LOG_SIZE as int, 293, 32);
}

impl UnifiedEvent for PumpSwapCreatePoolEvent {
    open spec fn envelope(&self) -> EventMetadata {
        self.metadata
    }

    open spec fn wire_fields(&self) -> Seq<(Seq<char>, FieldContent)> {
        seq![
            ("timestamp"@, FieldContent::I64(self.timestamp)),
            ("index"@, FieldContent::U16(self.index)),
            ("creator"@, FieldContent::Id(self.creator)),
            ("base_mint"@, FieldContent::Id(self.base_mint)),
            ("quote_mint"@, FieldContent::Id(self.quote_mint)),
            ("base_mint_decimals"@, FieldContent::U8(self.base_mint_decimals)),
            ("quote_mint_decimals"@, FieldContent::U8(self.quote_mint_decimals)),
            ("base_amount_in"@, FieldContent::U64(self.base_amount_in)),
            ("quote_amount_in"@, FieldContent::U64(self.quote_amount_in)),
            ("pool_base_amount"@, FieldContent::U64(self.pool_base_amount)),
            ("pool_quote_amount"@, FieldContent::U64(self.pool_quote_amount)),
            ("minimum_liquidity"@, FieldContent::U64(self.minimum_liquidity)),
            ("initial_liquidity"@, FieldContent::U64(self.initial_liquidity)),
            ("lp_token_amount_out"@, FieldContent::U64(self.lp_token_amount_out)),
            ("pool_bump"@, FieldContent::U8(self.pool_bump)),
            ("pool"@, FieldContent::Id(self.pool)),
            ("lp_mint"@, FieldContent::Id(self.lp_mint)),
            ("user_base_token_account"@, FieldContent::Id(self.user_base_token_account)),
            ("user_quote_token_account"@, FieldContent::Id(self.user_quote_token_account)),
            ("coin_creator"@, FieldContent::Id(self.coin_creator)),
        ]
    }

    fn apply_metadata(self, metadata: EventMetadata) -> (merged: Self)
        ensures
            merged == (PumpSwapCreatePoolEvent { metadata: metadata, ..self }),
    {
        let mut merged = self;
        merged.metadata = metadata;
        merged
    }

    fn mergeable_fields(&self) -> (fields: Vec<NamedField>) {
        let mut fields: Vec<NamedField> = Vec::new();
        fields.push(NamedField::new("timestamp", FieldValue::I64(self.timestamp)));
        fields.push(NamedField::new("index", FieldValue::U16(self.index)));
        fields.push(NamedField::new("creator", FieldValue::Id(self.creator)));
        fields.push(NamedField::new("base_mint", FieldValue::Id(self.base_mint)));
        fields.push(NamedField::new("quote_mint", FieldValue::Id(self.quote_mint)));
        fields.push(NamedField::new("base_mint_decimals", FieldValue::U8(self.base_mint_decimals)));
        fields.push(
            NamedField::new("quote_mint_decimals", FieldValue::U8(self.quote_mint_decimals)),
        );
        fields.push(NamedField::new("base_amount_in", FieldValue::U64(self.base_amount_in)));
        fields.push(NamedField::new("quote_amount_in", FieldValue::U64(self.quote_amount_in)));
        fields.push(NamedField::new("pool_base_amount", FieldValue::U64(self.pool_base_amount)));
        fields.push(NamedField::new("pool_quote_amount", FieldValue::U64(self.pool_quote_amount)));
        fields.push(NamedField::new("minimum_liquidity", FieldValue::U64(self.minimum_liquidity)));
        fields.push(NamedField::new("initial_liquidity", FieldValue::U64(self.initial_liquidity)));
        fields.push(
            NamedField::new("lp_token_amount_out", FieldValue::U64(self.lp_token_amount_out)),
        );
        fields.push(NamedField::new("pool_bump", FieldValue::U8(self.pool_bump)));
        fields.push(NamedField::new("pool", FieldValue::Id(self.pool)));
        fields.push(NamedField::new("lp_mint", FieldValue::Id(self.lp_mint)));
        fields.push(
            NamedField::new(
                "user_base_token_account",
                FieldValue::Id(self.user_base_token_account),
            ),
        );
        fields.push(
            NamedField::new(
                "user_quote_token_account",
                FieldValue::Id(self.user_quote_token_account),
            ),
        );
        fields.push(NamedField::new("coin_creator", FieldValue::Id(self.coin_creator)));
        assert(fields_view(fields@) =~= self.wire_fields());
        fields
    }
}

/// Log event of a deposit of liquidity.
#[derive(Clone, Debug, Default, PartialEq, Eq)]
pub struct PumpSwapDepositEvent {
    pub metadata: EventMetadata,
    pub timestamp: i64,
    pub lp_token_amount_out: u64,
    pub max_base_amount_in: u64,
    pub max_quote_amount_in: u64,
    pub user_base_token_reserves: u64,
    pub user_quote_token_reserves: u64,
    pub pool_base_token_reserves: u64,
    pub pool_quote_token_reserves: u64,
    pub base_amount_in: u64,
    pub quote_amount_in: u64,
    pub lp_mint_supply: u64,
    pub pool: Identifier,
    pub user: Identifier,
    pub user_base_token_account: Identifier,
    pub user_quote_token_account: Identifier,
    pub user_pool_token_account: Identifier,
    pub base_mint: Identifier,
    pub quote_mint: Identifier,
}

/// Length in bytes of a deposit event on the wire.
pub const PUMP_SWAP_DEPOSIT_EVENT_LOG_SIZE: usize = 248;

impl PumpSwapDepositEvent {
    /// Whether this record is what the decoder makes of `data`: each wire
    /// field holds the value at its offset, each field that the wire format
    /// lacks is zero, and the metadata is blank.
    pub open spec fn decoded_from(&self, data: Seq<u8>) -> bool {
        &&& self.metadata.is_blank()
        &&& self.timestamp == le_i64(data, 0)
        &&& self.lp_token_amount_out == le_u64(data, 8)
        &&& self.max_base_amount_in == le_u64(data, 16)
        &&& self.max_quote_amount_in == le_u64(data, 24)
        &&& self.user_base_token_reserves == le_u64(data, 32)
        &&& self.user_quote_token_reserves == le_u64(data, 40)
        &&& self.pool_base_token_reserves == le_u64(data, 48)
        &&& self.pool_quote_token_reserves == le_u64(data, 56)
        &&& self.base_amount_in == le_u64(data, 64)
        &&& self.quote_amount_in == le_u64(data, 72)
        &&& self.lp_mint_supply == le_u64(data, 80)
        &&& self.pool@ == span(data, 88, 32)
        &&& self.user@ == span(data, 120, 32)
        &&& self.user_base_token_account@ == span(data, 152, 32)
        &&& self.user_quote_token_account@ == span(data, 184, 32)
        &&& self.user_pool_token_account@ == span(data, 216, 32)
        &&& self.base_mint@ == zero_bytes()
        &&& self.quote_mint@ == zero_bytes()
    }
}

/// Decodes a deposit event from the first `PUMP_SWAP_DEPOSIT_EVENT_LOG_SIZE`
/// bytes of `data`. Bytes after them are ignored.
pub fn pump_swap_deposit_event_log_decode(data: &[u8]) -> (event: Option<PumpSwapDepositEvent>)
    ensures
        data@.len() < PUMP_SWAP_DEPOSIT_EVENT_LOG_SIZE ==> event is None,
        data@.len() >= PUMP_SWAP_DEPOSIT_EVENT_LOG_SIZE ==> event is Some,
        event matches Some(decoded) ==> decoded.decoded_from(data@),
{
    if data.len() < PUMP_SWAP_DEPOSIT_EVENT_LOG_SIZE {
        return None;
    }
    let timestamp = read_i64(data, 0)?;
    let lp_token_amount_out = read_u64(data, 8)?;
    let max_base_amount_in = read_u64(data, 16)?;
    let max_quote_amount_in = read_u64(data, 24)?;
    let user_base_token_reserves = read_u64(data, 32)?;
    let user_quote_token_reserves = read_u64(data, 40)?;
    let pool_base_token_reserves = read_u64(data, 48)?;
    let pool_quote_token_reserves = read_u64(data, 56)?;
    let base_amount_in = read_u64(data, 64)?;
    let quote_amount_in = read_u64(data, 72)?;
    let lp_mint_supply = read_u64(data, 80)?;
    let pool = read_identifier(data, 88)?;
    let user = read_identifier(data, 120)?;
    let user_base_token_account = read_identifier(data, 152)?;
    let user_quote_token_account = read_identifier(data, 184)?;
    let user_pool_token_account = read_identifier(data, 216)?;
    Some(
        PumpSwapDepositEvent {
            metadata: EventMetadata::blank(),
            timestamp,
            lp_token_amount_out,
            max_base_amount_in,
            max_quote_amount_in,
            user_base_token_reserves,
            user_quote_token_reserves,
            pool_base_token_reserves,
            pool_quote_token_reserves,
            base_amount_in,
            quote_amount_in,
            lp_mint_supply,
            pool,
            user,
            user_base_token_account,
            user_quote_token_account,
            user_pool_token_account,
            base_mint: Identifier::zero(),
            quote_mint: Identifier::zero(),
        },
    )
}

/// Decoding a deposit event reads its first bytes only, as many as the
/// event is long on the wire: two inputs that agree on them decode to
/// the same record.
pub proof fn lemma_deposit_decoding_reads_a_prefix(
    event: PumpSwapDepositEvent,
    data: Seq<u8>,
    other: Seq<u8>,
)
    requires
        data.len() >= PUMP_SWAP_DEPOSIT_EVENT_LOG_SIZE,
        other.len() >= PUMP_SWAP_DEPOSIT_EVENT_LOG_SIZE,
        data.subrange(0, PUMP_SWAP_DEPOSIT_EVENT_LOG_SIZE as int) == other.subrange(
            0,
            PUMP_SWAP_DEPOSIT_EVENT_LOG_SIZE as int,
        ),
    ensures
        event.decoded_from(data) == event.decoded_from(other),
{
    lemma_span_within(data, other, PUMP_SWAP_DEPOSIT_EVENT_LOG_SIZE as int, 0, 8);
    lemma_span_within(data, other, PUMP_SWAP_DEPOSIT_EVENT_LOG_SIZE as int, 8, 8);
    lemma_span_within(data, other, PUMP_SWAP_DEPOSIT_EVENT_LOG_SIZE as int, 16, 8);
    lemma_span_within(data, other, PUMP_SWAP_DEPOSIT_EVENT_LOG_SIZE as int, 24, 8);
    lemma_span_within(data, other, PUMP_SWAP_DEPOSIT_EVENT_LOG_SIZE as int, 32, 8);
    lemma_span_within(data, other, PUMP_SWAP_DEPOSIT_EVENT_LOG_SIZE as int, 40, 8);
    lemma_span_within(data, other, PUMP_SWAP_DEPOSIT_EVENT_LOG_SIZE as int, 48, 8);
    lemma_span_within(data, other, PUMP_SWAP_DEPOSIT_EVENT_LOG_SIZE as int, 56, 8);
    lemma_span_within(data, other, PUMP_SWAP_DEPOSIT_EVENT_LOG_SIZE as int, 64, 8);
    lemma_span_within(data, other, PUMP_SWAP_DEPOSIT_EVENT_LOG_SIZE as int, 72, 8);
    lemma_span_within(data, other, PUMP_SWAP_DEPOSIT_EVENT_LOG_SIZE as int, 80, 8);
    lemma_span_within(data, other, PUMP_SWAP_DEPOSIT_EVENT_LOG_SIZE as int, 88, 32);
    lemma_span_within(data, other, PUMP_SWAP_DEPOSIT_EVENT_LOG_SIZE as int, 120, 32);
    lemma_span_within(data, other, PUMP_SWAP_DEPOSIT_EVENT_LOG_SIZE as int, 152, 32);
    lemma_span_within(data, other, PUMP_SWAP_DEPOSIT_EVENT_LOG_SIZE as int, 184, 32);
    lemma_span_within(data, other, PUMP_SWAP_DEPOSIT_EVENT_LOG_SIZE as int, 216, 32);
}

impl UnifiedEvent for PumpSwapDepositEvent {
    open spec fn envelope(&self) -> EventMetadata {
        self.metadata
    }

    open spec fn wire_fields(&self) -> Seq<(Seq<char>, FieldContent)> {
        seq![
            ("timestamp"@, FieldContent::I64(self.timestamp)),
            ("lp_token_amount_out"@, FieldContent::U64(self.lp_token_amount_out)),
            ("max_base_amount_in"@, FieldContent::U64(self.max_base_amount_in)),
            ("max_quote_amount_in"@, FieldContent::U64(self.max_quote_amount_in)),
            ("user_base_token_reserves"@, FieldContent::U64(self.user_base_token_reserves)),
            ("user_quote_token_reserves"@, FieldContent::U64(self.user_quote_token_reserves)),
            ("pool_base_token_reserves"@, FieldContent::U64(self.pool_base_token_reserves)),
            ("pool_quote_token_reserves"@, FieldContent::U64(self.pool_quote_token_reserves)),
            ("base_amount_in"@, FieldContent::U64(self.base_amount_in)),
            ("quote_amount_in"@, FieldContent::U64(self.quote_amount_in)),
            ("lp_mint_supply"@, FieldContent::U64(self.lp_mint_supply)),
            ("pool"@, FieldContent::Id(self.pool)),
            ("user"@, FieldContent::Id(self.user)),
            ("user_base_token_account"@, FieldContent::Id(self.user_base_token_account)),
            ("user_quote_token_account"@, FieldContent::Id(self.user_quote_token_account)),
            ("user_pool_token_account"@, FieldContent::Id(self.user_pool_token_account)),
        ]
    }

    fn apply_metadata(self, metadata: EventMetadata) -> (merged: Self)
        ensures
            merged == (PumpSwapDepositEvent { metadata: metadata, ..self }),
    {
        let mut merged = self;
        merged.metadata = metadata;
        merged
    }

    fn mergeable_fields(&self) -> (fields: Vec<NamedField>) {
        let mut fields: Vec<NamedField> = Vec::new();
        fields.push(NamedField::new("timestamp", FieldValue::I64(self.timestamp)));
        fields.push(
            NamedField::new("lp_token_amount_out", FieldValue::U64(self.lp_token_amount_out)),
        );
        fields.push(
            NamedField::new("max_base_amount_in", FieldValue::U64(self.max_base_amount_in)),
        );
        fields.push(
            NamedField::new("max_quote_amount_in", FieldValue::U64(self.max_quote_amount_in)),
        );
        fields.push(
            NamedField::new(
                "user_base_token_reserves",
                FieldValue::U64(self.user_base_token_reserves),
            ),
        );
        fields.push(
            NamedField::new(
                "user_quote_token_reserves",
                FieldValue::U64(self.user_quote_token_reserves),
            ),
        );
        fields.push(
            NamedField::new(
                "pool_base_token_reserves",
                FieldValue::U64(self.pool_base_token_reserves),
            ),
        );
        fields.push(
            NamedField::new(
                "pool_quote_token_reserves",
                FieldValue::U64(self.pool_quote_token_reserves),
            ),
        );
        fields.push(NamedField::new("base_amount_in", FieldValue::U64(self.base_amount_in)));
        fields.push(NamedField::new("quote_amount_in", FieldValue::U64(self.quote_amount_in)));
        fields.push(NamedField::new("lp_mint_supply", FieldValue::U64(self.lp_mint_supply)));
        fields.push(NamedField::new("pool", FieldValue::Id(self.pool)));
        fields.push(NamedField::new("user", FieldValue::Id(self.user)));
        fields.push(
            NamedField::new(
                "user_base_token_account",
                FieldValue::Id(self.user_base_token_account),
            ),
        );
        fields.push(
            NamedField::new(
                "user_quote_token_account",
                FieldValue::Id(self.user_quote_token_account),
            ),
        );
        fields.push(
            NamedField::new(
                "user_pool_token_account",
                FieldValue::Id(self.user_pool_token_account),
            ),
        );
        assert(fields_view(fields@) =~= self.wire_fields());
        fields
    }
}

/// Log event of a withdrawal of liquidity.
#[derive(Clone, Debug, Default, PartialEq, Eq)]
pub struct PumpSwapWithdrawEvent {
    pub metadata: EventMetadata,
    pub timestamp: i64,
    pub lp_token_amount_in: u64,
    pub min_base_amount_out: u64,
    pub min_quote_amount_out: u64,
    pub user_base_token_reserves: u64,
    pub user_quote_token_reserves: u64,
    pub pool_base_token_reserves: u64,
    pub pool_quote_token_reserves: u64,
    pub base_amount_out: u64,
    pub quote_amount_out: u64,
    pub lp_mint_supply: u64,
    pub pool: Identifier,
    pub user: Identifier,
    pub user_base_token_account: Identifier,
    pub user_quote_token_account: Identifier,
    pub user_pool_token_account: Identifier,
    pub base_mint: Identifier,
    pub quote_mint: Identifier,
}

/// Length in bytes of a withdraw event on the wire.
pub const PUMP_SWAP_WITHDRAW_EVENT_LOG_SIZE: usize = 248;

impl PumpSwapWithdrawEvent {
    /// Whether this record is what the decoder makes of `data`: each wire
    /// field holds the value at its offset, each field that the wire format
    /// lacks is zero, and the metadata is blank.
    pub open spec fn decoded_from(&self, data: Seq<u8>) -> bool {
        &&& self.metadata.is_blank()
        &&& self.timestamp == le_i64(data, 0)
        &&& self.lp_token_amount_in == le_u64(data, 8)
        &&& self.min_base_amount_out == le_u64(data, 16)
        &&& self.min_quote_amount_out == le_u64(data, 24)
        &&& self.user_base_token_reserves == le_u64(data, 32)
        &&& self.user_quote_token_reserves == le_u64(data, 40)
        &&& self.pool_base_token_reserves == le_u64(data, 48)
        &&& self.pool_quote_token_reserves == le_u64(data, 56)
        &&& self.base_amount_out == le_u64(data, 64)
        &&& self.quote_amount_out == le_u64(data, 72)
        &&& self.lp_mint_supply == le_u64(data, 80)
        &&& self.pool@ == span(data, 88, 32)
        &&& self.user@ == span(data, 120, 32)
        &&& self.user_base_token_account@ == span(data, 152, 32)
        &&& self.user_quote_token_account@ == span(data, 184, 32)
        &&& self.user_pool_token_account@ == span(data, 216, 32)
        &&& self.base_mint@ == zero_bytes()
        &&& self.quote_mint@ == zero_bytes()
    }
}

/// Decodes a withdraw event from the first
/// `PUMP_SWAP_WITHDRAW_EVENT_LOG_SIZE` bytes of `data`. Bytes after them are
/// ignored.
pub fn pump_swap_withdraw_event_log_decode(data: &[u8]) -> (event: Option<PumpSwapWithdrawEvent>)
    ensures
        data@.len() < PUMP_SWAP_WITHDRAW_EVENT_LOG_SIZE ==> event is None,
        data@.len() >= PUMP_SWAP_WITHDRAW_EVENT_LOG_SIZE ==> event is Some,
        event matches Some(decoded) ==> decoded.decoded_from(data@),
{
    if data.len() < PUMP_SWAP_WITHDRAW_EVENT_LOG_SIZE {
        return None;
    }
    let timestamp = read_i64(data, 0)?;
    let lp_token_amount_in = read_u64(data, 8)?;
    let min_base_amount_out = read_u64(data, 16)?;
    let min_quote_amount_out = read_u64(data, 24)?;
    let user_base_token_reserves = read_u64(data, 32)?;
    let user_quote_token_reserves = read_u64(data, 40)?;
    let pool_base_token_reserves = read_u64(data, 48)?;
    let pool_quote_token_reserves = read_u64(data, 56)?;
    let base_amount_out = read_u64(data, 64)?;
    let quote_amount_out = read_u64(data, 72)?;
    let lp_mint_supply = read_u64(data, 80)?;
    let pool = read_identifier(data, 88)?;
    let user = read_identifier(data, 120)?;
    let user_base_token_account = read_identifier(data, 152)?;
    let user_quote_token_account = read_identifier(data, 184)?;
    let user_pool_token_account = read_identifier(data, 216)?;
    Some(
        PumpSwapWithdrawEvent {
            metadata: EventMetadata::blank(),
            timestamp,
            lp_token_amount_in,
            min_base_amount_out,
            min_quote_amount_out,
            user_base_token_reserves,
            user_quote_token_reserves,
            pool_base_token_reserves,
            pool_quote_token_reserves,
            base_amount_out,
            quote_amount_out,
            lp_mint_supply,
            pool,
            user,
            user_base_token_account,
            user_quote_token_account,
            user_pool_token_account,
            base_mint: Identifier::zero(),
            quote_mint: Identifier::zero(),
        },
    )
}

/// Decoding a withdraw event reads its first bytes only, as many as the
/// event is long on the wire: two inputs that agree on them decode to
/// the same record.
pub proof fn lemma_withdraw_decoding_reads_a_prefix(
    event: PumpSwapWithdrawEvent,
    data: Seq<u8>,
    other: Seq<u8>,
)
    requires
        data.len() >= PUMP_SWAP_WITHDRAW_EVENT_LOG_SIZE,
        other.len() >= PUMP_SWAP_WITHDRAW_EVENT_LOG_SIZE,
        data.subrange(0, PUMP_SWAP_WITHDRAW_EVENT_LOG_SIZE as int) == other.subrange(
            0,
            PUMP_SWAP_WITHDRAW_EVENT_LOG_SIZE as int,
        ),
    ensures
        event.decoded_from(data) == event.decoded_from(other),
{
    lemma_span_within(data, other, PUMP_SWAP_WITHDRAW_EVENT_LOG_SIZE as int, 0, 8);
    lemma_span_within(data, other, PUMP_SWAP_WITHDRAW_EVENT_LOG_SIZE as int, 8, 8);
    lemma_span_within(data, other, PUMP_SWAP_WITHDRAW_EVENT_LOG_SIZE as int, 16, 8);
    lemma_span_within(data, other, PUMP_SWAP_WITHDRAW_EVENT_LOG_SIZE as int, 24, 8);
    lemma_span_within(data, other, PUMP_SWAP_WITHDRAW_EVENT_LOG_SIZE as int, 32, 8);
    lemma_span_within(data, other, PUMP_SWAP_WITHDRAW_EVENT_LOG_SIZE as int, 40, 8);
    lemma_span_within(data, other, PUMP_SWAP_WITHDRAW_EVENT_LOG_SIZE as int, 48, 8);
    lemma_span_within(data, other, PUMP_SWAP_WITHDRAW_EVENT_LOG_SIZE as int, 56, 8);
    lemma_span_within(data, other, PUMP_SWAP_WITHDRAW_EVENT_LOG_SIZE as int, 64, 8);
    lemma_span_within(data, other, PUMP_SWAP_WITHDRAW_EVENT_LOG_SIZE as int, 72, 8);
    lemma_span_within(data, other, PUMP_SWAP_WITHDRAW_EVENT_LOG_SIZE as int, 80, 8);
    lemma_span_within(data, other, PUMP_SWAP_WITHDRAW_EVENT_LOG_SIZE as int, 88, 32);
    lemma_span_within(data, other, PUMP_SWAP_WITHDRAW_EVENT_LOG_SIZE as int, 120, 32);
    lemma_span_within(data, other, PUMP_SWAP_WITHDRAW_EVENT_LOG_SIZE as int, 152, 32);
    lemma_span_within(data, other, PUMP_SWAP_WITHDRAW_EVENT_LOG_SIZE as int, 184, 32);
    lemma_span_within(data, other, PUMP_SWAP_WITHDRAW_EVENT_LOG_SIZE as int, 216, 32);
}

impl UnifiedEvent for PumpSwapWithdrawEvent {
    open spec fn envelope(&self) -> EventMetadata {
        self.metadata
    }

    open spec fn wire_fields(&self) -> Seq<(Seq<char>, FieldContent)> {
        seq![
            ("timestamp"@, FieldContent::I64(self.timestamp)),
            ("lp_token_amount_in"@, FieldContent::U64(self.lp_token_amount_in)),
            ("min_base_amount_out"@, FieldContent::U64(self.min_base_amount_out)),
            ("min_quote_amount_out"@, FieldContent::U64(self.min_quote_amount_out)),
            ("user_base_token_reserves"@, FieldContent::U64(self.user_base_token_reserves)),
            ("user_quote_token_reserves"@, FieldContent::U64(self.user_quote_token_reserves)),
            ("pool_base_token_reserves"@, FieldContent::U64(self.pool_base_token_reserves)),
            ("pool_quote_token_reserves"@, FieldContent::U64(self.pool_quote_token_reserves)),
            ("base_amount_out"@, FieldContent::U64(self.base_amount_out)),
            ("quote_amount_out"@, FieldContent::U64(self.quote_amount_out)),
            ("lp_mint_supply"@, FieldContent::U64(self.lp_mint_supply)),
            ("pool"@, FieldContent::Id(self.pool)),
            ("user"@, FieldContent::Id(self.user)),
            ("user_base_token_account"@, FieldContent::Id(self.user_base_token_account)),
            ("user_quote_token_account"@, FieldContent::Id(self.user_quote_token_account)),
            ("user_pool_token_account"@, FieldContent::Id(self.user_pool_token_account)),
        ]
    }

    fn apply_metadata(self, metadata: EventMetadata) -> (merged: Self)
        ensures
            merged == (PumpSwapWithdrawEvent { metadata: metadata, ..self }),
    {
        let mut merged = self;
        merged.metadata = metadata;
        merged
    }

    fn mergeable_fields(&self) -> (fields: Vec<NamedField>) {
        let mut fields: Vec<NamedField> = Vec::new();
        fields.push(NamedField::new("timestamp", FieldValue::I64(self.timestamp)));
        fields.push(
            NamedField::new("lp_token_amount_in", FieldValue::U64(self.lp_token_amount_in)),
        );
        fields.push(
            NamedField::new("min_base_amount_out", FieldValue::U64(self.min_base_amount_out)),
        );
        fields.push(
            NamedField::new("min_quote_amount_out", FieldValue::U64(self.min_quote_amount_out)),
        );
        fields.push(
            NamedField::new(
                "user_base_token_reserves",
                FieldValue::U64(self.user_base_token_reserves),
            ),
        );
        fields.push(
            NamedField::new(
                "user_quote_token_reserves",
                FieldValue::U64(self.user_quote_token_reserves),
            ),
        );
        fields.push(
            NamedField::new(
                "pool_base_token_reserves",
                FieldValue::U64(self.pool_base_token_reserves),
            ),
        );
        fields.push(
            NamedField::new(
                "pool_quote_token_reserves",
                FieldValue::U64(self.pool_quote_token_reserves),
            ),
        );
        fields.push(NamedField::new("base_amount_out", FieldValue::U64(self.base_amount_out)));
        fields.push(NamedField::new("quote_amount_out", FieldValue::U64(self.quote_amount_out)));
        fields.push(NamedField::new("lp_mint_supply", FieldValue::U64(self.lp_mint_supply)));
        fields.push(NamedField::new("pool", FieldValue::Id(self.pool)));
        fields.push(NamedField::new("user", FieldValue::Id(self.user)));
        fields.push(
            NamedField::new(
                "user_base_token_account",
                FieldValue::Id(self.user_base_token_account),
            ),
        );
        fields.push(
            NamedField::new(
                "user_quote_token_account",
                FieldValue::Id(self.user_quote_token_account),
            ),
        );
        fields.push(
            NamedField::new(
                "user_pool_token_account",
                FieldValue::Id(self.user_pool_token_account),
            ),
        );
        assert(fields_view(fields@) =~= self.wire_fields());
        fields
    }
}

/// Snapshot of the program's global configuration account. The account's
/// own data is carried as it was read.
#[derive(Clone, Debug, Default, PartialEq, Eq)]
pub struct PumpSwapGlobalConfigAccountEvent {
    pub metadata: EventMetadata,
    pub pubkey: Identifier,
    pub executable: bool,
    pub lamports: u64,
    pub owner: Identifier,
    pub rent_epoch: u64,
    pub global_config: Vec<u8>,
}

/// Snapshot of a pool account. The account's own data is carried as it
/// was read.
#[derive(Clone, Debug, Default, PartialEq, Eq)]
pub struct PumpSwapPoolAccountEvent {
    pub metadata: EventMetadata,
    pub pubkey: Identifier,
    pub executable: bool,
    pub lamports: u64,
    pub owner: Identifier,
    pub rent_epoch: u64,
    pub pool: Vec<u8>,
}

impl UnifiedEvent for PumpSwapGlobalConfigAccountEvent {
    open spec fn envelope(&self) -> EventMetadata {
        self.metadata
    }

    open spec fn wire_fields(&self) -> Seq<(Seq<char>, FieldContent)> {
        seq![
            ("pubkey"@, FieldContent::Id(self.pubkey)),
            ("executable"@, FieldContent::Flag(self.executable)),
            ("lamports"@, FieldContent::U64(self.lamports)),
            ("owner"@, FieldContent::Id(self.owner)),
            ("rent_epoch"@, FieldContent::U64(self.rent_epoch)),
            ("global_config"@, FieldContent::Bytes(self.global_config@)),
        ]
    }

    fn apply_metadata(self, metadata: EventMetadata) -> (merged: Self)
        ensures
            merged == (PumpSwapGlobalConfigAccountEvent { metadata: metadata, ..self }),
    {
        let mut merged = self;
        merged.metadata = metadata;
        merged
    }

    fn mergeable_fields(&self) -> (fields: Vec<NamedField>) {
        let mut fields: Vec<NamedField> = Vec::new();
        fields.push(NamedField::new("pubkey", FieldValue::Id(self.pubkey)));
        fields.push(NamedField::new("executable", FieldValue::Flag(self.executable)));
        fields.push(NamedField::new("lamports", FieldValue::U64(self.lamports)));
        fields.push(NamedField::new("owner", FieldValue::Id(self.owner)));
        fields.push(NamedField::new("rent_epoch", FieldValue::U64(self.rent_epoch)));
        fields.push(
            NamedField::new("global_config", FieldValue::Bytes(copy_bytes(&self.global_config))),
        );
        assert(fields_view(fields@) =~= self.wire_fields());
        fields
    }
}

impl UnifiedEvent for PumpSwapPoolAccountEvent {
    open spec fn envelope(&self) -> EventMetadata {
        self.metadata
    }

    open spec fn wire_fields(&self) -> Seq<(Seq<char>, FieldContent)> {
        seq![
            ("pubkey"@, FieldContent::Id(self.pubkey)),
            ("executable"@, FieldContent::Flag(self.executable)),
            ("lamports"@, FieldContent::U64(self.lamports)),
            ("owner"@, FieldContent::Id(self.owner)),
            ("rent_epoch"@, FieldContent::U64(self.rent_epoch)),
            ("pool"@, FieldContent::Bytes(self.pool@)),
        ]
    }

    fn apply_metadata(self, metadata: EventMetadata) -> (merged: Self)
        ensures
            merged == (PumpSwapPoolAccountEvent { metadata: metadata, ..self }),
    {
        let mut merged = self;
        merged.metadata = metadata;
        merged
    }

    fn mergeable_fields(&self) -> (fields: Vec<NamedField>) {
        let mut fields: Vec<NamedField> = Vec::new();
        fields.push(NamedField::new("pubkey", FieldValue::Id(self.pubkey)));
        fields.push(NamedField::new("executable", FieldValue::Flag(self.executable)));
        fields.push(NamedField::new("lamports", FieldValue::U64(self.lamports)));
        fields.push(NamedField::new("owner", FieldValue::Id(self.owner)));
        fields.push(NamedField::new("rent_epoch", FieldValue::U64(self.rent_epoch)));
        fields.push(NamedField::new("pool", FieldValue::Bytes(copy_bytes(&self.pool))));
        assert(fields_view(fields@) =~= self.wire_fields());
        fields
    }
}

/// Prefix of a buy event in the program's log.
pub const BUY_EVENT: [u8; 16] = [
    228, 69, 165, 46, 81, 203, 154, 29, 103, 244, 82, 31, 44, 245, 119, 119,
];

/// Prefix of a sell event in the program's log.
pub const SELL_EVENT: [u8; 16] = [
    228, 69, 165, 46, 81, 203, 154, 29, 62, 47, 55, 10, 165, 3, 220, 42,
];

/// Prefix of a create-pool event in the program's log.
pub const CREATE_POOL_EVENT: [u8; 16] = [
    228, 69, 165, 46, 81, 203, 154, 29, 177, 49, 12, 210, 160, 118, 167, 116,
];

/// Prefix of a deposit event in the program's log.
pub const DEPOSIT_EVENT: [u8; 16] = [
    228, 69, 165, 46, 81, 203, 154, 29, 120, 248, 61, 83, 31, 142, 107, 144,
];

/// Prefix of a withdraw event in the program's log.
pub const WITHDRAW_EVENT: [u8; 16] = [
    228, 69, 165, 46, 81, 203, 154, 29, 22, 9, 133, 26, 160, 44, 71, 192,
];

/// Prefix of a buy instruction.
pub const BUY_IX: [u8; 8] = [102, 6, 61, 18, 1, 218, 235, 234];

/// Prefix of a sell instruction.
pub const SELL_IX: [u8; 8] = [51, 230, 133, 164, 1, 127, 131, 173];

/// Prefix of a create-pool instruction.
pub const CREATE_POOL_IX: [u8; 8] = [233, 146, 209, 142, 207, 104, 64, 188];

/// Prefix of a deposit instruction.
pub const DEPOSIT_IX: [u8; 8] = [242, 35, 198, 137, 82, 225, 242, 182];

/// Prefix of a withdraw instruction.
pub const WITHDRAW_IX: [u8; 8] = [183, 18, 70, 156, 148, 109, 161, 34];

/// Prefix of the global configuration account.
pub const GLOBAL_CONFIG_ACCOUNT: [u8; 8] = [149, 8, 156, 202, 160, 252, 176, 217];

/// Prefix of a pool account.
pub const POOL_ACCOUNT: [u8; 8] = [241, 154, 109, 4, 17, 177, 109, 188];

/// The kinds of record of this program.
#[derive(Clone, Copy, Debug, PartialEq, Eq, Structural)]
pub enum PumpSwapRecordKind {
    Buy,
    Sell,
    CreatePool,
    Deposit,
    Withdraw,
    GlobalConfig,
    Pool,
}

/// The prefix that marks a kind of record in a category, where the
/// category has such records.
pub open spec fn discriminator(category: RecordCategory, kind: PumpSwapRecordKind) -> Option<
    Seq<u8>,
> {
    match (category, kind) {
        (RecordCategory::Log, PumpSwapRecordKind::Buy) => Some(BUY_EVENT@),
        (RecordCategory::Log, PumpSwapRecordKind::Sell) => Some(SELL_EVENT@),
        (RecordCategory::Log, PumpSwapRecordKind::CreatePool) => Some(CREATE_POOL_EVENT@),
        (RecordCategory::Log, PumpSwapRecordKind::Deposit) => Some(DEPOSIT_EVENT@),
        (RecordCategory::Log, PumpSwapRecordKind::Withdraw) => Some(WITHDRAW_EVENT@),
        (RecordCategory::Instruction, PumpSwapRecordKind::Buy) => Some(BUY_IX@),
        (RecordCategory::Instruction, PumpSwapRecordKind::Sell) => Some(SELL_IX@),
        (RecordCategory::Instruction, PumpSwapRecordKind::CreatePool) => Some(CREATE_POOL_IX@),
        (RecordCategory::Instruction, PumpSwapRecordKind::Deposit) => Some(DEPOSIT_IX@),
        (RecordCategory::Instruction, PumpSwapRecordKind::Withdraw) => Some(WITHDRAW_IX@),
        (RecordCategory::Account, PumpSwapRecordKind::GlobalConfig) => Some(
            GLOBAL_CONFIG_ACCOUNT@,
        ),
        (RecordCategory::Account, PumpSwapRecordKind::Pool) => Some(POOL_ACCOUNT@),
        _ => None,
    }
}

/// Whether `data` is a record of the given kind in the given category: it
/// begins with exactly that kind's prefix.
pub open spec fn is_kind(
    data: Seq<u8>,
    category: RecordCategory,
    kind: PumpSwapRecordKind,
) -> bool {
    match discriminator(category, kind) {
        Some(prefix) => has_prefix(data, prefix),
        None => false,
    }
}

/// Within one category no two kinds share a prefix.
pub proof fn lemma_discriminators_unique(
    category: RecordCategory,
    a: PumpSwapRecordKind,
    b: PumpSwapRecordKind,
)
    requires
        a != b,
        discriminator(category, a) is Some,
        discriminator(category, b) is Some,
    ensures
        discriminator(category, a) != discriminator(category, b),
{
    assert(BUY_EVENT@[8] == 103 && SELL_EVENT@[8] == 62 && CREATE_POOL_EVENT@[8] == 177
        && DEPOSIT_EVENT@[8] == 120 && WITHDRAW_EVENT@[8] == 22);
    assert(BUY_IX@[0] == 102 && SELL_IX@[0] == 51 && CREATE_POOL_IX@[0] == 233 && DEPOSIT_IX@[0]
        == 242 && WITHDRAW_IX@[0] == 183);
    assert(GLOBAL_CONFIG_ACCOUNT@[0] == 149 && POOL_ACCOUNT@[0] == 241);
}

/// Bytes match at most one kind of a category.
pub proof fn lemma_kind_is_unambiguous(
    data: Seq<u8>,
    category: RecordCategory,
    a: PumpSwapRecordKind,
    b: PumpSwapRecordKind,
)
    requires
        is_kind(data, category, a),
        is_kind(data, category, b),
    ensures
        a == b,
{
    if a != b {
        lemma_discriminators_unique(category, a, b);
        let first = discriminator(category, a)->Some_0;
        let second = discriminator(category, b)->Some_0;
        assert(first.len() == second.len());
        assert(first =~= data.subrange(0, first.len() as int));
    }
}

/// Tells which kind of record `data` is by its prefix. Bytes with no known
/// prefix are no error: they are not a record of this program.
pub fn identify(data: &[u8], category: RecordCategory) -> (kind: Option<PumpSwapRecordKind>)
    ensures
        kind matches Some(found) ==> is_kind(data@, category, found),
        kind is None ==> forall|any: PumpSwapRecordKind| !is_kind(data@, category, any),
{
    match category {
        RecordCategory::Log => {
            if starts_with(data, BUY_EVENT.as_slice()) {
                Some(PumpSwapRecordKind::Buy)
            } else if starts_with(data, SELL_EVENT.as_slice()) {
                Some(PumpSwapRecordKind::Sell)
            } else if starts_with(data, CREATE_POOL_EVENT.as_slice()) {
                Some(PumpSwapRecordKind::CreatePool)
            } else if starts_with(data, DEPOSIT_EVENT.as_slice()) {
                Some(PumpSwapRecordKind::Deposit)
            } else if starts_with(data, WITHDRAW_EVENT.as_slice()) {
                Some(PumpSwapRecordKind::Withdraw)
            } else {
                None
            }
        },
        RecordCategory::Instruction => {
            if starts_with(data, BUY_IX.as_slice()) {
                Some(PumpSwapRecordKind::Buy)
            } else if starts_with(data, SELL_IX.as_slice()) {
                Some(PumpSwapRecordKind::Sell)
            } else if starts_with(data, CREATE_POOL_IX.as_slice()) {
                Some(PumpSwapRecordKind::CreatePool)
            } else if starts_with(data, DEPOSIT_IX.as_slice()) {
                Some(PumpSwapRecordKind::Deposit)
            } else if starts_with(data, WITHDRAW_IX.as_slice()) {
                Some(PumpSwapRecordKind::Withdraw)
            } else {
                None
            }
        },
        RecordCategory::Account => {
            if starts_with(data, GLOBAL_CONFIG_ACCOUNT.as_slice()) {
                Some(PumpSwapRecordKind::GlobalConfig)
            } else if starts_with(data, POOL_ACCOUNT.as_slice()) {
                Some(PumpSwapRecordKind::Pool)
            } else {
                None
            }
        },
    }
}

/// Length in bytes of the prefix that marks a log event.
pub const LOG_PREFIX_SIZE: usize = 16;

/// A decoded log event of this program.
#[derive(Clone, Debug, PartialEq, Eq)]
pub enum PumpSwapLogEvent {
    Buy(PumpSwapBuyEvent),
    Sell(PumpSwapSellEvent),
    CreatePool(PumpSwapCreatePoolEvent),
    Deposit(PumpSwapDepositEvent),
    Withdraw(PumpSwapWithdrawEvent),
}

impl PumpSwapLogEvent {
    /// The kind of the event.
    pub open spec fn kind(&self) -> PumpSwapRecordKind {
        match self {
            PumpSwapLogEvent::Buy(_) => PumpSwapRecordKind::Buy,
            PumpSwapLogEvent::Sell(_) => PumpSwapRecordKind::Sell,
            PumpSwapLogEvent::CreatePool(_) => PumpSwapRecordKind::CreatePool,
            PumpSwapLogEvent::Deposit(_) => PumpSwapRecordKind::Deposit,
            PumpSwapLogEvent::Withdraw(_) => PumpSwapRecordKind::Withdraw,
        }
    }

    /// Whether the record inside is what its decoder makes of `payload`.
    pub open spec fn decoded_from(&self, payload: Seq<u8>) -> bool {
        match self {
            PumpSwapLogEvent::Buy(event) => event.decoded_from(payload),
            PumpSwapLogEvent::Sell(event) => event.decoded_from(payload),
            PumpSwapLogEvent::CreatePool(event) => event.decoded_from(payload),
            PumpSwapLogEvent::Deposit(event) => event.decoded_from(payload),
            PumpSwapLogEvent::Withdraw(event) => event.decoded_from(payload),
        }
    }
}

/// The bytes of a log entry after its prefix.
pub open spec fn log_payload(data: Seq<u8>) -> Seq<u8> {
    data.subrange(LOG_PREFIX_SIZE as int, data.len() as int)
}

/// Whether the payload of a log entry decodes as an event of `kind`: it
/// is long enough, and a buy event's flag byte is a flag.
pub open spec fn payload_decodes(payload: Seq<u8>, kind: PumpSwapRecordKind) -> bool {
    match kind {
        PumpSwapRecordKind::Buy => payload.len() >= PUMP_SWAP_BUY_EVENT_LOG_SIZE && flag_of(
            payload[352],
        ) is Some,
        PumpSwapRecordKind::Sell => payload.len() >= PUMP_SWAP_SELL_EVENT_LOG_SIZE,
        PumpSwapRecordKind::CreatePool => payload.len() >= PUMP_SWAP_CREATE_POOL_EVENT_LOG_SIZE,
        PumpSwapRecordKind::Deposit => payload.len() >= PUMP_SWAP_DEPOSIT_EVENT_LOG_SIZE,
        PumpSwapRecordKind::Withdraw => payload.len() >= PUMP_SWAP_WITHDRAW_EVENT_LOG_SIZE,
        _ => false,
    }
}

/// Decodes one entry of the program's log: the prefix tells the kind of
/// event, and the bytes after it are decoded as that kind. An entry with
/// an unknown prefix, or with a payload that does not decode, gives
/// nothing.
pub fn decode_log_event(data: &[u8]) -> (event: Option<PumpSwapLogEvent>)
    ensures
        event matches Some(decoded) ==> {
            &&& is_kind(data@, RecordCategory::Log, decoded.kind())
            &&& decoded.decoded_from(log_payload(data@))
        },
        event is Some <==> exists|kind: PumpSwapRecordKind|
            is_kind(data@, RecordCategory::Log, kind) && payload_decodes(log_payload(data@), kind),
{
    let kind = match identify(data, RecordCategory::Log) {
        Some(kind) => kind,
        None => {
            return None;
        },
    };
    proof {
        assert forall|other: PumpSwapRecordKind|
            is_kind(data@, RecordCategory::Log, other) implies other == kind by {
            lemma_kind_is_unambiguous(data@, RecordCategory::Log, other, kind);
        }
    }
    let payload = slice_subrange(data, LOG_PREFIX_SIZE, data.len());
    let event = match kind {
        PumpSwapRecordKind::Buy => match pump_swap_buy_event_log_decode(payload) {
            Some(event) => Some(PumpSwapLogEvent::Buy(event)),
            None => None,
        },
        PumpSwapRecordKind::Sell => match pump_swap_sell_event_log_decode(payload) {
            Some(event) => Some(PumpSwapLogEvent::Sell(event)),
            None => None,
        },
        PumpSwapRecordKind::CreatePool => match pump_swap_create_pool_event_log_decode(payload) {
            Some(event) => Some(PumpSwapLogEvent::CreatePool(event)),
            None => None,
        },
        PumpSwapRecordKind::Deposit => match pump_swap_deposit_event_log_decode(payload) {
            Some(event) => Some(PumpSwapLogEvent::Deposit(event)),
            None => None,
        },
        PumpSwapRecordKind::Withdraw => match pump_swap_withdraw_event_log_decode(payload) {
            Some(event) => Some(PumpSwapLogEvent::Withdraw(event)),
            None => None,
        },
        _ => None,
    };
    proof {
        if event is Some {
            assert(is_kind(data@, RecordCategory::Log, kind) && payload_decodes(
                log_payload(data@),
                kind,
            ));
        }
    }
    event
}

} // verus!
