use dex_event_parser::identifier::Identifier;
use dex_event_parser::metadata::{EventMetadata, SwapData};
use dex_event_parser::pumpswap::{
    PumpSwapBuyEvent, PumpSwapCreatePoolEvent, PumpSwapDepositEvent,
    PumpSwapGlobalConfigAccountEvent, PumpSwapPoolAccountEvent, PumpSwapSellEvent,
    PumpSwapWithdrawEvent,
};
use dex_event_parser::raydium_amm_v4::{
    RaydiumAmmV4AmmInfoAccountEvent, RaydiumAmmV4DepositEvent, RaydiumAmmV4Initialize2Event,
    RaydiumAmmV4SwapEvent, RaydiumAmmV4WithdrawEvent, RaydiumAmmV4WithdrawPnlEvent,
};
use dex_event_parser::raydium_cpmm::{
    RaydiumCpmmAmmConfigAccountEvent, RaydiumCpmmDepositEvent, RaydiumCpmmInitializeEvent,
    RaydiumCpmmPoolStateAccountEvent, RaydiumCpmmSwapEvent, RaydiumCpmmWithdrawEvent,
};
use dex_event_parser::unified::{
    copy_bytes, CopyTradeableEvent, FieldValue, NamedField, UnifiedEvent,
};

fn names(fields: &[NamedField]) -> Vec<String> {
    fields.iter().map(|f| f.name.clone()).collect()
}

fn sample_metadata() -> EventMetadata {
    EventMetadata {
        signature: "5h6xBEauJ3PK6SWCZ1PGjBvj8vDdWG3KpwATGy1ARAXFSDwt8GFXM7W5Ncn16wmqokgpiKRLuS83KUxyZyv2sUYv"
            .to_string(),
        slot: 312_000_111,
        block_time: 1_700_000_000,
        swap_data: Some(SwapData {
            from_mint: Identifier::new([1; 32]),
            to_mint: Identifier::new([2; 32]),
        }),
        raw_transaction: None,
    }
}

#[test]
fn buy_event_lists_its_wire_fields_in_order() {
    let mut event = PumpSwapBuyEvent::default();
    event.timestamp = -9;
    event.base_amount_out = 11;
    event.user = Identifier::new([4; 32]);
    event.track_volume = true;
    event.last_update_timestamp = 77;
    event.base_mint = Identifier::new([9; 32]);
    let fields = event.mergeable_fields();
    assert_eq!(
        names(&fields),
        vec![
            "timestamp",
            "base_amount_out",
            "max_quote_amount_in",
            "user_base_token_reserves",
            "user_quote_token_reserves",
            "pool_base_token_reserves",
            "pool_quote_token_reserves",
            "quote_amount_in",
            "lp_fee_basis_points",
            "lp_fee",
            "protocol_fee_basis_points",
            "protocol_fee",
            "quote_amount_in_with_lp_fee",
            "user_quote_amount_in",
            "pool",
            "user",
            "user_base_token_account",
            "user_quote_token_account",
            "protocol_fee_recipient",
            "protocol_fee_recipient_token_account",
            "coin_creator",
            "coin_creator_fee_basis_points",
            "coin_creator_fee",
            "track_volume",
            "total_unclaimed_tokens",
            "total_claimed_tokens",
            "current_sol_volume",
            "last_update_timestamp",
        ]
    );
    assert_eq!(fields[0].value, FieldValue::I64(-9));
    assert_eq!(fields[1].value, FieldValue::U64(11));
    assert_eq!(fields[15].value, FieldValue::Id(Identifier::new([4; 32])));
    assert_eq!(fields[23].value, FieldValue::Flag(true));
    assert_eq!(fields[27].value, FieldValue::I64(77));
}

#[test]
fn sell_event_lists_its_wire_fields() {
    let mut event = PumpSwapSellEvent::default();
    event.coin_creator_fee = 5;
    let fields = event.mergeable_fields();
    assert_eq!(fields.len(), 23);
    assert_eq!(fields[0], NamedField::new("timestamp", FieldValue::I64(0)));
    assert_eq!(fields[1].name, "base_amount_in");
    assert_eq!(fields[22], NamedField::new("coin_creator_fee", FieldValue::U64(5)));
}

#[test]
fn create_pool_event_lists_its_wire_fields() {
    let mut event = PumpSwapCreatePoolEvent::default();
    event.index = 3;
    event.pool_bump = 250;
    event.user_pool_token_account = Identifier::new([7; 32]);
    let fields = event.mergeable_fields();
    assert_eq!(fields.len(), 20);
    assert_eq!(fields[1], NamedField::new("index", FieldValue::U16(3)));
    assert_eq!(fields[14], NamedField::new("pool_bump", FieldValue::U8(250)));
    assert_eq!(fields[19].name, "coin_creator");
    assert!(!names(&fields).contains(&"user_pool_token_account".to_string()));
}

#[test]
fn liquidity_events_list_their_wire_fields() {
    let deposit = PumpSwapDepositEvent::default().mergeable_fields();
    assert_eq!(deposit.len(), 16);
    assert_eq!(deposit[1].name, "lp_token_amount_out");
    assert_eq!(deposit[15].name, "user_pool_token_account");
    let withdraw = PumpSwapWithdrawEvent::default().mergeable_fields();
    assert_eq!(withdraw.len(), 16);
    assert_eq!(withdraw[1].name, "lp_token_amount_in");
    assert!(!names(&withdraw).contains(&"base_mint".to_string()));
}

#[test]
fn raydium_amm_v4_swap_lists_all_its_fields() {
    let mut event = RaydiumAmmV4SwapEvent::default();
    event.amount_in = 7;
    event.amount_out = 9;
    event.amm_target_orders = Some(Identifier::new([5; 32]));
    event.user_source_owner = Identifier::new([6; 32]);
    let fields = event.mergeable_fields();
    assert_eq!(
        names(&fields),
        vec![
            "amount_in",
            "minimum_amount_out",
            "max_amount_in",
            "amount_out",
            "token_program",
            "amm",
            "amm_authority",
            "amm_open_orders",
            "amm_target_orders",
            "pool_coin_token_account",
            "pool_pc_token_account",
            "serum_program",
            "serum_market",
            "serum_bids",
            "serum_asks",
            "serum_event_queue",
            "serum_coin_vault_account",
            "serum_pc_vault_account",
            "serum_vault_signer",
            "user_source_token_account",
            "user_destination_token_account",
            "user_source_owner",
        ]
    );
    assert_eq!(fields[0].value, FieldValue::U64(7));
    assert_eq!(fields[3].value, FieldValue::U64(9));
    assert_eq!(fields[8].value, FieldValue::OptionalId(Some(Identifier::new([5; 32]))));
    assert_eq!(fields[21].value, FieldValue::Id(Identifier::new([6; 32])));
    let blank = RaydiumAmmV4SwapEvent::default().mergeable_fields();
    assert_eq!(blank[8], NamedField::new("amm_target_orders", FieldValue::OptionalId(None)));
}

#[test]
fn raydium_amm_v4_records_list_their_fields() {
    let mut deposit = RaydiumAmmV4DepositEvent::default();
    deposit.base_side = 1;
    let fields = deposit.mergeable_fields();
    assert_eq!(fields.len(), 17);
    assert_eq!(fields[0].name, "max_coin_amount");
    assert_eq!(fields[2], NamedField::new("base_side", FieldValue::U64(1)));
    assert_eq!(fields[16].name, "serum_event_queue");

    let mut initialize = RaydiumAmmV4Initialize2Event::default();
    initialize.nonce = 254;
    let fields = initialize.mergeable_fields();
    assert_eq!(fields.len(), 25);
    assert_eq!(fields[0], NamedField::new("nonce", FieldValue::U8(254)));
    assert_eq!(fields[24].name, "user_lp_token_account");

    let mut withdraw = RaydiumAmmV4WithdrawEvent::default();
    withdraw.amount = 3;
    let fields = withdraw.mergeable_fields();
    assert_eq!(fields.len(), 23);
    assert_eq!(fields[0], NamedField::new("amount", FieldValue::U64(3)));
    assert_eq!(fields[22].name, "serum_asks");

    let mut pnl = RaydiumAmmV4WithdrawPnlEvent::default();
    pnl.amm_config = Identifier::new([2; 32]);
    let fields = pnl.mergeable_fields();
    assert_eq!(fields.len(), 17);
    assert_eq!(fields[2], NamedField::new("amm_config", FieldValue::Id(Identifier::new([2; 32]))));
    assert_eq!(fields[16].name, "serum_vault_signer");
}

#[test]
fn raydium_cpmm_records_list_their_fields() {
    let mut swap = RaydiumCpmmSwapEvent::default();
    swap.max_amount_in = 8;
    swap.output_token_mint = Identifier::new([3; 32]);
    let fields = swap.mergeable_fields();
    assert_eq!(fields.len(), 17);
    assert_eq!(fields[2], NamedField::new("max_amount_in", FieldValue::U64(8)));
    assert_eq!(fields[4].name, "payer");
    assert_eq!(
        fields[15],
        NamedField::new("output_token_mint", FieldValue::Id(Identifier::new([3; 32])))
    );
    assert_eq!(fields[16].name, "observation_state");

    let mut deposit = RaydiumCpmmDepositEvent::default();
    deposit.lp_token_amount = 4;
    let fields = deposit.mergeable_fields();
    assert_eq!(fields.len(), 16);
    assert_eq!(fields[0], NamedField::new("lp_token_amount", FieldValue::U64(4)));
    assert_eq!(fields[15].name, "lp_mint");

    let mut initialize = RaydiumCpmmInitializeEvent::default();
    initialize.open_time = 5;
    let fields = initialize.mergeable_fields();
    assert_eq!(fields.len(), 23);
    assert_eq!(fields[2], NamedField::new("open_time", FieldValue::U64(5)));
    assert_eq!(fields[22].name, "rent");

    let mut withdraw = RaydiumCpmmWithdrawEvent::default();
    withdraw.minimum_token1_amount = 6;
    let fields = withdraw.mergeable_fields();
    assert_eq!(fields.len(), 17);
    assert_eq!(fields[2], NamedField::new("minimum_token1_amount", FieldValue::U64(6)));
    assert_eq!(fields[16].name, "memo_program");
}

#[test]
fn account_snapshots_list_their_fields() {
    let mut config = PumpSwapGlobalConfigAccountEvent::default();
    config.pubkey = Identifier::new([1; 32]);
    config.executable = true;
    config.lamports = 10;
    config.owner = Identifier::new([2; 32]);
    config.rent_epoch = 11;
    config.global_config = vec![9, 8, 7];
    assert_eq!(
        config.mergeable_fields(),
        vec![
            NamedField::new("pubkey", FieldValue::Id(Identifier::new([1; 32]))),
            NamedField::new("executable", FieldValue::Flag(true)),
            NamedField::new("lamports", FieldValue::U64(10)),
            NamedField::new("owner", FieldValue::Id(Identifier::new([2; 32]))),
            NamedField::new("rent_epoch", FieldValue::U64(11)),
            NamedField::new("global_config", FieldValue::Bytes(vec![9, 8, 7])),
        ]
    );

    let mut pool = PumpSwapPoolAccountEvent::default();
    pool.pool = vec![1, 2];
    let fields = pool.mergeable_fields();
    assert_eq!(fields.len(), 6);
    assert_eq!(fields[5], NamedField::new("pool", FieldValue::Bytes(vec![1, 2])));

    let mut amm = RaydiumAmmV4AmmInfoAccountEvent::default();
    amm.pubkey = "PoolKey".to_string();
    amm.owner = "OwnerKey".to_string();
    amm.lamports = 12;
    amm.amm_info = vec![4; 5];
    assert_eq!(
        amm.mergeable_fields(),
        vec![
            NamedField::new("pubkey", FieldValue::Text("PoolKey".to_string())),
            NamedField::new("executable", FieldValue::Flag(false)),
            NamedField::new("lamports", FieldValue::U64(12)),
            NamedField::new("owner", FieldValue::Text("OwnerKey".to_string())),
            NamedField::new("rent_epoch", FieldValue::U64(0)),
            NamedField::new("amm_info", FieldValue::Bytes(vec![4; 5])),
        ]
    );

    let mut amm_config = RaydiumCpmmAmmConfigAccountEvent::default();
    amm_config.rent_epoch = 13;
    amm_config.amm_config = vec![6];
    let fields = amm_config.mergeable_fields();
    assert_eq!(fields.len(), 6);
    assert_eq!(fields[0].name, "pubkey");
    assert_eq!(fields[4], NamedField::new("rent_epoch", FieldValue::U64(13)));
    assert_eq!(fields[5], NamedField::new("amm_config", FieldValue::Bytes(vec![6])));

    let mut state = RaydiumCpmmPoolStateAccountEvent::default();
    state.executable = true;
    state.pool_state = vec![];
    let fields = state.mergeable_fields();
    assert_eq!(fields.len(), 6);
    assert_eq!(fields[1], NamedField::new("executable", FieldValue::Flag(true)));
    assert_eq!(fields[5], NamedField::new("pool_state", FieldValue::Bytes(vec![])));
}

#[test]
fn copied_bytes_are_the_same_bytes() {
    assert_eq!(copy_bytes(&vec![1, 2, 3]), vec![1, 2, 3]);
    assert_eq!(copy_bytes(&Vec::new()), Vec::<u8>::new());
}

#[test]
fn applying_metadata_sets_the_envelope_only() {
    let mut event = PumpSwapBuyEvent::default();
    event.quote_amount_in = 5;
    event.base_mint = Identifier::new([3; 32]);
    let before = event.clone();
    let merged = event.apply_metadata(sample_metadata());
    assert_eq!(merged.metadata, sample_metadata());
    let mut expected = before.clone();
    expected.metadata = sample_metadata();
    assert_eq!(merged, expected);
    assert_eq!(merged.mergeable_fields(), before.mergeable_fields());
}

#[test]
fn applying_metadata_to_a_raydium_swap() {
    let mut event = RaydiumAmmV4SwapEvent::default();
    event.amount_in = 9;
    event.amm_target_orders = Some(Identifier::new([8; 32]));
    let merged = event.clone().apply_metadata(sample_metadata());
    assert_eq!(merged.metadata.slot, 312_000_111);
    assert_eq!(merged.amount_in, 9);
    assert_eq!(merged.amm_target_orders, event.amm_target_orders);
}

#[test]
fn trade_capability_matches_the_method() {
    let mut event = RaydiumCpmmSwapEvent::default();
    event.amount_in = 3;
    event.amount_out = 4;
    let merged = event.apply_metadata(sample_metadata());
    assert_eq!(CopyTradeableEvent::get_trade_info(&merged), merged.get_trade_info());
    let buy = PumpSwapBuyEvent::default();
    assert_eq!(CopyTradeableEvent::get_trade_info(&buy), None);
    let sell = PumpSwapSellEvent::default();
    assert_eq!(CopyTradeableEvent::get_trade_info(&sell), None);
}
