//! The metadata envelope that every decoded record carries.

use crate::balance_delta::RawTransaction;
use crate::identifier::Identifier;
use vstd::prelude::*;

verus! {

/// The two assets of a swap, learned elsewhere in the transaction.
#[derive(Clone, Copy, Debug, PartialEq, Eq)]
pub struct SwapData {
    pub from_mint: Identifier,
    pub to_mint: Identifier,
}

/// What is known of the transaction that a record came from. A decoder
/// never fills it: a record leaves its decoder with blank metadata, and
/// the pipeline attaches the real one once.
#[derive(Clone, Debug, PartialEq, Eq)]
pub struct EventMetadata {
    pub signature: String,
    pub slot: u64,
    pub block_time: i64,
    pub swap_data: Option<SwapData>,
    pub raw_transaction: Option<RawTransaction>,
}

impl EventMetadata {
    /// Whether nothing has been attached yet.
    pub open spec fn is_blank(&self) -> bool {
        &&& self.signature@ == Seq::<char>::empty()
        &&& self.slot == 0
        &&& self.block_time == 0
        &&& self.swap_data is None
        &&& self.raw_transaction is None
    }

    /// Metadata with nothing attached.
    pub fn blank() -> (metadata: EventMetadata)
        ensures
            metadata.is_blank(),
    {
        EventMetadata {
            signature: String::new(),
            slot: 0,
            block_time: 0,
            swap_data: None,
            raw_transaction: None,
        }
    }
}

impl Default for EventMetadata {
    fn default() -> (metadata: EventMetadata)
        ensures
            metadata.is_blank(),
    {
        EventMetadata::blank()
    }
}

} // verus!
