//! The capability that every record offers to generic pipeline stages:
//! take the metadata of its transaction, and list its wire-decoded fields.

use crate::identifier::Identifier;
use crate::metadata::EventMetadata;
use crate::trade::{trade_view, TradeFact, TradeInfo};
use vstd::prelude::*;

verus! {

/// The value of one wire-decoded field.
#[derive(Clone, Debug, PartialEq, Eq)]
pub enum FieldValue {
    I64(i64),
    U64(u64),
    U16(u16),
    U8(u8),
    Flag(bool),
    Id(Identifier),
    OptionalId(Option<Identifier>),
    Text(String),
    Bytes(Vec<u8>),
}

/// The value of one wire-decoded field as a mathematical value.
pub enum FieldContent {
    I64(i64),
    U64(u64),
    U16(u16),
    U8(u8),
    Flag(bool),
    Id(Identifier),
    OptionalId(Option<Identifier>),
    Text(Seq<char>),
    Bytes(Seq<u8>),
}

impl View for FieldValue {
    type V = FieldContent;

    open spec fn view(&self) -> FieldContent {
        match self {
            FieldValue::I64(value) => FieldContent::I64(*value),
            FieldValue::U64(value) => FieldContent::U64(*value),
            FieldValue::U16(value) => FieldContent::U16(*value),
            FieldValue::U8(value) => FieldContent::U8(*value),
            FieldValue::Flag(value) => FieldContent::Flag(*value),
            FieldValue::Id(value) => FieldContent::Id(*value),
            FieldValue::OptionalId(value) => FieldContent::OptionalId(*value),
            FieldValue::Text(value) => FieldContent::Text(value@),
            FieldValue::Bytes(value) => FieldContent::Bytes(value@),
        }
    }
}

/// A copy of `data`.
pub fn copy_bytes(data: &Vec<u8>) -> (copy: Vec<u8>)
    ensures
        copy@ == data@,
{
    let mut copy: Vec<u8> = Vec::new();
    let mut i: usize = 0;
    while i < data.len()
        invariant
            i <= data.len(),
            copy@ =~= data@.take(i as int),
        decreases data.len() - i,
    {
        copy.push(data[i]);
        i += 1;
    }
    assert(data@.take(i as int) =~= data@);
    copy
}

/// One wire-decoded field of a record: its name and its value.
#[derive(Clone, Debug, PartialEq, Eq)]
pub struct NamedField {
    pub name: String,
    pub value: FieldValue,
}

impl View for NamedField {
    type V = (Seq<char>, FieldContent);

    open spec fn view(&self) -> (Seq<char>, FieldContent) {
        (self.name@, self.value@)
    }
}

/// The fields of a list as pairs of name and value.
pub open spec fn fields_view(fields: Seq<NamedField>) -> Seq<(Seq<char>, FieldContent)> {
    fields.map_values(|f: NamedField| f@)
}

impl NamedField {
    /// The field with the given name and value.
    pub fn new(name: &str, value: FieldValue) -> (field: NamedField)
        ensures
            field@ == (name@, value@),
    {
        NamedField { name: name.to_owned(), value }
    }
}

/// What every record offers, whatever its kind.
pub trait UnifiedEvent: Sized {
    /// The metadata that the record carries.
    spec fn envelope(&self) -> EventMetadata;

    /// The wire-decoded fields of the record, in wire order: neither the
    /// metadata nor the fields that the wire format lacks.
    spec fn wire_fields(&self) -> Seq<(Seq<char>, FieldContent)>;

    /// Attaches the metadata of the record's transaction. The record is
    /// consumed and handed back: its owner attaches metadata once.
    fn apply_metadata(self, metadata: EventMetadata) -> (merged: Self)
        ensures
            merged.envelope() == metadata,
            merged.wire_fields() == self.wire_fields(),
    ;

    /// Lists the wire-decoded fields of the record.
    fn mergeable_fields(&self) -> (fields: Vec<NamedField>)
        ensures
            fields_view(fields@) == self.wire_fields(),
    ;
}

/// A record that may stand for a trade of its user.
pub trait CopyTradeableEvent {
    /// The trade that the record resolves to, if it resolves to one.
    spec fn trade_fact(&self) -> Option<TradeFact>;

    /// Resolves the record into a trade, or declines.
    fn get_trade_info(&self) -> (trade: Option<TradeInfo>)
        ensures
            trade_view(trade) == self.trade_fact(),
    ;
}

} // verus!
