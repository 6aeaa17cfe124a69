//! Account identifiers: 32 raw bytes with a canonical base-58 text form.

use solana_sdk::pubkey::Pubkey;
use vstd::prelude::*;

verus! {

/// The canonical base-58 text of a 32-byte identifier.
pub uninterp spec fn base58_text(bytes: Seq<u8>) -> Seq<char>;

/// Text form of the reference asset: the network's native asset in its
/// wrapped form.
pub const WSOL_MINT: &'static str = "So11111111111111111111111111111111111111112";

/// The reference asset's text as a sequence of characters.
pub open spec fn reference_asset() -> Seq<char> {
    WSOL_MINT@
}

/// The bytes of the all-zero identifier.
pub open spec fn zero_bytes() -> Seq<u8> {
    Seq::new(32, |i: int| 0u8)
}

/// A 32-byte account identifier. Equality is byte-exact.
#[derive(Clone, Copy, Debug, PartialEq, Eq, Hash)]
pub struct Identifier {
    pub bytes: [u8; 32],
}

impl View for Identifier {
    type V = Seq<u8>;

    open spec fn view(&self) -> Seq<u8> {
        self.bytes@
    }
}

/// Calls `Pubkey::new_from_array(..).to_string()`, which writes the key's
/// 32 bytes in base 58. The text is a function of the bytes alone; the
/// contract gives it the name `base58_text` and claims nothing else.
#[verifier::external_body]
fn base58_of(bytes: &[u8; 32]) -> (text: String)
    ensures
        text@ == base58_text(bytes@),
{
    Pubkey::new_from_array(*bytes).to_string()
}

/// Whether two texts hold the same characters.
pub fn same_text(a: &str, b: &str) -> (same: bool)
    ensures
        same == (a@ == b@),
{
    let left: String = a.to_owned();
    let right: String = b.to_owned();
    left == right
}

/// Whether `text` is the reference asset's text.
pub fn is_reference_asset(text: &str) -> (yes: bool)
    ensures
        yes == (text@ == reference_asset()),
{
    same_text(text, WSOL_MINT)
}

impl Identifier {
    /// The identifier made of the given bytes.
    pub fn new(bytes: [u8; 32]) -> (id: Identifier)
        ensures
            id.bytes == bytes,
    {
        Identifier { bytes }
    }

    /// The all-zero identifier, which context-dependent fields hold until
    /// they are filled.
    pub fn zero() -> (id: Identifier)
        ensures
            id@ == zero_bytes(),
    {
        let id = Identifier { bytes: [0u8; 32] };
        assert(id@ =~= zero_bytes());
        id
    }

    /// The canonical base-58 text of this identifier.
    pub fn to_base58(&self) -> (text: String)
        ensures
            text@ == base58_text(self@),
    {
        base58_of(&self.bytes)
    }
}

impl Default for Identifier {
    fn default() -> (id: Identifier)
        ensures
            id@ == zero_bytes(),
    {
        Identifier::zero()
    }
}

} // verus!
