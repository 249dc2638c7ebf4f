//! The module's fixed 32-byte identifier and its base58 rendering.

use vstd::prelude::*;

verus! {

/// A 32-byte on-chain address, held as plain bytes.
pub struct ProgramId {
    pub bytes: [u8; 32],
}

/// The bytes of the identifier this module is declared with.
pub open spec fn declared_id() -> Seq<u8> {
    seq![
        98u8, 47, 85, 177, 212, 205, 136, 3, 83, 212, 235, 219, 10, 169, 171, 11,
        134, 34, 119, 172, 252, 176, 175, 159, 230, 228, 22, 136, 127, 43, 184, 98,
    ]
}

/// The base58 rendering of a 32-byte address, a function of the bytes alone.
pub uninterp spec fn base58_of(bytes: Seq<u8>) -> Seq<char>;

/// Relies on `anchor_lang::prelude::Pubkey`: its `Display` impl writes the
/// base58 rendering of the 32 bytes it holds, which depends on those bytes
/// alone.
#[verifier::external_body]
pub(crate) fn base58_text(bytes: &[u8; 32]) -> (r: String)
    ensures
        r@ == base58_of(bytes@),
{
    anchor_lang::prelude::Pubkey::new_from_array(*bytes).to_string()
}

/// The identifier this module is declared with, as a value.
pub fn declared_program_id() -> (r: ProgramId)
    ensures
        r.bytes@ == declared_id(),
{
    let bytes: [u8; 32] = [
        98u8, 47, 85, 177, 212, 205, 136, 3, 83, 212, 235, 219, 10, 169, 171, 11,
        134, 34, 119, 172, 252, 176, 175, 159, 230, 228, 22, 136, 127, 43, 184, 98,
    ];
    let r = ProgramId { bytes };
    proof {
        assert(r.bytes@ =~= declared_id());
    }
    r
}

/// The declared identifier as text: the base58 rendering of its bytes.
pub fn program_id_text() -> (r: String)
    ensures
        r@ == base58_of(declared_id()),
{
    let id = declared_program_id();
    base58_text(&id.bytes)
}

} // verus!
