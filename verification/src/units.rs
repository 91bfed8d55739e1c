//! Human-readable sizes, rendered by the `byte_unit` crate.

use vstd::prelude::*;

verus! {

/// The text that `byte_unit` gives for a number of bytes in the binary unit
/// that suits it (`B`, `KiB`, `MiB`, ...), such as `9.765625 KiB` for 10000.
pub uninterp spec fn binary_size_text(bytes: u64) -> Seq<char>;

/// Renders `bytes` with `byte_unit`: `Byte::from_u128`, then
/// `get_appropriate_unit(UnitType::Binary)`, then `to_string`. The contract
/// only ties the text to `bytes` through [`binary_size_text`]; every `u64`
/// is within `Byte::from_u128`'s range, so the fallback to the default never
/// applies.
#[verifier::external_body]
pub(crate) fn format_binary_size(bytes: u64) -> (r: String)
    ensures
        r@ == binary_size_text(bytes),
{
    byte_unit::Byte::from_u128(bytes as u128).unwrap_or_default().get_appropriate_unit(
        byte_unit::UnitType::Binary,
    ).to_string()
}

} // verus!
