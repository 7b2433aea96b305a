//! Trusted boundary to the storage engine's numeric column type.
//!
//! The store keeps block numbers in a decimal column, so the highest-stored-
//! block query answers with a `rust_decimal::Decimal`. The sync logic only
//! ever reads that value back as a `u64` counter; the conversion is performed
//! by `rust_decimal` and is named, not restated, here.

use vstd::prelude::*;

verus! {

#[verifier::external_type_specification]
#[verifier::external_body]
pub struct ExDecimal(rust_decimal::Decimal);

/// The `u64` that `rust_decimal`'s `ToPrimitive::to_u64` extracts from a
/// decimal: `None` when the value is negative or too large for `u64`,
/// otherwise the value truncated toward zero. The result depends on the
/// decimal value alone, so it is named rather than spelled out.
pub uninterp spec fn u64_of_decimal(d: rust_decimal::Decimal) -> Option<u64>;

/// Relies on `rust_decimal`'s `ToPrimitive::to_u64` for `Decimal`: a pure
/// function of the decimal value, returning its integer part as a `u64`
/// when that is representable and `None` otherwise.
#[verifier::external_body]
pub(crate) fn decimal_to_u64(d: &rust_decimal::Decimal) -> (r: Option<u64>)
    ensures
        r == u64_of_decimal(*d),
{
    rust_decimal::prelude::ToPrimitive::to_u64(d)
}

} // verus!
