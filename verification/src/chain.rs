//! The ledger that an asset is anchored to.

use vstd::prelude::*;

verus! {

/// `lnpbp::chain::Chain`: the identity and parameters of a ledger. The
/// library hands such values on and never looks inside.
#[verifier::external_type_specification]
#[verifier::external_body]
pub struct ExChain(lnpbp::chain::Chain);

/// `Clone::clone` of `lnpbp::chain::Chain`, which the crate derives for the
/// enum and for the chain parameters inside it. Trusted: the copy equals the
/// chain it was taken from.
pub assume_specification[ <lnpbp::chain::Chain as Clone>::clone ](
    chain: &lnpbp::chain::Chain,
) -> (copy: lnpbp::chain::Chain)
    ensures
        copy == *chain,
;

} // verus!
