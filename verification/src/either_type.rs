use vstd::prelude::*;

verus! {

/// `either::Either`, the sum of two types, with its two variants `Left` and
/// `Right` as the crate defines them. Nothing is assumed of it beyond that
/// definition.
#[verifier::external_type_specification]
#[verifier::reject_recursive_types(L)]
#[verifier::reject_recursive_types(R)]
pub struct ExEither<L, R>(either::Either<L, R>);

} // verus!
