//! Runtime type-identity tokens, backing the `is_type` extension of the
//! union family. A token is `core::any::TypeId`, obtained per type and
//! compared by equality; the comparison's outcome is outside the
//! specification language, so nothing is assumed of it.

use vstd::prelude::*;

verus! {

/// `core::any::TypeId`, declared so that identity tokens can be carried
/// and compared; Verus treats the type as opaque.
#[verifier::external_type_specification]
#[verifier::external_body]
pub struct ExTypeId(core::any::TypeId);

/// Relies on `core::any::TypeId::of`: the identity token of a `'static`
/// type. Tokens are not stable across builds, so no value is assumed.
pub assume_specification<T: 'static + ?Sized>[ core::any::TypeId::of::<T> ]() -> core::any::TypeId;

/// Relies on `TypeId`'s `PartialEq`: token equality decides runtime type
/// identity; the outcome is not modeled in specifications.
pub assume_specification[ <core::any::TypeId as PartialEq>::eq ](
    a: &core::any::TypeId,
    b: &core::any::TypeId,
) -> bool;

} // verus!
