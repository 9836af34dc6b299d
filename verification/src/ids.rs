//! Identifiers of tickets, solutions and stored records.

use vstd::prelude::*;

verus! {

/// `uuid::Uuid`, carried through the library as an opaque value.
#[verifier::external_type_specification]
#[verifier::external_body]
pub struct ExUuid(uuid::Uuid);

/// `Clone::clone` of `uuid::Uuid`, which the crate derives for a type that is
/// `Copy`: the clone is the identifier itself. The derived `Clone` of every
/// record that holds an identifier calls it.
pub assume_specification[ <uuid::Uuid as Clone>::clone ](id: &uuid::Uuid) -> (copy: uuid::Uuid)
    ensures
        copy == *id,
;

/// Draws a random identifier with `uuid::Uuid::new_v4`. Nothing is claimed
/// of the value. On a machine that has no source of randomness the call
/// does not return.
#[verifier::external_body]
pub(crate) fn new_id() -> uuid::Uuid {
    uuid::Uuid::new_v4()
}

} // verus!
