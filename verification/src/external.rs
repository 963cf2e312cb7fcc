//! Outside types that the data model carries, and the calls into the
//! outside crates that the logic makes.

use vstd::prelude::*;

verus! {

/// `uuid::Uuid`, carried opaquely.
#[verifier::external_type_specification]
#[verifier::external_body]
pub struct ExUuid(uuid::Uuid);

/// `chrono::TimeDelta` (`chrono::Duration`), carried opaquely.
#[verifier::external_type_specification]
#[verifier::external_body]
pub struct ExTimeDelta(chrono::TimeDelta);

/// `serde_json::Value`, a parsed JSON document, carried opaquely (the
/// library reads documents in its own form, [`crate::json::JsonValue`]).
#[verifier::external_type_specification]
#[verifier::external_body]
pub struct ExJsonDocument(serde_json::Value);

/// `Uuid::clone` (`Uuid` is `Copy`): the clone is the same identifier.
pub assume_specification[ <uuid::Uuid as Clone>::clone ](u: &uuid::Uuid) -> (r: uuid::Uuid)
    ensures
        r == *u,
;

} // verus!
