//! Identity of each entity of the line, drawn from the `uuid` crate.
use vstd::prelude::*;

verus! {

/// The identifier type of `uuid`, carried through as an opaque value.
#[verifier::external_type_specification]
#[verifier::external_body]
pub struct ExUuid(uuid::Uuid);

/// Relies on `uuid::Uuid::new_v4`: a random identifier; nothing is promised of its value.
pub assume_specification[ uuid::Uuid::new_v4 ]() -> uuid::Uuid;

} // verus!
