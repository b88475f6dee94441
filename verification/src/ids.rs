//! Random identifiers.

use uuid::Uuid;
use vstd::prelude::*;

verus! {

/// `uuid::Uuid`: an identifier of 128 bits, opaque to the proofs.
#[verifier::external_type_specification]
#[verifier::external_body]
pub struct ExUuid(Uuid);

/// `uuid::Uuid::new_v4`: a random identifier.  Which one is a matter of
/// chance: nothing is promised of it.
#[verifier::external_body]
pub(crate) fn random_uuid() -> Uuid {
    Uuid::new_v4()
}

/// The text of an identifier as `uuid::Uuid` displays it: its hyphenated
/// form, which has thirty-six characters.
#[verifier::external_body]
pub(crate) fn uuid_text(id: &Uuid) -> (text: String)
    ensures
        text@.len() == 36,
{
    id.to_string()
}

/// The text of a fresh random identifier.
pub fn new_simulation_id() -> (id: String)
    ensures
        id@.len() == 36,
{
    let id = random_uuid();
    uuid_text(&id)
}

} // verus!
