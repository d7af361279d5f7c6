//! Declarations of the outside failure types that the error taxonomy carries
//! as payloads. Both are opaque: nothing of their behaviour is assumed here.

use serde_json::Error as SerdeJsonError;
use vstd::prelude::*;

verus! {

/// Declares `std::io::Error` so the taxonomy's I/O variant can carry one.
#[verifier::external_type_specification]
#[verifier::external_body]
pub struct ExIoError(std::io::Error);

/// Declares `serde_json::Error` so the taxonomy's serialization variant can
/// carry one.
#[verifier::external_type_specification]
#[verifier::external_body]
pub struct ExJsonError(SerdeJsonError);

} // verus!
