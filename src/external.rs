//! Declarations of the outside types that pass through the library.
use vstd::prelude::*;

verus! {

/// An event component of the `ical` crate's generator, carried through opaque.
#[verifier::external_type_specification]
#[verifier::external_body]
pub struct ExIcalEvent(ical::generator::IcalEvent);

} // verus!
