//! Types shared across the router: amounts, the clock, and the outside types that
//! the domain models carry through unchanged.
use vstd::prelude::*;

verus! {

/// The `time` crate's calendar date and time without an offset; carried
/// through as an opaque value.
#[verifier::external_type_specification]
#[verifier::external_body]
pub struct ExPrimitiveDateTime(time::PrimitiveDateTime);

/// A JSON document of `serde_json`; carried through as an opaque value.
#[verifier::external_type_specification]
#[verifier::external_body]
pub struct ExJsonValue(serde_json::Value);

/// An amount in the currency's minor unit (for example cents).
#[derive(Clone, Copy, Debug, PartialEq, Eq, Structural)]
pub struct MinorUnit(pub i64);

/// Reads the system clock through `time::OffsetDateTime::now_utc` and keeps
/// its date and time (`time::PrimitiveDateTime::new`), dropping the UTC
/// offset. Nothing is claimed of the result: it depends on the clock.
#[verifier::external_body]
pub(crate) fn now() -> (res: time::PrimitiveDateTime) {
    let utc_date_time = time::OffsetDateTime::now_utc();
    time::PrimitiveDateTime::new(utc_date_time.date(), utc_date_time.time())
}

} // verus!
