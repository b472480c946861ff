//! The bridge to `uuid::Uuid`.
//!
//! An identifier and a UUID share one layout of sixteen bytes, so passing from
//! one to the other moves the bytes and changes nothing in them.

use uuid::Uuid;
use vstd::prelude::*;

verus! {

/// `uuid::Uuid`. The proofs see nothing of its inside; they speak of it
/// through [`uuid_bytes`].
#[verifier::external_type_specification]
#[verifier::external_body]
pub struct ExUuid(uuid::Uuid);

/// The sixteen bytes that a `Uuid` holds, in the order in which it stores them.
pub uninterp spec fn uuid_bytes(id: Uuid) -> Seq<u8>;

/// `Uuid::from_bytes`, taken on trust: the UUID holds the bytes it was given.
pub assume_specification[ Uuid::from_bytes ](bytes: uuid::Bytes) -> (id: Uuid)
    ensures
        uuid_bytes(id) == bytes@,
;

/// `Uuid::into_bytes`, taken on trust: it hands out the bytes that the UUID holds.
pub assume_specification[ Uuid::into_bytes ](id: Uuid) -> (bytes: uuid::Bytes)
    ensures
        bytes@ == uuid_bytes(id),
;

} // verus!
