//! JSON text to and from wire records, as `serde_json` reads and writes it.

use vstd::prelude::*;

verus! {

/// `serde_json::Map`, the JSON object. Nothing inside it is visible to the proofs.
#[verifier::external_type_specification]
#[verifier::external_body]
#[verifier::reject_recursive_types(K)]
#[verifier::reject_recursive_types(V)]
pub struct ExJsonMap<K, V>(serde_json::Map<K, V>);

/// `serde_json::Value`, any JSON value. Nothing inside it is visible to the proofs.
#[verifier::external_type_specification]
#[verifier::external_body]
pub struct ExJsonValue(serde_json::Value);

/// `serde_json::Error`. Nothing inside it is visible to the proofs.
#[verifier::external_type_specification]
#[verifier::external_body]
pub struct ExJsonError(serde_json::Error);

/// An entity as it travels: a JSON object from field names to JSON values.
pub type RawEntity = serde_json::Map<String, serde_json::Value>;

/// The wire record that `serde_json::from_slice` reads from the bytes, or `None` where it
/// reports an error.
pub uninterp spec fn parsed_json(bytes: Seq<u8>) -> Option<RawEntity>;

/// The bytes that `serde_json::to_vec` writes for the wire record, or `None` where it
/// reports an error.
pub uninterp spec fn written_json(entity: RawEntity) -> Option<Seq<u8>>;

/// Calls `serde_json::from_slice` for a JSON object. The outcome depends on the bytes
/// alone: the same bytes give the same wire record, or fail, every time.
#[verifier::external_body]
pub(crate) fn parse_json(bytes: &[u8]) -> (parsed: Result<RawEntity, serde_json::Error>)
    ensures
        match parsed {
            Ok(entity) => parsed_json(bytes@) == Some(entity),
            Err(_) => parsed_json(bytes@) is None,
        },
{
    serde_json::from_slice::<RawEntity>(bytes)
}

/// Calls `serde_json::to_vec` on a wire record. The outcome depends on the record
/// alone: the same record gives the same bytes, or fails, every time.
#[verifier::external_body]
pub(crate) fn write_json(entity: &RawEntity) -> (written: Result<Vec<u8>, serde_json::Error>)
    ensures
        match written {
            Ok(bytes) => written_json(*entity) == Some(bytes@),
            Err(_) => written_json(*entity) is None,
        },
{
    serde_json::to_vec(entity)
}

} // verus!
