//! The interface of the entity codec, which turns wire records into entities and back.

use vstd::prelude::*;
use crate::element_value::ParsedEntity;
use crate::error::CodecError;
use crate::json::RawEntity;
use crate::type_model::{TypeModel, TypeRef};

verus! {

/// Converts between wire records and entities in memory, guided by the model of the type.
///
/// The library does not look into what a codec returns: it hands the codec the type,
/// its model and the record, and passes the outcome on.
pub trait EntityCodec {
    /// Reads a wire record as an entity of the type.
    fn parse(&self, type_ref: &TypeRef, type_model: &TypeModel, raw_entity: RawEntity) -> Result<
        ParsedEntity,
        CodecError,
    >;

    /// Writes an entity of the type as a wire record.
    fn serialize(&self, type_ref: &TypeRef, type_model: &TypeModel, entity: ParsedEntity) -> Result<
        RawEntity,
        CodecError,
    >;
}

} // verus!
