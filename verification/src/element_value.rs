//! Entities in memory: records from field names to typed values.

use vstd::prelude::*;
use crate::id::Identifier;
use crate::table::StringTable;
use crate::type_model::{ElementType, TypeModel};

verus! {

/// The value of one field of an entity.
#[derive(Debug)]
pub enum ElementValue {
    String(String),
    Number(i64),
    Bool(bool),
    /// A point in time, in milliseconds since the Unix epoch.
    Date(u64),
    Bytes(Vec<u8>),
    /// An identifier: the entity's own, or that of an entity it points to.
    Id(Identifier),
    /// A record held in place.
    Dict(ParsedEntity),
}

/// An entity in memory: its fields by name.
pub type ParsedEntity = StringTable<ElementValue>;

/// The name of the field that holds an entity's own identifier.
pub const ID_FIELD: &'static str = "_id";

/// The identifier that an entity carries in its `_id` field, if it carries one there.
pub open spec fn entity_id(entity: Map<Seq<char>, ElementValue>) -> Option<Identifier> {
    if entity.dom().contains(ID_FIELD@) {
        match entity[ID_FIELD@] {
            ElementValue::Id(id) => Some(id),
            _ => None,
        }
    } else {
        None
    }
}

/// The identifier of an entity, if its `_id` field holds one.
pub fn get_id(entity: &ParsedEntity) -> (id: Option<&Identifier>)
    ensures
        match id {
            Some(id) => entity_id(entity@) == Some(*id),
            None => entity_id(entity@) is None,
        },
{
    match entity.get(ID_FIELD) {
        Some(ElementValue::Id(id)) => Some(id),
        _ => None,
    }
}

/// Whether the identifier has the shape that the kind of type asks for: a simple one for
/// a type whose instances stand alone, a composite one for a type of list elements.
pub open spec fn id_fits(element_type: ElementType, id: Identifier) -> bool {
    match element_type {
        ElementType::Element => id is Simple,
        ElementType::ListElement => id is Composite,
    }
}

/// Whether the entity carries, in its `_id` field, an identifier of the shape that its
/// type asks for.
pub fn has_fitting_id(entity: &ParsedEntity, type_model: &TypeModel) -> (fits: bool)
    ensures
        fits == match entity_id(entity@) {
            Some(id) => id_fits(type_model.element_type, id),
            None => false,
        },
{
    match get_id(entity) {
        Some(Identifier::Simple(_)) => match type_model.element_type {
            ElementType::Element => true,
            ElementType::ListElement => false,
        },
        Some(Identifier::Composite(_, _)) => match type_model.element_type {
            ElementType::Element => false,
            ElementType::ListElement => true,
        },
        None => false,
    }
}

} // verus!
