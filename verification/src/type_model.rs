//! Type references, type models and the registry that maps the one to the other.

use vstd::prelude::*;
use crate::table::StringTable;

verus! {

/// Names an entity type: the application (the namespace) it belongs to and its name there.
#[derive(Clone, Debug, PartialEq, Eq)]
pub struct TypeRef {
    pub app: String,
    pub type_: String,
}

/// Whether the instances of a type stand alone or are elements of a list.
#[derive(Clone, Copy, Debug, PartialEq, Eq, Structural)]
pub enum ElementType {
    /// Instances are addressed by a simple identifier.
    Element,
    /// Instances are addressed by a composite identifier: the list's, then the element's.
    ListElement,
}

/// The kind of value that a field of a type holds.
#[derive(Clone, Copy, Debug, PartialEq, Eq, Structural)]
pub enum ValueType {
    String,
    Number,
    Boolean,
    Date,
    Bytes,
    Id,
}

/// What a field that points to another type holds.
#[derive(Clone, Copy, Debug, PartialEq, Eq, Structural)]
pub enum AssociationType {
    /// The composite identifier of an element of a list.
    ListElementAssociation,
    /// A record of the other type, held in place.
    Aggregation,
}

/// The structure of one entity type: its version, its fields and its associations.
#[derive(Clone, Debug)]
pub struct TypeModel {
    /// The version of the model, as decimal text.
    pub version: String,
    pub element_type: ElementType,
    /// The value fields, by name.
    pub fields: StringTable<ValueType>,
    /// The fields that point to other types, by name.
    pub associations: StringTable<AssociationType>,
}

/// The registry of type models: for each application, the models of its types by name.
#[derive(Clone, Debug)]
pub struct TypeModelProvider {
    apps: StringTable<StringTable<TypeModel>>,
}

/// The model that a registry holds for a type, if it holds one.
pub open spec fn lookup(
    apps: Map<Seq<char>, StringTable<TypeModel>>,
    app: Seq<char>,
    type_: Seq<char>,
) -> Option<TypeModel> {
    if apps.dom().contains(app) && apps[app]@.dom().contains(type_) {
        Some(apps[app]@[type_])
    } else {
        None
    }
}

impl TypeModelProvider {
    /// The applications of the registry, each with the models of its types.
    pub closed spec fn view(&self) -> Map<Seq<char>, StringTable<TypeModel>> {
        self.apps@
    }

    /// The model registered for the type, if there is one.
    pub open spec fn model_of(&self, app: Seq<char>, type_: Seq<char>) -> Option<
        TypeModel,
    > {
        lookup(self@, app, type_)
    }

    /// A registry without models.
    pub fn new() -> (provider: Self)
        ensures
            forall|app: Seq<char>, type_: Seq<char>|
                provider.model_of(app, type_) is None,
    {
        TypeModelProvider { apps: StringTable::new() }
    }

    /// Registers the model of a type, in place of the model that was registered for it,
    /// if any. The models of all other types stay as they are.
    pub fn register(&mut self, app: String, type_: String, model: TypeModel)
        ensures
            final(self).model_of(app@, type_@) == Some(model),
            forall|other_app: Seq<char>, other_type: Seq<char>|
                !(other_app == app@ && other_type == type_@) ==> final(self).model_of(
                    other_app,
                    other_type,
                ) == old(self).model_of(other_app, other_type),
    {
        let mut types = match self.apps.remove(app.as_str()) {
            Some(types) => types,
            None => StringTable::new(),
        };
        types.insert(type_, model);
        self.apps.insert(app, types);
    }

    /// Looks up the model of a type.
    pub fn get_type_model(&self, app: &str, type_: &str) -> (model: Option<&TypeModel>)
        ensures
            match model {
                Some(model) => self.model_of(app@, type_@) == Some(*model),
                None => self.model_of(app@, type_@) is None,
            },
    {
        match self.apps.get(app) {
            Some(types) => types.get(type_),
            None => None,
        }
    }
}

} // verus!
