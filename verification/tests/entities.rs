use entity_client::element_value::{get_id, has_fitting_id};
use entity_client::{
    ElementType, ElementValue, Identifier, ParsedEntity, StringTable, TypeModel,
};

fn model(element_type: ElementType) -> TypeModel {
    TypeModel {
        version: "1".to_string(),
        element_type,
        fields: StringTable::new(),
        associations: StringTable::new(),
    }
}

fn entity_with(id: ElementValue) -> ParsedEntity {
    let mut entity = ParsedEntity::new();
    entity.insert("_id".to_string(), id);
    entity
}

#[test]
fn the_identifier_is_read_from_the_id_field() {
    let simple = Identifier::Simple("O2kAAA".to_string());
    let entity = entity_with(ElementValue::Id(simple.clone()));
    assert_eq!(get_id(&entity), Some(&simple));
    let mut elsewhere = ParsedEntity::new();
    elsewhere.insert("id".to_string(), ElementValue::Id(simple.clone()));
    assert_eq!(get_id(&elsewhere), None);
    assert_eq!(get_id(&entity_with(ElementValue::String("O2kAAA".to_string()))), None);
    assert_eq!(get_id(&ParsedEntity::new()), None);
}

#[test]
fn a_single_element_needs_a_simple_identifier() {
    let simple = entity_with(ElementValue::Id(Identifier::Simple("a".to_string())));
    let composite =
        entity_with(ElementValue::Id(Identifier::Composite("l".to_string(), "e".to_string())));
    assert!(has_fitting_id(&simple, &model(ElementType::Element)));
    assert!(!has_fitting_id(&composite, &model(ElementType::Element)));
}

#[test]
fn a_list_element_needs_a_composite_identifier() {
    let simple = entity_with(ElementValue::Id(Identifier::Simple("a".to_string())));
    let composite =
        entity_with(ElementValue::Id(Identifier::Composite("l".to_string(), "e".to_string())));
    assert!(!has_fitting_id(&simple, &model(ElementType::ListElement)));
    assert!(has_fitting_id(&composite, &model(ElementType::ListElement)));
}

#[test]
fn an_entity_without_an_identifier_fits_no_type() {
    let number = entity_with(ElementValue::Number(7));
    assert!(!has_fitting_id(&number, &model(ElementType::Element)));
    assert!(!has_fitting_id(&ParsedEntity::new(), &model(ElementType::ListElement)));
}

#[test]
fn a_record_can_hold_every_kind_of_value() {
    let mut inner = ParsedEntity::new();
    inner.insert("name".to_string(), ElementValue::String("Bob".to_string()));
    let mut entity = ParsedEntity::new();
    entity.insert("text".to_string(), ElementValue::String("Hi".to_string()));
    entity.insert("count".to_string(), ElementValue::Number(-3));
    entity.insert("read".to_string(), ElementValue::Bool(true));
    entity.insert("sent".to_string(), ElementValue::Date(1_700_000_000_000));
    entity.insert("blob".to_string(), ElementValue::Bytes(vec![1, 2, 3]));
    entity.insert("sender".to_string(), ElementValue::Dict(inner));
    assert_eq!(entity.len(), 6);
    assert!(matches!(entity.get("count"), Some(ElementValue::Number(-3))));
    assert!(matches!(entity.get("read"), Some(ElementValue::Bool(true))));
    assert!(matches!(entity.get("sent"), Some(ElementValue::Date(1_700_000_000_000))));
    match entity.get("blob") {
        Some(ElementValue::Bytes(bytes)) => assert_eq!(bytes, &vec![1u8, 2, 3]),
        other => panic!("no bytes: {:?}", other),
    }
    match entity.get("sender") {
        Some(ElementValue::Dict(sender)) => {
            assert!(matches!(sender.get("name"), Some(ElementValue::String(name)) if name == "Bob"))
        }
        other => panic!("no record: {:?}", other),
    }
}
