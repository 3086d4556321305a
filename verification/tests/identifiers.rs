use entity_client::{IdType, Identifier};

#[test]
fn simple_identifier_renders_as_itself() {
    assert_eq!(Identifier::Simple("abc".to_string()).render(), "abc");
}

#[test]
fn composite_identifier_renders_with_a_slash() {
    let id = Identifier::Composite("L".to_string(), "E".to_string());
    assert_eq!(id.render(), "L/E");
}

#[test]
fn rendering_is_stable() {
    let id = Identifier::Composite("listA".to_string(), "elemB".to_string());
    assert_eq!(id.render(), id.render());
    assert_eq!(id.clone().render(), "listA/elemB");
}

#[test]
fn empty_parts_still_render_around_the_slash() {
    let id = Identifier::Composite(String::new(), String::new());
    assert_eq!(id.render(), "/");
    assert_eq!(Identifier::Simple(String::new()).render(), "");
}

/// An identifier of the caller's own making.
struct Numbered(u32);

impl IdType for Numbered {
    fn render(&self) -> String {
        format!("n{}", self.0)
    }
}

#[test]
fn a_custom_identifier_renders_through_the_trait() {
    fn rendered<Id: IdType>(id: &Id) -> String {
        id.render()
    }
    assert_eq!(rendered(&Numbered(7)), "n7");
    assert_eq!(rendered(&Identifier::Simple("abc".to_string())), "abc");
}
