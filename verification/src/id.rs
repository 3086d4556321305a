//! Identifiers of entities and how they are written into a URL path.

use vstd::prelude::*;
use vstd::string::*;

verus! {

/// An identifier that can be written as text and used to address a resource.
///
/// The library puts the text into the path of a URL as it is: an implementation
/// returns text that needs no escaping there.
pub trait IdType {
    /// Writes the identifier as text.
    fn render(&self) -> String;
}

/// The two shapes an identifier can take.
#[derive(Clone, Debug, PartialEq, Eq)]
pub enum Identifier {
    /// The identifier of a single element: one opaque string.
    Simple(String),
    /// The identifier of an element of a list: the list's identifier, then the element's.
    Composite(String, String),
}

/// The text of a composite identifier: the list's identifier, a slash, the element's.
pub open spec fn composite_rendering(list_id: Seq<char>, element_id: Seq<char>) -> Seq<char> {
    list_id + seq!['/'] + element_id
}

/// Writes a composite identifier as text.
pub fn render_composite(list_id: &str, element_id: &str) -> (text: String)
    ensures
        text@ == composite_rendering(list_id@, element_id@),
{
    let mut text = String::from_str(list_id);
    text.append("/");
    text.append(element_id);
    proof {
        reveal_strlit("/");
        assert("/"@ =~= seq!['/']);
    }
    text
}

impl Identifier {
    /// The text that stands for the identifier in a URL path: a simple identifier as it
    /// is, a composite one as the list's identifier, a slash and the element's.
    pub open spec fn rendering(&self) -> Seq<char> {
        match self {
            Identifier::Simple(id) => id@,
            Identifier::Composite(list_id, element_id) => composite_rendering(list_id@, element_id@),
        }
    }
}

impl IdType for Identifier {
    fn render(&self) -> (text: String)
        ensures
            text@ == self.rendering(),
    {
        match self {
            Identifier::Simple(id) => id.clone(),
            Identifier::Composite(list_id, element_id) => render_composite(
                list_id.as_str(),
                element_id.as_str(),
            ),
        }
    }
}

/// Whatever an identifier renders as is its rendering: a simple identifier renders as
/// its one string, a composite one as the list's identifier, a slash and the element's.
/// So an identifier renders alike every time.
pub proof fn lemma_rendering_is_stable(id: Identifier, first: String, second: String)
    requires
        call_ensures(<Identifier as IdType>::render, (&id,), first),
        call_ensures(<Identifier as IdType>::render, (&id,), second),
    ensures
        first@ == second@,
        id matches Identifier::Simple(text) ==> first@ == text@,
        id matches Identifier::Composite(list_id, element_id) ==> first@ == list_id@ + seq!['/']
            + element_id@,
{
}

} // verus!
