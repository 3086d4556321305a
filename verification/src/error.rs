//! What can go wrong in a call, and how each failure reads as a message.

use vstd::prelude::*;
use vstd::string::*;
use crate::id::{IdType, Identifier};
use crate::text::{contains_text, decimal_text, lemma_contains_middle, render_decimal};

verus! {

/// A failure of the transport: the request got no response.
#[derive(Clone, Debug, PartialEq, Eq)]
pub struct TransportError {
    pub message: String,
}

/// A failure of the entity codec: a record did not fit the type model.
#[derive(Clone, Debug, PartialEq, Eq)]
pub struct CodecError {
    pub message: String,
}

/// Why a call failed.
#[derive(Clone, Debug, PartialEq, Eq)]
pub enum ApiCallError {
    /// No type model is registered for the type.
    SchemaNotFound { app: String, type_: String },
    /// The version of the type's model is not a number.
    InvalidSchemaVersion { app: String, type_: String, version: String },
    /// The entity does not carry the kind of identifier that the operation needs:
    /// `found` is the identifier it carries in its place, if it carries one at all.
    MalformedIdentifier { app: String, type_: String, found: Option<Identifier> },
    /// The server or the library broke a rule that both are bound to.
    InternalSdkError { error_message: String },
    /// The server answered, and declined: its status, and the reason it gave in the
    /// `precondition` header, if it gave one.
    ServerRejected { status: u32, precondition_token: Option<String> },
    /// The body was not the JSON text of a wire record, or a wire record could not
    /// be written as JSON text.
    WireFormat { detail: String },
    /// The entity codec failed.
    Codec { cause: CodecError },
    /// The transport failed.
    Transport { cause: TransportError },
}

/// The message of the failure to find a type model.
pub open spec fn schema_not_found_text(app: Seq<char>, type_: Seq<char>) -> Seq<char> {
    "Model "@ + type_ + " not found in app "@ + app
}

/// The message of the failure to read a model's version.
pub open spec fn invalid_version_text(version: Seq<char>) -> Seq<char> {
    "Tried to parse invalid model_version "@ + version
}

/// The message of an entity without a usable identifier.
pub open spec fn malformed_identifier_text(
    app: Seq<char>,
    type_: Seq<char>,
    found: Option<Identifier>,
) -> Seq<char> {
    let head = "Entity of type "@ + app + "/"@ + type_ + " has no list element id in _id"@;
    match found {
        Some(id) => head + ", found "@ + id.rendering(),
        None => head,
    }
}

/// The message of a response that the server declined.
pub open spec fn server_rejected_text(status: u32, precondition_token: Option<String>) -> Seq<
    char,
> {
    let head = "Server responded with status "@ + decimal_text(status as nat);
    match precondition_token {
        Some(token) => head + ", precondition "@ + token@,
        None => head,
    }
}

impl ApiCallError {
    /// The failure as a message for people.
    pub open spec fn message_text(&self) -> Seq<char> {
        match self {
            ApiCallError::SchemaNotFound { app, type_ } => schema_not_found_text(app@, type_@),
            ApiCallError::InvalidSchemaVersion { version, .. } => invalid_version_text(version@),
            ApiCallError::MalformedIdentifier { app, type_, found } => malformed_identifier_text(
                app@,
                type_@,
                *found,
            ),
            ApiCallError::InternalSdkError { error_message } => error_message@,
            ApiCallError::ServerRejected { status, precondition_token } => server_rejected_text(
                *status,
                *precondition_token,
            ),
            ApiCallError::WireFormat { detail } => detail@,
            ApiCallError::Codec { cause } => cause.message@,
            ApiCallError::Transport { cause } => cause.message@,
        }
    }

    /// Writes the failure as a message for people.
    pub fn message(&self) -> (text: String)
        ensures
            text@ == self.message_text(),
    {
        match self {
            ApiCallError::SchemaNotFound { app, type_ } => {
                let mut text = String::from_str("Model ");
                text.append(type_.as_str());
                text.append(" not found in app ");
                text.append(app.as_str());
                text
            },
            ApiCallError::InvalidSchemaVersion { version, .. } => {
                let mut text = String::from_str("Tried to parse invalid model_version ");
                text.append(version.as_str());
                text
            },
            ApiCallError::MalformedIdentifier { app, type_, found } => {
                let mut text = String::from_str("Entity of type ");
                text.append(app.as_str());
                text.append("/");
                text.append(type_.as_str());
                text.append(" has no list element id in _id");
                match found {
                    Some(id) => {
                        let id_text = id.render();
                        text.append(", found ");
                        text.append(id_text.as_str());
                    },
                    None => {},
                }
                text
            },
            ApiCallError::InternalSdkError { error_message } => error_message.clone(),
            ApiCallError::ServerRejected { status, precondition_token } => {
                let mut text = String::from_str("Server responded with status ");
                let number = render_decimal(*status);
                text.append(number.as_str());
                match precondition_token {
                    Some(token) => {
                        text.append(", precondition ");
                        text.append(token.as_str());
                    },
                    None => {},
                }
                text
            },
            ApiCallError::WireFormat { detail } => detail.clone(),
            ApiCallError::Codec { cause } => cause.message.clone(),
            ApiCallError::Transport { cause } => cause.message.clone(),
        }
    }
}

/// The message of a missing type model names both the application and the type.
pub proof fn lemma_schema_not_found_names_type(error: ApiCallError)
    requires
        error is SchemaNotFound,
    ensures
        contains_text(error.message_text(), error->SchemaNotFound_app@),
        contains_text(error.message_text(), error->SchemaNotFound_type_@),
{
    let app = error->SchemaNotFound_app@;
    let type_ = error->SchemaNotFound_type_@;
    lemma_contains_middle("Model "@, type_, " not found in app "@ + app);
    assert("Model "@ + type_ + (" not found in app "@ + app) =~= error.message_text());
    lemma_contains_middle("Model "@ + type_ + " not found in app "@, app, Seq::<char>::empty());
    assert("Model "@ + type_ + " not found in app "@ + app + Seq::<char>::empty()
        =~= error.message_text());
}

} // verus!
