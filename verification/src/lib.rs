//! A schema-driven client for typed entities behind a REST interface.
//!
//! The library decides and checks; it does not talk to the network. For each operation
//! the [`EntityClient`] says which request to send and what the response amounts to.
//! The transport is the caller's, and so are the provider of authentication headers and
//! the entity codec, which the client calls through their interfaces.

pub mod auth;
pub mod client;
pub mod codec;
pub mod element_value;
pub mod error;
pub mod id;
pub mod json;
pub mod rest;
pub mod table;
pub mod text;
pub mod type_model;
pub mod version;

pub use crate::auth::AuthHeadersProvider;
pub use crate::client::EntityClient;
pub use crate::codec::EntityCodec;
pub use crate::element_value::{ElementValue, ParsedEntity};
pub use crate::error::{ApiCallError, CodecError, TransportError};
pub use crate::id::{IdType, Identifier};
pub use crate::json::RawEntity;
pub use crate::rest::{HttpMethod, RestRequest, RestResponse};
pub use crate::table::StringTable;
pub use crate::type_model::{
    AssociationType, ElementType, TypeModel, TypeModelProvider, TypeRef, ValueType,
};
