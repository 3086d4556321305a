//! The entity client: what to ask the server for, and what to make of its answer.
//!
//! The client does not talk to the network. Each operation comes in two steps: the first
//! resolves the type and returns the request to send, the second takes what the
//! transport got back and returns the operation's result.

use std::sync::Arc;
use vstd::prelude::*;
use crate::auth::AuthHeadersProvider;
use crate::codec::EntityCodec;
use crate::element_value::{entity_id, get_id, ParsedEntity};
use crate::error::{
    lemma_schema_not_found_names_type, ApiCallError, CodecError, TransportError,
};
use crate::id::{composite_rendering, render_composite, IdType, Identifier};
use crate::json::{parse_json, parsed_json, write_json, written_json, RawEntity};
use crate::rest::{
    build_entity_url, entity_url, HttpMethod, RestRequest, RestResponse, MISSING_BODY_MESSAGE,
};
use crate::text::contains_text;
use crate::type_model::{TypeModel, TypeModelProvider, TypeRef};
use crate::version::{parse_model_version, parse_version};

verus! {

/// A high level interface to read and change entities through the REST interface.
pub struct EntityClient<C: EntityCodec, A: AuthHeadersProvider> {
    json_serializer: Arc<C>,
    base_url: String,
    sdk_state: Arc<A>,
    type_model_provider: Arc<TypeModelProvider>,
}

/// The failure to find a model for the type.
pub open spec fn missing_schema(type_ref: TypeRef) -> ApiCallError {
    ApiCallError::SchemaNotFound { app: type_ref.app, type_: type_ref.type_ }
}

/// The failure to read the version of the type's model.
pub open spec fn invalid_version(type_ref: TypeRef, model: TypeModel) -> ApiCallError {
    ApiCallError::InvalidSchemaVersion {
        app: type_ref.app,
        type_: type_ref.type_,
        version: model.version,
    }
}

/// The model as a lookup returned it, or the failure, without the borrow.
pub open spec fn lookup_outcome(found: Result<&TypeModel, ApiCallError>) -> Result<
    TypeModel,
    ApiCallError,
> {
    match found {
        Ok(model) => Ok(*model),
        Err(error) => Err(error),
    }
}

/// What the codec's outcome is passed on as: its value, or its failure wrapped.
pub open spec fn codec_outcome<T>(outcome: Result<T, CodecError>) -> Result<T, ApiCallError> {
    match outcome {
        Ok(value) => Ok(value),
        Err(cause) => Err(ApiCallError::Codec { cause }),
    }
}

/// Whether `body` is what the codec's outcome `encoded` is sent as: the codec's failure
/// wrapped, or a failure to write the record as JSON text, or that text.
pub open spec fn encoded_body(
    encoded: Result<RawEntity, CodecError>,
    body: Result<Vec<u8>, ApiCallError>,
) -> bool {
    match encoded {
        Err(cause) => body == Err::<Vec<u8>, ApiCallError>(ApiCallError::Codec { cause }),
        Ok(raw_entity) => match written_json(raw_entity) {
            None => body matches Err(ApiCallError::WireFormat { .. }),
            Some(bytes) => body matches Ok(written) && written@ == bytes,
        },
    }
}

/// Passes the codec's outcome on.
pub fn wrap_codec_outcome<T>(outcome: Result<T, CodecError>) -> (result: Result<T, ApiCallError>)
    ensures
        result == codec_outcome(outcome),
{
    match outcome {
        Ok(value) => Ok(value),
        Err(cause) => Err(ApiCallError::Codec { cause }),
    }
}

/// Writes the codec's outcome as the body of a request.
pub fn write_body(encoded: Result<RawEntity, CodecError>) -> (body: Result<Vec<u8>, ApiCallError>)
    ensures
        encoded_body(encoded, body),
{
    match encoded {
        Err(cause) => Err(ApiCallError::Codec { cause }),
        Ok(raw_entity) => match write_json(&raw_entity) {
            Err(error) => Err(ApiCallError::WireFormat { detail: error.to_string() }),
            Ok(body) => Ok(body),
        },
    }
}

impl<C: EntityCodec, A: AuthHeadersProvider> EntityClient<C, A> {
    /// The codec that the client hands records to.
    pub closed spec fn codec(&self) -> C {
        *self.json_serializer
    }

    /// The provider that the client asks for authentication headers.
    pub closed spec fn auth(&self) -> A {
        *self.sdk_state
    }

    /// The address of the server that every request begins with.
    pub closed spec fn base_url(&self) -> Seq<char> {
        self.base_url@
    }

    /// The registry in which the client looks types up.
    pub closed spec fn models(&self) -> TypeModelProvider {
        *self.type_model_provider
    }

    /// The model of the type, or the failure to find it.
    pub open spec fn resolved_model(&self, type_ref: &TypeRef) -> Result<TypeModel, ApiCallError> {
        match self.models().model_of(type_ref.app@, type_ref.type_@) {
            Some(model) => Ok(model),
            None => Err(missing_schema(*type_ref)),
        }
    }

    /// The version of the model of the type as a number, or the failure to find the
    /// model, or the failure to read its version.
    pub open spec fn resolved_version(&self, type_ref: &TypeRef) -> Result<u32, ApiCallError> {
        match self.resolved_model(type_ref) {
            Err(error) => Err(error),
            Ok(model) => match parse_version(model.version@) {
                Some(version) => Ok(version),
                None => Err(invalid_version(*type_ref, model)),
            },
        }
    }

    /// Whether `result` is what `load` returns for the type and the identifier: the
    /// failure to resolve the type, or else the GET request to the entity's address, with
    /// headers that the provider gives for the version of the type's model, and no body.
    /// The last segment of the address is a text that the identifier renders as.
    pub open spec fn load_result<Id: IdType>(
        &self,
        type_ref: &TypeRef,
        id: &Id,
        result: Result<RestRequest, ApiCallError>,
    ) -> bool {
        match self.resolved_version(type_ref) {
            Err(error) => result == Err::<RestRequest, ApiCallError>(error),
            Ok(version) => {
                &&& result matches Ok(request)
                &&& request.method == HttpMethod::GET
                &&& exists|id_text: String|
                    #![auto]
                    call_ensures(Id::render, (id,), id_text) && request.url@ == entity_url(
                        self.base_url(),
                        type_ref.app@,
                        type_ref.type_@,
                        id_text@,
                    )
                &&& call_ensures(A::create_auth_headers, (&self.auth(), version), request.headers)
                &&& request.body is None
            },
        }
    }

    /// Whether `result` is what `complete_load` returns for the type and the transport's
    /// outcome. In this order: the failure to resolve the type; the transport's failure;
    /// the server's rejection, for a status outside the success class; an internal error,
    /// for a response without a body; a wire format error, for a body that is not the
    /// JSON text of a wire record; and else what the codec makes of that wire record
    /// under the type's model, its failure wrapped.
    pub open spec fn complete_load_result(
        &self,
        type_ref: &TypeRef,
        outcome: Result<RestResponse, TransportError>,
        result: Result<ParsedEntity, ApiCallError>,
    ) -> bool {
        match (self.resolved_version(type_ref), outcome) {
            (Err(error), _) => result == Err::<ParsedEntity, ApiCallError>(error),
            (Ok(_), Err(cause)) => result == Err::<ParsedEntity, ApiCallError>(
                ApiCallError::Transport { cause },
            ),
            (Ok(_), Ok(response)) => match response.status_verdict() {
                Err(rejection) => result == Err::<ParsedEntity, ApiCallError>(rejection),
                Ok(_) => match response.body {
                    None => result matches Err(ApiCallError::InternalSdkError { error_message })
                        && error_message@ == MISSING_BODY_MESSAGE@,
                    Some(body) => match parsed_json(body@) {
                        None => result matches Err(ApiCallError::WireFormat { .. }),
                        Some(raw_entity) => exists|decoded: Result<ParsedEntity, CodecError>|
                            #![auto]
                            call_ensures(
                                C::parse,
                                (
                                    &self.codec(),
                                    type_ref,
                                    &self.resolved_model(type_ref)->Ok_0,
                                    raw_entity,
                                ),
                                decoded,
                            ) && result == codec_outcome(decoded),
                    },
                },
            },
        }
    }

    /// Whether `result` is what `update` returns for the type, the entity and the
    /// version. In this order: the failure to resolve the type; a malformed identifier,
    /// unless the entity's `_id` field holds a composite identifier, with the identifier
    /// that the field holds instead, if it holds one; the codec's failure
    /// to write the entity under the type's model, wrapped; a wire format error, where
    /// the codec's wire record cannot be written as JSON text; and else the PUT request
    /// to the entity's address, with headers that the provider gives for the version,
    /// and that JSON text as its body.
    pub open spec fn update_result(
        &self,
        type_ref: &TypeRef,
        entity: ParsedEntity,
        model_version: u32,
        result: Result<RestRequest, ApiCallError>,
    ) -> bool {
        match self.resolved_version(type_ref) {
            Err(error) => result == Err::<RestRequest, ApiCallError>(error),
            Ok(_) => match entity_id(entity@) {
                Some(Identifier::Composite(list_id, element_id)) => exists|
                    encoded: Result<RawEntity, CodecError>,
                |
                    #![auto]
                    call_ensures(
                        C::serialize,
                        (&self.codec(), type_ref, &self.resolved_model(type_ref)->Ok_0, entity),
                        encoded,
                    ) && match encoded {
                        Err(cause) => result == Err::<RestRequest, ApiCallError>(
                            ApiCallError::Codec { cause },
                        ),
                        Ok(raw_entity) => match written_json(raw_entity) {
                            None => result matches Err(ApiCallError::WireFormat { .. }),
                            Some(bytes) => {
                                &&& result matches Ok(request)
                                &&& request.method == HttpMethod::PUT
                                &&& request.url@ == entity_url(
                                    self.base_url(),
                                    type_ref.app@,
                                    type_ref.type_@,
                                    composite_rendering(list_id@, element_id@),
                                )
                                &&& call_ensures(
                                    A::create_auth_headers,
                                    (&self.auth(), model_version),
                                    request.headers,
                                )
                                &&& request.body matches Some(body)
                                &&& body@ == bytes
                            },
                        },
                    },
                found => result == Err::<RestRequest, ApiCallError>(
                    ApiCallError::MalformedIdentifier {
                        app: type_ref.app,
                        type_: type_ref.type_,
                        found,
                    },
                ),
            },
        }
    }

    /// Whether `result` is what `complete_update` returns for the transport's outcome:
    /// the transport's failure, or the server's rejection for a status outside the
    /// success class, or nothing.
    pub open spec fn complete_update_result(
        outcome: Result<RestResponse, TransportError>,
        result: Result<(), ApiCallError>,
    ) -> bool {
        result == match outcome {
            Err(cause) => Err(ApiCallError::Transport { cause }),
            Ok(response) => response.status_verdict(),
        }
    }

    /// A client for the server at `base_url`.
    pub fn new(
        json_serializer: Arc<C>,
        base_url: &str,
        sdk_state: Arc<A>,
        type_model_provider: Arc<TypeModelProvider>,
    ) -> (client: Self)
        ensures
            client.codec() == *json_serializer,
            client.base_url() == base_url@,
            client.auth() == *sdk_state,
            client.models() == *type_model_provider,
    {
        EntityClient {
            json_serializer,
            base_url: base_url.to_owned(),
            sdk_state,
            type_model_provider,
        }
    }

    /// Returns the definition of an entity type from the registry.
    pub fn get_type_model(&self, type_ref: &TypeRef) -> (found: Result<&TypeModel, ApiCallError>)
        ensures
            lookup_outcome(found) == self.resolved_model(type_ref),
    {
        match self.type_model_provider.get_type_model(
            type_ref.app.as_str(),
            type_ref.type_.as_str(),
        ) {
            Some(model) => Ok(model),
            None => Err(
                ApiCallError::SchemaNotFound {
                    app: type_ref.app.clone(),
                    type_: type_ref.type_.clone(),
                },
            ),
        }
    }

    /// Resolves a type: returns its model and the version of the model as a number.
    pub fn resolve(&self, type_ref: &TypeRef) -> (resolved: Result<(&TypeModel, u32), ApiCallError>)
        ensures
            match resolved {
                Ok((model, version)) => self.resolved_model(type_ref) == Ok::<
                    TypeModel,
                    ApiCallError,
                >(*model) && self.resolved_version(type_ref) == Ok::<u32, ApiCallError>(version),
                Err(error) => self.resolved_version(type_ref) == Err::<u32, ApiCallError>(error),
            },
    {
        let model = self.get_type_model(type_ref)?;
        match parse_model_version(model.version.as_str()) {
            Some(version) => Ok((model, version)),
            None => Err(
                ApiCallError::InvalidSchemaVersion {
                    app: type_ref.app.clone(),
                    type_: type_ref.type_.clone(),
                    version: model.version.clone(),
                },
            ),
        }
    }

    /// Begins to load the entity of type `type_ref` with the identifier `id`: returns the
    /// GET request that fetches it, with the authentication headers of the version of
    /// the type's model.
    pub fn load<Id: IdType>(&self, type_ref: &TypeRef, id: &Id) -> (result: Result<
        RestRequest,
        ApiCallError,
    >)
        ensures
            self.load_result(type_ref, id, result),
    {
        let (_, model_version) = self.resolve(type_ref)?;
        let id_text = id.render();
        let url = build_entity_url(
            self.base_url.as_str(),
            type_ref.app.as_str(),
            type_ref.type_.as_str(),
            id_text.as_str(),
        );
        let headers = self.sdk_state.create_auth_headers(model_version);
        assert(call_ensures(Id::render, (id,), id_text) && url@ == entity_url(
            self.base_url(),
            type_ref.app@,
            type_ref.type_@,
            id_text@,
        ));
        Ok(RestRequest { method: HttpMethod::GET, url, headers, body: None })
    }

    /// Completes a load with what the transport got back for the request: returns the
    /// entity that the codec reads from the body of a successful response.
    pub fn complete_load(
        &self,
        type_ref: &TypeRef,
        outcome: Result<RestResponse, TransportError>,
    ) -> (result: Result<ParsedEntity, ApiCallError>)
        ensures
            self.complete_load_result(type_ref, outcome, result),
    {
        let (type_model, _) = self.resolve(type_ref)?;
        let response = match outcome {
            Ok(response) => response,
            Err(cause) => {
                return Err(ApiCallError::Transport { cause });
            },
        };
        let body = response.into_body()?;
        let raw_entity = match parse_json(body.as_slice()) {
            Ok(raw_entity) => raw_entity,
            Err(error) => {
                return Err(ApiCallError::WireFormat { detail: error.to_string() });
            },
        };
        let decoded = self.json_serializer.parse(type_ref, type_model, raw_entity);
        wrap_codec_outcome(decoded)
    }

    /// Begins to update an entity on the server: returns the PUT request that stores
    /// `entity`, with the authentication headers of `model_version`. The entity must be
    /// an element of a list: its `_id` field must hold a composite identifier.
    pub fn update(&self, type_ref: &TypeRef, entity: ParsedEntity, model_version: u32) -> (result:
        Result<RestRequest, ApiCallError>)
        ensures
            self.update_result(type_ref, entity, model_version, result),
    {
        let (type_model, _) = self.resolve(type_ref)?;
        let id_text = match get_id(&entity) {
            Some(Identifier::Composite(list_id, element_id)) => render_composite(
                list_id.as_str(),
                element_id.as_str(),
            ),
            Some(Identifier::Simple(id)) => {
                return Err(
                    ApiCallError::MalformedIdentifier {
                        app: type_ref.app.clone(),
                        type_: type_ref.type_.clone(),
                        found: Some(Identifier::Simple(id.clone())),
                    },
                );
            },
            None => {
                return Err(
                    ApiCallError::MalformedIdentifier {
                        app: type_ref.app.clone(),
                        type_: type_ref.type_.clone(),
                        found: None,
                    },
                );
            },
        };
        let url = build_entity_url(
            self.base_url.as_str(),
            type_ref.app.as_str(),
            type_ref.type_.as_str(),
            id_text.as_str(),
        );
        let ghost stored = entity;
        let encoded = self.json_serializer.serialize(type_ref, type_model, entity);
        let written = write_body(encoded);
        proof {
            assert(call_ensures(
                C::serialize,
                (&self.codec(), type_ref, &self.resolved_model(type_ref)->Ok_0, stored),
                encoded,
            ));
        }
        let body = written?;
        let headers = self.sdk_state.create_auth_headers(model_version);
        Ok(RestRequest { method: HttpMethod::PUT, url, headers, body: Some(body) })
    }

    /// Completes an update with what the transport got back for the request. A response
    /// of the success class completes it; its body, if it has one, is not looked at.
    pub fn complete_update(&self, outcome: Result<RestResponse, TransportError>) -> (result: Result<
        (),
        ApiCallError,
    >)
        ensures
            Self::complete_update_result(outcome, result),
    {
        match outcome {
            Err(cause) => Err(ApiCallError::Transport { cause }),
            Ok(response) => response.check_status(),
        }
    }
}

/// Looking a type up is a function of the registry and the type: two lookups of one
/// type in one client end alike, with the same model or with the same failure.
pub proof fn lemma_resolution_is_deterministic<C: EntityCodec, A: AuthHeadersProvider>(
    client: EntityClient<C, A>,
    type_ref: TypeRef,
    first: Result<&TypeModel, ApiCallError>,
    second: Result<&TypeModel, ApiCallError>,
)
    requires
        lookup_outcome(first) == client.resolved_model(&type_ref),
        lookup_outcome(second) == client.resolved_model(&type_ref),
    ensures
        lookup_outcome(first) == lookup_outcome(second),
        first matches Ok(model) ==> second matches Ok(other) && model.version == other.version
            && model.fields == other.fields && model.associations == other.associations,
{
}

/// An operation on a type without a registered model fails with the failure that names
/// the type, whatever else it is given, and the message of that failure holds both the
/// application and the name of the type.
pub proof fn lemma_unregistered_type_fails<C: EntityCodec, A: AuthHeadersProvider, Id: IdType>(
    client: EntityClient<C, A>,
    type_ref: TypeRef,
    id: Id,
    outcome: Result<RestResponse, TransportError>,
    entity: ParsedEntity,
    model_version: u32,
    loaded: Result<RestRequest, ApiCallError>,
    completed: Result<ParsedEntity, ApiCallError>,
    updated: Result<RestRequest, ApiCallError>,
)
    requires
        client.models().model_of(type_ref.app@, type_ref.type_@) is None,
        client.load_result(&type_ref, &id, loaded),
        client.complete_load_result(&type_ref, outcome, completed),
        client.update_result(&type_ref, entity, model_version, updated),
    ensures
        loaded matches Err(error) && error == missing_schema(type_ref),
        completed matches Err(error) && error == missing_schema(type_ref),
        updated matches Err(error) && error == missing_schema(type_ref),
        contains_text(missing_schema(type_ref).message_text(), type_ref.app@),
        contains_text(missing_schema(type_ref).message_text(), type_ref.type_@),
{
    lemma_schema_not_found_names_type(missing_schema(type_ref));
}

/// An operation on a type whose model carries a version that is not a number fails
/// with the failure that says so, whatever else it is given.
pub proof fn lemma_malformed_version_fails<C: EntityCodec, A: AuthHeadersProvider, Id: IdType>(
    client: EntityClient<C, A>,
    type_ref: TypeRef,
    model: TypeModel,
    id: Id,
    outcome: Result<RestResponse, TransportError>,
    entity: ParsedEntity,
    model_version: u32,
    loaded: Result<RestRequest, ApiCallError>,
    completed: Result<ParsedEntity, ApiCallError>,
    updated: Result<RestRequest, ApiCallError>,
)
    requires
        client.models().model_of(type_ref.app@, type_ref.type_@) == Some(model),
        parse_version(model.version@) is None,
        client.load_result(&type_ref, &id, loaded),
        client.complete_load_result(&type_ref, outcome, completed),
        client.update_result(&type_ref, entity, model_version, updated),
    ensures
        loaded matches Err(error) && error == invalid_version(type_ref, model),
        completed matches Err(error) && error == invalid_version(type_ref, model),
        updated matches Err(error) && error == invalid_version(type_ref, model),
{
}

} // verus!
