//! Requests for the transport to send, and what the library makes of its responses.

use vstd::prelude::*;
use vstd::string::*;
use crate::error::ApiCallError;
use crate::table::StringTable;

verus! {

/// The HTTP methods that the operations use.
#[derive(Clone, Copy, Debug, PartialEq, Eq, Structural)]
pub enum HttpMethod {
    GET,
    POST,
    PUT,
    DELETE,
}

/// A request that the transport is to send.
#[derive(Clone, Debug)]
pub struct RestRequest {
    pub method: HttpMethod,
    pub url: String,
    /// The headers that authenticate the caller under the model version of the request.
    pub headers: StringTable<String>,
    pub body: Option<Vec<u8>>,
}

/// What the transport got back from the server.
#[derive(Clone, Debug)]
pub struct RestResponse {
    pub status: u32,
    pub headers: StringTable<String>,
    pub body: Option<Vec<u8>>,
}

/// The response header in which the server names its reason for declining.
pub const PRECONDITION_HEADER: &'static str = "precondition";

/// What a successful response without a body is reported as.
pub const MISSING_BODY_MESSAGE: &'static str = "The response has no body";

/// Whether the status is one of the success class, 200 to 299.
pub open spec fn is_success(status: u32) -> bool {
    200 <= status <= 299
}

/// The reason that the headers of a response give for declining, if they give one.
pub open spec fn precondition_token(headers: Map<Seq<char>, String>) -> Option<String> {
    if headers.dom().contains(PRECONDITION_HEADER@) {
        Some(headers[PRECONDITION_HEADER@])
    } else {
        None
    }
}

/// The address of an entity: the base address, `rest`, the application, the type and the
/// identifier as text, each a further segment of the path.
pub open spec fn entity_url(
    base_url: Seq<char>,
    app: Seq<char>,
    type_: Seq<char>,
    id: Seq<char>,
) -> Seq<char> {
    base_url + "/rest/"@ + app + "/"@ + type_ + "/"@ + id
}

/// Writes the address of an entity.
pub fn build_entity_url(base_url: &str, app: &str, type_: &str, id: &str) -> (url: String)
    ensures
        url@ == entity_url(base_url@, app@, type_@, id@),
{
    let mut url = String::from_str(base_url);
    url.append("/rest/");
    url.append(app);
    url.append("/");
    url.append(type_);
    url.append("/");
    url.append(id);
    url
}

impl RestResponse {
    /// What the status of the response amounts to: nothing to report for a status of the
    /// success class, else the server's rejection with the status and the reason given.
    pub open spec fn status_verdict(&self) -> Result<(), ApiCallError> {
        if is_success(self.status) {
            Ok(())
        } else {
            Err(
                ApiCallError::ServerRejected {
                    status: self.status,
                    precondition_token: precondition_token(self.headers@),
                },
            )
        }
    }

    /// Classifies the status of the response.
    pub fn check_status(&self) -> (verdict: Result<(), ApiCallError>)
        ensures
            verdict == self.status_verdict(),
    {
        if 200 <= self.status && self.status <= 299 {
            Ok(())
        } else {
            let token = match self.headers.get(PRECONDITION_HEADER) {
                Some(token) => Some(token.clone()),
                None => None,
            };
            Err(ApiCallError::ServerRejected { status: self.status, precondition_token: token })
        }
    }

    /// The body of a successful response. A response that the server declined is
    /// reported as such, and a successful one without a body as an internal error.
    pub fn into_body(self) -> (body: Result<Vec<u8>, ApiCallError>)
        ensures
            match self.status_verdict() {
                Err(rejection) => body == Err::<Vec<u8>, ApiCallError>(rejection),
                Ok(_) => match self.body {
                    Some(bytes) => body == Ok::<Vec<u8>, ApiCallError>(bytes),
                    None => body matches Err(ApiCallError::InternalSdkError { error_message })
                        && error_message@ == MISSING_BODY_MESSAGE@,
                },
            },
    {
        match self.check_status() {
            Err(rejection) => Err(rejection),
            Ok(_) => match self.body {
                Some(bytes) => Ok(bytes),
                None => Err(
                    ApiCallError::InternalSdkError {
                        error_message: String::from_str(MISSING_BODY_MESSAGE),
                    },
                ),
            },
        }
    }
}

} // verus!
