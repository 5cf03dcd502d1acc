use vstd::prelude::*;

use crate::entities::{CreateDocParams, DocumentId, ResetDocumentParams};

verus! {

/// The name of the header that carries the caller's credential.
pub const HEADER_TOKEN: &'static str = "token";

/// The verbs that the document endpoint is reached with.
#[derive(Clone, Copy, Debug, PartialEq, Eq, Structural)]
pub enum HttpMethod {
    Post,
    Get,
    Patch,
}

/// The structured argument of a request, encoded by the transport client.
#[derive(Clone, Debug, PartialEq, Eq)]
pub enum RequestPayload {
    Create(CreateDocParams),
    Read(DocumentId),
    Reset(ResetDocumentParams),
}

/// A request ready to be handed to the transport client.
#[derive(Clone, Debug, PartialEq, Eq)]
pub struct HttpRequest {
    pub method: HttpMethod,
    pub url: String,
    pub headers: Vec<(String, String)>,
    pub payload: RequestPayload,
}

/// A request carries exactly one header: the credential under `HEADER_TOKEN`.
pub open spec fn carries_token(r: HttpRequest, token: Seq<char>) -> bool {
    &&& r.headers@.len() == 1
    &&& r.headers@[0].0@ == HEADER_TOKEN@
    &&& r.headers@[0].1@ == token
}

fn request_builder(method: HttpMethod, token: &str, url: &str, payload: RequestPayload) -> (r:
    HttpRequest)
    ensures
        r.method == method,
        r.url@ == url@,
        carries_token(r, token@),
        r.payload == payload,
{
    let mut headers: Vec<(String, String)> = Vec::new();
    headers.push((String::from_str(HEADER_TOKEN), token.to_owned()));
    HttpRequest { method, url: url.to_owned(), headers, payload }
}

/// Builds the request that originates a document at `url`.
pub fn create_document_request(token: &str, params: CreateDocParams, url: &str) -> (r:
    HttpRequest)
    ensures
        r.method == HttpMethod::Post,
        r.url@ == url@,
        carries_token(r, token@),
        r.payload == RequestPayload::Create(params),
{
    request_builder(HttpMethod::Post, token, url, RequestPayload::Create(params))
}

/// Builds the request that fetches the document named by `params` from `url`.
pub fn read_document_request(token: &str, params: DocumentId, url: &str) -> (r: HttpRequest)
    ensures
        r.method == HttpMethod::Get,
        r.url@ == url@,
        carries_token(r, token@),
        r.payload == RequestPayload::Read(params),
{
    request_builder(HttpMethod::Get, token, url, RequestPayload::Read(params))
}

/// Builds the request that overwrites a document's content at `url`.
pub fn reset_doc_request(token: &str, params: ResetDocumentParams, url: &str) -> (r:
    HttpRequest)
    ensures
        r.method == HttpMethod::Patch,
        r.url@ == url@,
        carries_token(r, token@),
        r.payload == RequestPayload::Reset(params),
{
    request_builder(HttpMethod::Patch, token, url, RequestPayload::Reset(params))
}

} // verus!
