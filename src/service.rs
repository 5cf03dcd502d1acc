use vstd::prelude::*;

use crate::entities::{
    initial_delta, initial_delta_string, CreateDocParams, DocumentId, DocumentInfo,
    ResetDocumentParams,
};
use crate::error::FlowyError;
use crate::request::{
    carries_token, create_document_request, read_document_request, reset_doc_request,
    HttpMethod, HttpRequest, RequestPayload,
};
use crate::response::{
    is_action_for_outcome, option_response, option_result, send_response, send_result,
    DocumentResponseMiddleware, FlowyResponse, Received,
};

verus! {

/// Where the backend is reached: the configured URL of the document endpoint.
#[derive(Clone, Debug, PartialEq, Eq)]
pub struct ClientServerConfiguration {
    pub doc_url: String,
}

impl ClientServerConfiguration {
    pub fn new(doc_url: String) -> (r: ClientServerConfiguration)
        ensures
            r.doc_url == doc_url,
    {
        ClientServerConfiguration { doc_url }
    }

    /// The URL of the document endpoint.
    pub fn doc_url(&self) -> (r: String)
        ensures
            r == self.doc_url,
    {
        self.doc_url.clone()
    }
}

/// The document service that talks to a live backend. Each operation is
/// split in two: the request to send, and the completion that takes what the
/// transport client reported.
#[derive(Clone, Debug, PartialEq, Eq)]
pub struct DocumentHttpCloudService {
    pub config: ClientServerConfiguration,
    pub middleware: DocumentResponseMiddleware,
}

impl DocumentHttpCloudService {
    pub fn new(config: ClientServerConfiguration, middleware: DocumentResponseMiddleware) -> (r:
        DocumentHttpCloudService)
        ensures
            r.config == config,
            r.middleware == middleware,
    {
        DocumentHttpCloudService { config, middleware }
    }

    /// The request that originates a document.
    pub fn create_document_request(&self, token: &str, params: CreateDocParams) -> (r:
        HttpRequest)
        ensures
            r.method == HttpMethod::Post,
            r.url@ == self.config.doc_url@,
            carries_token(r, token@),
            r.payload == RequestPayload::Create(params),
    {
        let url = self.config.doc_url();
        create_document_request(token, params, url.as_str())
    }

    /// The request that fetches a document.
    pub fn read_document_request(&self, token: &str, params: DocumentId) -> (r: HttpRequest)
        ensures
            r.method == HttpMethod::Get,
            r.url@ == self.config.doc_url@,
            carries_token(r, token@),
            r.payload == RequestPayload::Read(params),
    {
        let url = self.config.doc_url();
        read_document_request(token, params, url.as_str())
    }

    /// The request that overwrites a document's content.
    pub fn update_document_request(&self, token: &str, params: ResetDocumentParams) -> (r:
        HttpRequest)
        ensures
            r.method == HttpMethod::Patch,
            r.url@ == self.config.doc_url@,
            carries_token(r, token@),
            r.payload == RequestPayload::Reset(params),
    {
        let url = self.config.doc_url();
        reset_doc_request(token, params, url.as_str())
    }

    /// Completes a create: the body is discarded.
    pub fn receive_create_response(
        &self,
        token: &str,
        outcome: Result<FlowyResponse, FlowyError>,
    ) -> (r: Received<()>)
        ensures
            is_action_for_outcome(r.action, Some(token@), outcome),
            r.result == send_result(outcome),
    {
        send_response(&self.middleware, &Some(token.to_owned()), outcome)
    }

    /// Completes a read: an empty body is no document, and a present one is
    /// handed on, still encoded.
    pub fn receive_read_response(
        &self,
        token: &str,
        outcome: Result<FlowyResponse, FlowyError>,
    ) -> (r: Received<Option<Vec<u8>>>)
        ensures
            is_action_for_outcome(r.action, Some(token@), outcome),
            r.result == option_result(outcome),
    {
        option_response(&self.middleware, &Some(token.to_owned()), outcome)
    }

    /// Completes an update: the body is discarded.
    pub fn receive_update_response(
        &self,
        token: &str,
        outcome: Result<FlowyResponse, FlowyError>,
    ) -> (r: Received<()>)
        ensures
            is_action_for_outcome(r.action, Some(token@), outcome),
            r.result == send_result(outcome),
    {
        send_response(&self.middleware, &Some(token.to_owned()), outcome)
    }
}

/// Whether `d` is the stand-in document that the local service gives for `id`.
pub open spec fn is_local_document(d: DocumentInfo, id: DocumentId) -> bool {
    &&& d.doc_id == id.doc_id
    &&& d.text@ == initial_delta()
    &&& d.rev_id == 0
    &&& d.base_rev_id == 0
}

/// The document service that stands in for a backend: it never fails and
/// contacts nothing.
#[derive(Clone, Copy, Debug, PartialEq, Eq)]
pub struct DocumentLocalCloudService {}

impl DocumentLocalCloudService {
    pub fn new() -> (r: DocumentLocalCloudService) {
        DocumentLocalCloudService {  }
    }

    pub fn create_document_request(&self, _token: &str, _params: CreateDocParams) -> (r: Result<
        (),
        FlowyError,
    >)
        ensures
            r is Ok,
    {
        Ok(())
    }

    /// A fresh document under the requested key, at revision zero.
    pub fn read_document_request(&self, _token: &str, params: DocumentId) -> (r: Result<
        Option<DocumentInfo>,
        FlowyError,
    >)
        ensures
            r is Ok,
            r.unwrap() is Some,
            is_local_document(r.unwrap().unwrap(), params),
    {
        let doc = DocumentInfo {
            doc_id: params.doc_id,
            text: initial_delta_string(),
            rev_id: 0,
            base_rev_id: 0,
        };
        Ok(Some(doc))
    }

    pub fn update_document_request(&self, _token: &str, _params: ResetDocumentParams) -> (r:
        Result<(), FlowyError>)
        ensures
            r is Ok,
    {
        Ok(())
    }
}

/// The first step of an operation: either its result at once, or a request
/// that the transport client must send before the operation completes.
#[derive(Debug, PartialEq, Eq)]
pub enum Step<T> {
    Done(Result<T, FlowyError>),
    Send(HttpRequest),
}

/// A document service of either kind, behind one set of operations.
#[derive(Clone, Debug, PartialEq, Eq)]
pub enum DocumentCloudService {
    Http(DocumentHttpCloudService),
    Local(DocumentLocalCloudService),
}

impl DocumentCloudService {
    /// Originates a document.
    pub fn create_document_request(&self, token: &str, params: CreateDocParams) -> (r: Step<()>)
        ensures
            match *self {
                DocumentCloudService::Http(s) => {
                    &&& r is Send
                    &&& r->Send_0.method == HttpMethod::Post
                    &&& r->Send_0.url@ == s.config.doc_url@
                    &&& carries_token(r->Send_0, token@)
                    &&& r->Send_0.payload == RequestPayload::Create(params)
                },
                DocumentCloudService::Local(_) => r is Done && r->Done_0 is Ok,
            },
    {
        match self {
            DocumentCloudService::Http(s) => Step::Send(s.create_document_request(token, params)),
            DocumentCloudService::Local(s) => Step::Done(s.create_document_request(token, params)),
        }
    }

    /// Fetches a document; the local kind answers with its stand-in.
    pub fn read_document_request(&self, token: &str, params: DocumentId) -> (r: Step<
        Option<DocumentInfo>,
    >)
        ensures
            match *self {
                DocumentCloudService::Http(s) => {
                    &&& r is Send
                    &&& r->Send_0.method == HttpMethod::Get
                    &&& r->Send_0.url@ == s.config.doc_url@
                    &&& carries_token(r->Send_0, token@)
                    &&& r->Send_0.payload == RequestPayload::Read(params)
                },
                DocumentCloudService::Local(_) => {
                    &&& r is Done
                    &&& r->Done_0 is Ok
                    &&& r->Done_0.unwrap() is Some
                    &&& is_local_document(r->Done_0.unwrap().unwrap(), params)
                },
            },
    {
        match self {
            DocumentCloudService::Http(s) => Step::Send(s.read_document_request(token, params)),
            DocumentCloudService::Local(s) => Step::Done(s.read_document_request(token, params)),
        }
    }

    /// Overwrites a document's content.
    pub fn update_document_request(&self, token: &str, params: ResetDocumentParams) -> (r: Step<
        (),
    >)
        ensures
            match *self {
                DocumentCloudService::Http(s) => {
                    &&& r is Send
                    &&& r->Send_0.method == HttpMethod::Patch
                    &&& r->Send_0.url@ == s.config.doc_url@
                    &&& carries_token(r->Send_0, token@)
                    &&& r->Send_0.payload == RequestPayload::Reset(params)
                },
                DocumentCloudService::Local(_) => r is Done && r->Done_0 is Ok,
            },
    {
        match self {
            DocumentCloudService::Http(s) => Step::Send(s.update_document_request(token, params)),
            DocumentCloudService::Local(s) => Step::Done(s.update_document_request(token, params)),
        }
    }

    /// The interceptor that inspects this service's responses.
    pub fn middleware(&self) -> (r: DocumentResponseMiddleware) {
        match self {
            DocumentCloudService::Http(s) => s.middleware,
            DocumentCloudService::Local(_) => DocumentResponseMiddleware::new(),
        }
    }

    /// Completes a create or an update that was sent.
    pub fn receive_send_response(&self, token: &str, outcome: Result<FlowyResponse, FlowyError>) -> (r:
        Received<()>)
        ensures
            is_action_for_outcome(r.action, Some(token@), outcome),
            r.result == send_result(outcome),
    {
        let middleware = self.middleware();
        send_response(&middleware, &Some(token.to_owned()), outcome)
    }

    /// Completes a read that was sent.
    pub fn receive_read_response(&self, token: &str, outcome: Result<FlowyResponse, FlowyError>) -> (r:
        Received<Option<Vec<u8>>>)
        ensures
            is_action_for_outcome(r.action, Some(token@), outcome),
            r.result == option_result(outcome),
    {
        let middleware = self.middleware();
        option_response(&middleware, &Some(token.to_owned()), outcome)
    }
}

} // verus!
