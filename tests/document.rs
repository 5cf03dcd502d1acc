use flowy_net::entities::{
    initial_delta_string, CreateDocParams, DocumentId, DocumentInfo, ResetDocumentParams,
};
use flowy_net::error::{ErrorCode, FlowyError};
use flowy_net::request::{
    create_document_request, read_document_request, reset_doc_request, HttpMethod,
    RequestPayload, HEADER_TOKEN,
};
use flowy_net::response::{
    option_response, send_response, DocumentResponseMiddleware, FlowyResponse, ResponseAction,
};
use flowy_net::service::{
    ClientServerConfiguration, DocumentCloudService, DocumentHttpCloudService,
    DocumentLocalCloudService, Step,
};

const URL: &str = "http://localhost:8000/api/doc";
const DEFAULT_TEXT: &str = "[{\"insert\":\"\\n\"}]";

fn http_service() -> DocumentHttpCloudService {
    DocumentHttpCloudService::new(
        ClientServerConfiguration::new(URL.to_string()),
        DocumentResponseMiddleware::new(),
    )
}

fn create_params(id: &str, text: &str) -> CreateDocParams {
    CreateDocParams { id: id.to_string(), text: text.to_string() }
}

fn doc_id(id: &str) -> DocumentId {
    DocumentId { doc_id: id.to_string() }
}

fn reset_params(id: &str, text: &str, rev_id: i64) -> ResetDocumentParams {
    ResetDocumentParams { doc_id: id.to_string(), text: text.to_string(), rev_id }
}

fn empty_success() -> FlowyResponse {
    FlowyResponse { data: Vec::new(), error: None }
}

fn refused() -> FlowyResponse {
    FlowyResponse {
        data: Vec::new(),
        error: Some(FlowyError::new(ErrorCode::UserUnauthorized, "token expired")),
    }
}

#[test]
fn initial_delta_is_one_line_break() {
    assert_eq!(initial_delta_string(), DEFAULT_TEXT);
}

#[test]
fn local_read_gives_stand_in_document() {
    let local = DocumentLocalCloudService::new();
    for id in ["doc-1", "", "another document"] {
        let r = local.read_document_request("any token", doc_id(id)).unwrap();
        assert_eq!(
            r,
            Some(DocumentInfo {
                doc_id: id.to_string(),
                text: DEFAULT_TEXT.to_string(),
                rev_id: 0,
                base_rev_id: 0,
            })
        );
    }
}

#[test]
fn local_create_and_update_succeed() {
    let local = DocumentLocalCloudService::new();
    assert_eq!(local.create_document_request("", create_params("doc-1", "hello")), Ok(()));
    assert_eq!(local.update_document_request("t", reset_params("doc-1", "bye", 3)), Ok(()));
    assert_eq!(local, DocumentLocalCloudService::new());
}

#[test]
fn builders_attach_token_and_payload() {
    let r = create_document_request("tok", create_params("doc-1", "hello"), URL);
    assert_eq!(r.method, HttpMethod::Post);
    assert_eq!(r.url, URL);
    assert_eq!(r.headers, vec![(HEADER_TOKEN.to_string(), "tok".to_string())]);
    assert_eq!(r.payload, RequestPayload::Create(create_params("doc-1", "hello")));

    let r = read_document_request("tok", doc_id("doc-1"), URL);
    assert_eq!(r.method, HttpMethod::Get);
    assert_eq!(r.headers, vec![("token".to_string(), "tok".to_string())]);
    assert_eq!(r.payload, RequestPayload::Read(doc_id("doc-1")));

    let r = reset_doc_request("tok", reset_params("doc-1", "x", 2), URL);
    assert_eq!(r.method, HttpMethod::Patch);
    assert_eq!(r.url, URL);
    assert_eq!(r.payload, RequestPayload::Reset(reset_params("doc-1", "x", 2)));
}

#[test]
fn http_service_requests_go_to_configured_url() {
    let s = http_service();
    let r = s.update_document_request("tok", reset_params("d", "t", 1));
    assert_eq!(r.method, HttpMethod::Patch);
    assert_eq!(r.url, URL);
    assert_eq!(r.headers[0].1, "tok");
    let r = s.read_document_request("tok", doc_id("d"));
    assert_eq!(r.method, HttpMethod::Get);
    assert_eq!(r.url, URL);
}

#[test]
fn transport_failure_is_returned_unchanged() {
    let s = http_service();
    let e = FlowyError::new(ErrorCode::ConnectError, "connection refused");
    let r = s.receive_create_response("tok", Err(e.clone()));
    assert_eq!(r.result, Err(e.clone()));
    assert_eq!(r.action, ResponseAction::Ignore);
    let r = s.receive_read_response("tok", Err(e.clone()));
    assert_eq!(r.result, Err(e.clone()));
    let r = s.receive_update_response("tok", Err(e.clone()));
    assert_eq!(r.result, Err(e));
}

#[test]
fn non_success_status_descriptor_is_returned_unchanged() {
    let s = http_service();
    let e = FlowyError::new(ErrorCode::HttpError, "status 500");
    let resp = FlowyResponse { data: vec![1, 2, 3], error: Some(e.clone()) };
    let r = s.receive_read_response("tok", Ok(resp.clone()));
    assert_eq!(r.result, Err(e.clone()));
    assert_eq!(r.action, ResponseAction::Ignore);
    let r = s.receive_create_response("tok", Ok(resp));
    assert_eq!(r.result, Err(e));
}

#[test]
fn create_doc_1_against_remote_succeeds_on_empty_body() {
    let s = http_service();
    let req = s.create_document_request("tok", create_params("doc-1", "hello"));
    assert_eq!(req.payload, RequestPayload::Create(create_params("doc-1", "hello")));
    let r = s.receive_create_response("tok", Ok(empty_success()));
    assert_eq!(r.result, Ok(()));
    assert_eq!(r.action, ResponseAction::Ignore);
}

#[test]
fn read_doc_missing_against_remote_is_absent() {
    let s = http_service();
    let req = s.read_document_request("tok", doc_id("doc-missing"));
    assert_eq!(req.payload, RequestPayload::Read(doc_id("doc-missing")));
    let r = s.receive_read_response("tok", Ok(empty_success()));
    assert_eq!(r.result, Ok(None));
}

#[test]
fn read_with_body_hands_on_the_bytes() {
    let s = http_service();
    let resp = FlowyResponse { data: vec![10, 3, 100, 111, 99], error: None };
    let r = s.receive_read_response("tok", Ok(resp));
    assert_eq!(r.result, Ok(Some(vec![10, 3, 100, 111, 99])));
}

#[test]
fn interceptor_refused_with_token_logs_once_and_notifies() {
    let m = DocumentResponseMiddleware::new();
    let a = m.receive_response(&Some("tok".to_string()), &refused());
    assert_eq!(a, ResponseAction::Unauthorized { token: Some("tok".to_string()) });
}

#[test]
fn interceptor_refused_without_token_only_logs() {
    let m = DocumentResponseMiddleware::new();
    let a = m.receive_response(&None, &refused());
    assert_eq!(a, ResponseAction::Unauthorized { token: None });
}

#[test]
fn interceptor_ignores_other_responses() {
    let m = DocumentResponseMiddleware::new();
    assert_eq!(m.receive_response(&Some("tok".to_string()), &empty_success()), ResponseAction::Ignore);
    let other = FlowyResponse {
        data: Vec::new(),
        error: Some(FlowyError::new(ErrorCode::RecordNotFound, "missing")),
    };
    assert_eq!(m.receive_response(&Some("tok".to_string()), &other), ResponseAction::Ignore);
}

#[test]
fn refused_response_still_fails_the_call_with_its_descriptor() {
    let m = DocumentResponseMiddleware::new();
    let token = Some("tok".to_string());
    let r = send_response(&m, &token, Ok(refused()));
    assert_eq!(r.action, ResponseAction::Unauthorized { token: token.clone() });
    assert_eq!(r.result, Err(FlowyError::new(ErrorCode::UserUnauthorized, "token expired")));
    let without = send_response(&m, &None, Ok(refused()));
    assert_eq!(without.result, r.result);
    let read = option_response(&m, &token, Ok(refused()));
    assert_eq!(read.result, Err(FlowyError::new(ErrorCode::UserUnauthorized, "token expired")));
}

#[test]
fn error_recognises_unauthorized() {
    assert!(FlowyError::new(ErrorCode::UserUnauthorized, "").is_unauthorized());
    assert!(!FlowyError::new(ErrorCode::Internal, "").is_unauthorized());
    assert_eq!(FlowyError::new(ErrorCode::Internal, "boom").msg, "boom");
}

#[test]
fn either_service_behind_one_interface() {
    let http = DocumentCloudService::Http(http_service());
    let local = DocumentCloudService::Local(DocumentLocalCloudService::new());

    match http.create_document_request("tok", create_params("doc-1", "hello")) {
        Step::Send(req) => assert_eq!(req.method, HttpMethod::Post),
        Step::Done(_) => panic!("the remote service must send"),
    }
    assert_eq!(local.create_document_request("tok", create_params("doc-1", "hello")), Step::Done(Ok(())));
    assert_eq!(local.update_document_request("tok", reset_params("doc-1", "x", 1)), Step::Done(Ok(())));
    match local.read_document_request("tok", doc_id("doc-7")) {
        Step::Done(Ok(Some(d))) => {
            assert_eq!(d.doc_id, "doc-7");
            assert_eq!(d.text, DEFAULT_TEXT);
            assert_eq!((d.rev_id, d.base_rev_id), (0, 0));
        },
        other => panic!("unexpected {:?}", other),
    }
    match http.update_document_request("tok", reset_params("doc-1", "x", 1)) {
        Step::Send(req) => assert_eq!(req.method, HttpMethod::Patch),
        Step::Done(_) => panic!("the remote service must send"),
    }
    let r = http.receive_send_response("tok", Ok(refused()));
    assert_eq!(r.action, ResponseAction::Unauthorized { token: Some("tok".to_string()) });
    let r = http.receive_read_response("tok", Ok(empty_success()));
    assert_eq!(r.result, Ok(None));
}
