use vstd::prelude::*;

verus! {

/// The key of a document.
#[derive(Clone, Debug, PartialEq, Eq)]
pub struct DocumentId {
    pub doc_id: String,
}

/// What is needed to originate a document: its key and its initial content.
#[derive(Clone, Debug, PartialEq, Eq)]
pub struct CreateDocParams {
    pub id: String,
    pub text: String,
}

/// What is needed to overwrite a document's content: its key, the new
/// content and the revision the content is meant to become.
#[derive(Clone, Debug, PartialEq, Eq)]
pub struct ResetDocumentParams {
    pub doc_id: String,
    pub text: String,
    pub rev_id: i64,
}

/// A snapshot of a document's content as it crosses the service boundary.
#[derive(Clone, Debug, PartialEq, Eq)]
pub struct DocumentInfo {
    pub doc_id: String,
    pub text: String,
    pub rev_id: i64,
    pub base_rev_id: i64,
}

/// The content of a fresh document: a delta that inserts one line break.
pub open spec fn initial_delta() -> Seq<char> {
    "[{\"insert\":\"\\n\"}]"@
}

/// The serialized delta that a fresh document holds.
pub fn initial_delta_string() -> (r: String)
    ensures
        r@ == initial_delta(),
{
    String::from_str("[{\"insert\":\"\\n\"}]")
}

} // verus!
