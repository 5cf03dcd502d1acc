use vstd::prelude::*;

verus! {

/// What went wrong, as reported by the transport client or embedded by the
/// backend in a response.
#[derive(Clone, Copy, Debug, PartialEq, Eq, Structural)]
pub enum ErrorCode {
    Internal,
    UserUnauthorized,
    RecordNotFound,
    HttpError,
    ConnectError,
    SerdeError,
}

/// The error of every remote document operation.
#[derive(Clone, Debug, PartialEq, Eq)]
pub struct FlowyError {
    pub code: ErrorCode,
    pub msg: String,
}

impl FlowyError {
    pub fn new(code: ErrorCode, msg: &str) -> (r: FlowyError)
        ensures
            r.code == code,
            r.msg@ == msg@,
    {
        FlowyError { code, msg: msg.to_owned() }
    }

    pub open spec fn spec_is_unauthorized(&self) -> bool {
        self.code == ErrorCode::UserUnauthorized
    }

    /// Whether the backend refused the caller's credential.
    #[verifier::when_used_as_spec(spec_is_unauthorized)]
    pub fn is_unauthorized(&self) -> (r: bool)
        ensures
            r == self.spec_is_unauthorized(),
    {
        self.code == ErrorCode::UserUnauthorized
    }
}

} // verus!
