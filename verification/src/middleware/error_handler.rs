use vstd::prelude::*;

verus! {

/// The error taxonomy every layer propagates unchanged until this single
/// translation point maps it to an HTTP status and a message.
#[derive(Clone, Copy, Debug, PartialEq, Eq, Structural)]
pub enum ApiError {
    /// Malformed input; reserved for validation, no current path raises it.
    BadRequest,
    /// Reserved; no current path raises it.
    RequestTimeout,
    /// A lookup, update or delete targeted an id with no row.
    NotFound,
    /// A failure surfaced by the underlying store.
    StorageError,
}

/// The HTTP status each error kind is translated to.
pub open spec fn status_of(e: ApiError) -> u16 {
    match e {
        ApiError::BadRequest => 400,
        ApiError::RequestTimeout => 408,
        ApiError::NotFound => 500,
        ApiError::StorageError => 500,
    }
}

/// The response message each error kind is translated to.
pub open spec fn message_of(e: ApiError) -> Seq<char> {
    match e {
        ApiError::BadRequest => "Bad Request"@,
        ApiError::RequestTimeout => "Request Timeout"@,
        ApiError::NotFound => "Internal Server Error: no matching row"@,
        ApiError::StorageError => "Internal Server Error: storage failure"@,
    }
}

impl ApiError {
    /// Translate the error into the parts of its response: the HTTP status
    /// code and the message body.
    pub fn response_parts(&self) -> (r: (u16, String))
        ensures
            r.0 == status_of(*self),
            r.1@ == message_of(*self),
    {
        match self {
            ApiError::BadRequest => (400, "Bad Request".to_owned()),
            ApiError::RequestTimeout => (408, "Request Timeout".to_owned()),
            ApiError::NotFound => (500, "Internal Server Error: no matching row".to_owned()),
            ApiError::StorageError => (500, "Internal Server Error: storage failure".to_owned()),
        }
    }
}

} // verus!
