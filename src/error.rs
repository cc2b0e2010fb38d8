use vstd::prelude::*;

verus! {

/// The ways one request can fail.
#[derive(Debug, Clone, Copy, PartialEq, Eq, Structural)]
pub enum ServeError {
    /// The body is not a list of records with string fields `text_a` and `text_b`.
    MalformedPayload,
    /// The body is larger than the configured limit.
    OversizedPayload,
    /// The access guard of the model is poisoned.
    LockError,
    /// The model reported a failure for this batch.
    ModelError,
    /// The predictions could not be encoded.
    EncodingError,
}

pub const STATUS_OK: u16 = 200;

pub const STATUS_BAD_REQUEST: u16 = 400;

pub const STATUS_PAYLOAD_TOO_LARGE: u16 = 413;

pub const STATUS_INTERNAL_ERROR: u16 = 500;

/// The HTTP status that answers a request which failed with `e`.
pub open spec fn status_of(e: ServeError) -> u16 {
    match e {
        ServeError::MalformedPayload => STATUS_BAD_REQUEST,
        ServeError::OversizedPayload => STATUS_PAYLOAD_TOO_LARGE,
        ServeError::LockError => STATUS_INTERNAL_ERROR,
        ServeError::ModelError => STATUS_INTERNAL_ERROR,
        ServeError::EncodingError => STATUS_INTERNAL_ERROR,
    }
}

/// Errors caused by what the client sent.
pub open spec fn client_caused(e: ServeError) -> bool {
    e == ServeError::MalformedPayload || e == ServeError::OversizedPayload
}

impl ServeError {
    /// HTTP status code for this error.
    pub fn status_code(&self) -> (r: u16)
        ensures
            r == status_of(*self),
    {
        match self {
            ServeError::MalformedPayload => STATUS_BAD_REQUEST,
            ServeError::OversizedPayload => STATUS_PAYLOAD_TOO_LARGE,
            ServeError::LockError => STATUS_INTERNAL_ERROR,
            ServeError::ModelError => STATUS_INTERNAL_ERROR,
            ServeError::EncodingError => STATUS_INTERNAL_ERROR,
        }
    }

    /// Whether the client is to blame (a 4xx answer) rather than the server.
    pub fn is_client_error(&self) -> (r: bool)
        ensures
            r == client_caused(*self),
    {
        match self {
            ServeError::MalformedPayload | ServeError::OversizedPayload => true,
            _ => false,
        }
    }
}

/// Client-caused errors are answered with a 4xx status and all others with a 5xx status.
pub proof fn status_class_follows_blame(e: ServeError)
    ensures
        client_caused(e) ==> 400 <= status_of(e) < 500,
        !client_caused(e) ==> 500 <= status_of(e) < 600,
{
}

} // verus!
