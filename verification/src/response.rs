//! What a network operation can end in, and how a reply is judged.

use vstd::prelude::*;

verus! {

/// What the server sent back: the status code, and the raw body where it
/// arrived whole.
#[derive(Debug, PartialEq, Eq)]
pub struct Response {
    pub status: u16,
    /// `None` where the body could not be read to its end.
    pub body: Option<Vec<u8>>,
}

/// The ways in which a network operation fails.
#[derive(Debug, PartialEq, Eq)]
pub enum ApiError {
    /// No response was received, or not all of it: the exchange did not get
    /// through.
    TransportFailure,
    /// The server answered with a status outside the 2xx range. The body is
    /// there as far as it could be read.
    HttpStatusFailure { status: u16, body: Option<Vec<u8>> },
    /// The server answered with success, but the body is not of the
    /// expected shape.
    DecodeFailure,
}

/// The outcome of every network operation.
pub type TwitchResult<T> = Result<T, ApiError>;

/// A status code that reports success: 200 to 299.
pub open spec fn is_success(status: u16) -> bool {
    200 <= status < 300
}

/// What a decoding attempt amounts to: the value, or a decode failure.
pub open spec fn decoded<T>(attempt: Option<T>) -> TwitchResult<T> {
    match attempt {
        Some(value) => Ok(value),
        None => Err(ApiError::DecodeFailure),
    }
}

/// Whether `result` is what the reply `reply` leads to, given a decoder.
///
/// No reply is a transport failure. A reply with a status outside 2xx is a
/// status failure that carries the status and what there is of the body, and
/// the decoder is not consulted. A reply that reports success without a body
/// that could be read is a transport failure. Otherwise the result is
/// whatever the decoder makes of the body.
pub open spec fn settles<T, D: FnOnce(Vec<u8>) -> Option<T>>(
    reply: Option<Response>,
    decode: D,
    result: TwitchResult<T>,
) -> bool {
    match reply {
        None => result == Err::<T, ApiError>(ApiError::TransportFailure),
        Some(response) => if !is_success(response.status) {
            result == Err::<T, ApiError>(
                ApiError::HttpStatusFailure { status: response.status, body: response.body },
            )
        } else {
            match response.body {
                None => result == Err::<T, ApiError>(ApiError::TransportFailure),
                Some(body) => exists|attempt: Option<T>|
                    decode.ensures((body,), attempt) && result == decoded(attempt),
            }
        },
    }
}

/// Tells whether a status code reports success.
pub fn status_is_success(status: u16) -> (ok: bool)
    ensures
        ok == is_success(status),
{
    200 <= status && status < 300
}

/// Turns what the transport handed back into the operation's outcome,
/// decoding the body only where the server reported success.
pub fn conclude<T, D>(reply: Option<Response>, decode: D) -> (result: TwitchResult<T>) where
    D: FnOnce(Vec<u8>) -> Option<T>,
    requires
        forall|body: Vec<u8>| decode.requires((body,)),
    ensures
        settles(reply, decode, result),
{
    match reply {
        None => Err(ApiError::TransportFailure),
        Some(response) => {
            if !status_is_success(response.status) {
                Err(ApiError::HttpStatusFailure { status: response.status, body: response.body })
            } else {
                match response.body {
                    None => Err(ApiError::TransportFailure),
                    Some(body) => {
                        let ghost bytes = body;
                        let attempt = decode(body);
                        let result = match attempt {
                            Some(value) => Ok(value),
                            None => Err(ApiError::DecodeFailure),
                        };
                        assert(decode.ensures((bytes,), attempt) && result == decoded(attempt));
                        result
                    },
                }
            }
        },
    }
}

} // verus!
