use vstd::prelude::*;

use crate::operation::{error_statuses, error_statuses_of, success_status, success_status_of, Operation};

verus! {

/// How a response status is read for an operation.
#[derive(Clone, Copy, PartialEq, Eq, Structural, Debug)]
pub enum StatusClass {
    /// The status whose body is the operation's result.
    Success,
    /// A status whose body describes a failure that the API anticipates.
    ExpectedError,
    /// A status outside the operation's table.
    Unexpected,
}

pub open spec fn classify_spec(op: Operation, status: u16) -> StatusClass {
    if status == success_status_of(op) {
        StatusClass::Success
    } else if error_statuses_of(op).contains(status) {
        StatusClass::ExpectedError
    } else {
        StatusClass::Unexpected
    }
}

/// Looks a response status up in the operation's table.
pub fn classify(op: Operation, status: u16) -> (r: StatusClass)
    ensures
        r == classify_spec(op, status),
{
    if status == success_status(op) {
        return StatusClass::Success;
    }
    let errors = error_statuses(op);
    let mut i: usize = 0;
    while i < errors.len()
        invariant
            errors@ == error_statuses_of(op),
            i <= errors@.len(),
            forall|j: int| 0 <= j < i ==> errors@[j] != status,
        decreases errors@.len() - i,
    {
        if errors[i] == status {
            return StatusClass::ExpectedError;
        }
        i = i + 1;
    }
    StatusClass::Unexpected
}

/// A decoded response body with the status it came with.
#[derive(Clone, Debug)]
pub struct ResponseValue<T> {
    pub inner: T,
    pub status: u16,
}

impl<T> ResponseValue<T> {
    pub fn into_inner(self) -> (r: T)
        ensures
            r == self.inner,
    {
        self.inner
    }

    pub fn status(&self) -> (r: u16)
        ensures
            r == self.status,
    {
        self.status
    }
}

/// Why a call did not yield its result.
#[derive(Clone, Debug)]
pub enum Error<E> {
    /// A parameter or the body was missing or failed conversion; nothing was
    /// sent.
    InvalidRequest(String),
    /// The request could not be sent or no response came back.
    CommunicationError(String),
    /// The status was one the operation knows, but the body was not of the
    /// documented shape.
    InvalidResponsePayload(String),
    /// The API answered with a failure that the operation anticipates.
    ErrorResponse(ResponseValue<E>),
    /// The status is not in the operation's table.
    UnexpectedResponse { status: u16, body: Vec<u8> },
}

/// The outcome of a response: `decoded` is what decoding the body gave,
/// `raw` the body itself.
pub open spec fn completed<T>(op: Operation, status: u16, decoded: Result<T, String>, raw: Vec<u8>) -> Result<
    ResponseValue<T>,
    Error<T>,
> {
    match classify_spec(op, status) {
        StatusClass::Success => match decoded {
            Ok(v) => Ok(ResponseValue { inner: v, status }),
            Err(m) => Err(Error::InvalidResponsePayload(m)),
        },
        StatusClass::ExpectedError => match decoded {
            Ok(v) => Err(Error::ErrorResponse(ResponseValue { inner: v, status })),
            Err(m) => Err(Error::InvalidResponsePayload(m)),
        },
        StatusClass::Unexpected => Err(Error::UnexpectedResponse { status, body: raw }),
    }
}

/// Turns a response into the call's result: the success status yields the
/// decoded value, an anticipated error status the decoded error, a body that
/// did not decode a payload error, and any other status the raw response.
pub fn complete<T>(op: Operation, status: u16, decoded: Result<T, String>, raw: Vec<u8>) -> (r:
    Result<ResponseValue<T>, Error<T>>)
    ensures
        r == completed(op, status, decoded, raw),
{
    match classify(op, status) {
        StatusClass::Success => match decoded {
            Ok(v) => Ok(ResponseValue { inner: v, status }),
            Err(m) => Err(Error::InvalidResponsePayload(m)),
        },
        StatusClass::ExpectedError => match decoded {
            Ok(v) => Err(Error::ErrorResponse(ResponseValue { inner: v, status })),
            Err(m) => Err(Error::InvalidResponsePayload(m)),
        },
        StatusClass::Unexpected => Err(Error::UnexpectedResponse { status, body: raw }),
    }
}

/// A response with the operation's success status yields the value decoded
/// from its body, and the same status with a body that does not decode yields
/// a payload error, never a success.
pub proof fn lemma_success_round_trip<T>(
    op: Operation,
    value: T,
    message: String,
    raw: Vec<u8>,
)
    ensures
        classify_spec(op, success_status_of(op)) == StatusClass::Success,
        completed(op, success_status_of(op), Ok::<T, String>(value), raw) == Ok::<
            ResponseValue<T>,
            Error<T>,
        >(ResponseValue { inner: value, status: success_status_of(op) }),
        completed(op, success_status_of(op), Err::<T, String>(message), raw) == Err::<
            ResponseValue<T>,
            Error<T>,
        >(Error::InvalidResponsePayload(message)),
{
}

} // verus!
