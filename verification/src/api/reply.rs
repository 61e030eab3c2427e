//! What the reply to a request means, once its status and body are known.

use crate::api::schema::response::ResponseError;
use crate::api::schema::SchemaWrapper;
use crate::api::wire::Outgoing;
use crate::api::ApiError;
use std::marker::PhantomData;
use vstd::prelude::*;

verus! {

/// The envelope that the body of a response is read as.
#[derive(Clone, Copy, Debug, PartialEq, Eq, Structural)]
pub enum Envelope {
    /// The success envelope, `{"data": ...}`.
    Data,
    /// The error envelope, `{"error": {"code": ..., "message": ...}}`.
    Error,
}

/// The one status with which the server reports success.
pub const STATUS_OK: u16 = 200;

/// The envelope that a response with the given status carries: the success
/// envelope on status 200, the error envelope on every other status.
pub fn expected_envelope(status: u16) -> (envelope: Envelope)
    ensures
        envelope == (if status == STATUS_OK {
            Envelope::Data
        } else {
            Envelope::Error
        }),
{
    if status == STATUS_OK {
        Envelope::Data
    } else {
        Envelope::Error
    }
}

/// What the body of a response turned out to be.
pub enum Body<E> {
    /// It was read as the success envelope.
    Data(E),
    /// It was read as the error envelope.
    Failure(ResponseError),
    /// It could not be read as the envelope that its status calls for.
    Malformed,
}

/// How an exchange with the server ended.
pub enum Reply<E> {
    /// No response arrived, or its body could not be received.
    Lost,
    /// A response arrived.
    Received { status: u16, body: Body<E> },
}

/// The result that a reply stands for. A success envelope counts only under
/// status 200 and an error envelope only under another status; the server's
/// error is handed on as it came.
pub open spec fn settled<E>(reply: Reply<E>) -> Result<E, ApiError> {
    match reply {
        Reply::Lost => Err(ApiError::ApiError),
        Reply::Received { status, body } => match body {
            Body::Data(envelope) => if status == STATUS_OK {
                Ok(envelope)
            } else {
                Err(ApiError::UnexpectedApiResponseType)
            },
            Body::Failure(error) => if status != STATUS_OK {
                Err(ApiError::ArtifactsError(error))
            } else {
                Err(ApiError::UnexpectedApiResponseType)
            },
            Body::Malformed => Err(ApiError::UnexpectedApiResponseType),
        },
    }
}

/// Turns a reply into the success envelope it carries or into the error it
/// stands for.
pub fn settle<E>(reply: Reply<E>) -> (result: Result<E, ApiError>)
    ensures
        result == settled(reply),
{
    match reply {
        Reply::Lost => Err(ApiError::ApiError),
        Reply::Received { status, body } => match body {
            Body::Data(envelope) => if status == STATUS_OK {
                Ok(envelope)
            } else {
                Err(ApiError::UnexpectedApiResponseType)
            },
            Body::Failure(error) => if status != STATUS_OK {
                Err(ApiError::ArtifactsError(error))
            } else {
                Err(ApiError::UnexpectedApiResponseType)
            },
            Body::Malformed => Err(ApiError::UnexpectedApiResponseType),
        },
    }
}

/// A single exchange whose success envelope holds a `T`: the request to
/// send, and the meaning of whatever comes back.
pub struct Exchange<T> {
    pub request: Outgoing,
    pub payload: PhantomData<T>,
}

impl<T> Exchange<T> {
    /// The result of the exchange: the payload of the success envelope, or
    /// the error that the reply stands for.
    pub open spec fn outcome(reply: Reply<SchemaWrapper<T>>) -> Result<T, ApiError> {
        match settled(reply) {
            Ok(envelope) => Ok(envelope.data),
            Err(error) => Err(error),
        }
    }

    pub fn new(request: Outgoing) -> (exchange: Self)
        ensures
            exchange.request == request,
    {
        Exchange { request, payload: PhantomData }
    }

    /// Concludes the exchange with the reply that the request received.
    pub fn conclude(self, reply: Reply<SchemaWrapper<T>>) -> (result: Result<T, ApiError>)
        ensures
            result == Self::outcome(reply),
    {
        match settle(reply) {
            Ok(envelope) => Ok(envelope.data),
            Err(error) => Err(error),
        }
    }
}

/// A server error comes out of an exchange with its code and message
/// unchanged, whatever status other than 200 it arrived under.
pub proof fn lemma_server_error_unchanged<T>(status: u16, error: ResponseError)
    requires
        status != STATUS_OK,
    ensures
        Exchange::<T>::outcome(Reply::Received { status, body: Body::Failure(error) }) == Err::<
            T,
            ApiError,
        >(ApiError::ArtifactsError(error)),
{
}

} // verus!
