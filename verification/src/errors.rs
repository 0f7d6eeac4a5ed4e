//! The public error taxonomy. Lower layers attach context (connector name,
//! field name, failing pre-task step) as failures bubble up; nothing is
//! swallowed except a connector's explicit "webhooks not implemented"
//! report, which callers treat as a no-op.

use vstd::prelude::*;

verus! {

/// Failures surfaced to the caller of the operation pipeline.
#[derive(Clone, Debug, PartialEq, Eq)]
pub enum ApiErrorResponse {
    /// The identifier does not resolve to an existing intent or attempt.
    PaymentNotFound,
    /// The request shape is illegal, or the operation is forbidden in the
    /// payment's current status; carries a human-readable reason.
    InvalidRequestData { message: String },
    /// A record field that the operation needs is absent.
    MissingRequiredField { field_name: String },
}

/// Failures raised while preparing, performing or interpreting one
/// connector interaction.
#[derive(Clone, Debug, PartialEq, Eq)]
pub enum ConnectorError {
    /// The merchant's stored credentials do not fit the connector's
    /// authentication scheme.
    FailedToObtainAuthType,
    /// The flow's request could not be rendered into the wire format.
    RequestEncodingFailed,
    /// The connector's success payload did not match the expected shape.
    ResponseDeserializationFailed,
    /// The parsed payload could not be folded back into the envelope.
    ResponseHandlingFailed,
    /// The flow needs a connector transaction id and none is stored.
    MissingConnectorTransactionID,
    /// A request field the connector requires is absent.
    MissingRequiredField { field_name: String },
    /// The connector does not support the named capability.
    NotImplemented { capability: String },
    /// The connector does not expose inbound webhooks.
    WebhooksNotImplemented,
}

/// Opaque failure reported by the persistence layer, wrapped with the
/// operation that was being attempted.
#[derive(Clone, Debug, PartialEq, Eq)]
pub enum StorageError {
    ValueNotFound,
    DatabaseError { operation: String },
}

impl ApiErrorResponse {
    /// Discriminated error code plus message: every failure maps to one.
    pub fn message(&self) -> (r: String)
        ensures
            r@ == self.spec_message(),
    {
        match self {
            ApiErrorResponse::PaymentNotFound => "Payment does not exist in our records".to_owned(),
            ApiErrorResponse::InvalidRequestData { message } => message.clone(),
            ApiErrorResponse::MissingRequiredField { field_name } => field_name.clone(),
        }
    }

    /// What `message` returns.
    pub open spec fn spec_message(&self) -> Seq<char> {
        match self {
            ApiErrorResponse::PaymentNotFound => "Payment does not exist in our records"@,
            ApiErrorResponse::InvalidRequestData { message } => message@,
            ApiErrorResponse::MissingRequiredField { field_name } => field_name@,
        }
    }
}

} // verus!
