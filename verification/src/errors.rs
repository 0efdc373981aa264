//! Errors that the connectors and the domain conversions report.
use vstd::prelude::*;

verus! {

/// Errors of a payment connector's integration.
#[derive(Clone, Debug, PartialEq, Eq)]
pub enum ConnectorError {
    FailedToObtainIntegrationUrl,
    RequestEncodingFailed,
    RequestEncodingFailedWithReason(String),
    ParsingFailed,
    ResponseDeserializationFailed,
    NotImplemented(String),
    NotSupported { message: String, connector: String },
    FlowNotSupported { flow: String, connector: String },
    CaptureMethodNotSupported,
    MissingConnectorMandateID,
    MissingConnectorTransactionID,
    MissingConnectorRefundID,
    MissingRequiredField { field_name: String },
    FailedToObtainAuthType,
    InvalidConnectorName,
    ResponseHandlingFailed,
    WebhooksNotImplemented,
    WebhookBodyDecodingFailed,
    WebhookSignatureNotFound,
    WebhookSourceVerificationFailed,
    WebhookVerificationSecretNotFound,
    WebhookVerificationSecretInvalid,
    WebhookReferenceIdNotFound,
    WebhookEventTypeNotFound,
    WebhookResourceObjectNotFound,
    WebhookResponseEncodingFailed,
}

/// Errors of validating or converting a domain model.
#[derive(Clone, Debug, PartialEq, Eq)]
pub enum ValidationError {
    InvalidValue { message: String },
    MissingRequiredField { field_name: String },
    IncorrectValueProvided { field_name: String },
}

} // verus!

verus! {

/// A value that could not be parsed into the type it was meant to hold.
#[derive(Clone, Copy, Debug, PartialEq, Eq, Structural)]
pub struct ParsingError;

} // verus!
