//! Incoming webhooks: the connector-specific steps of decoding a webhook's
//! body and of verifying that it comes from the connector, and the
//! pipelines that combine them.
use vstd::prelude::*;

use crate::crypto::{
    accepts_every_signature, decoding_view, hands_message_back, CryptoError, DecodeMessage, NoAlgorithm,
    VerifySignature,
};
use crate::errors::{ConnectorError, ParsingError};

verus! {

/// An incoming webhook request as the router received it.
#[derive(Clone, Debug)]
pub struct IncomingWebhookRequestDetails {
    pub method: String,
    pub uri: String,
    pub headers: Vec<(String, Vec<u8>)>,
    pub body: Vec<u8>,
    pub query_params: String,
}

/// How a payment is identified in a webhook.
#[derive(Clone, Debug, PartialEq, Eq)]
pub enum PaymentIdType {
    PaymentIntentId(String),
    ConnectorTransactionId(String),
    PaymentAttemptId(String),
    PreprocessingId(String),
}

/// How a refund is identified in a webhook.
#[derive(Clone, Debug, PartialEq, Eq)]
pub enum RefundIdType {
    RefundId(String),
    ConnectorRefundId(String),
}

/// How a mandate is identified in a webhook.
#[derive(Clone, Debug, PartialEq, Eq)]
pub enum MandateIdType {
    MandateId(String),
    ConnectorMandateId(String),
}

/// The object that a webhook is about.
#[derive(Clone, Debug, PartialEq, Eq)]
pub enum ObjectReferenceId {
    PaymentId(PaymentIdType),
    RefundId(RefundIdType),
    MandateId(MandateIdType),
}

/// The event that a webhook reports.
#[derive(Clone, Copy, Debug, PartialEq, Eq, Structural)]
pub enum IncomingWebhookEvent {
    EventNotSupported,
    PaymentIntentFailure,
    PaymentIntentSuccess,
    PaymentIntentProcessing,
    PaymentIntentPartiallyFunded,
    PaymentIntentCancelled,
    PaymentIntentCancelFailure,
    PaymentIntentAuthorizationSuccess,
    PaymentIntentAuthorizationFailure,
    PaymentIntentCaptureSuccess,
    PaymentIntentCaptureFailure,
    PaymentActionRequired,
    SourceChargeable,
    SourceTransactionCreated,
    RefundFailure,
    RefundSuccess,
    DisputeOpened,
    DisputeExpired,
    DisputeAccepted,
    DisputeCancelled,
    DisputeChallenged,
    DisputeWon,
    DisputeLost,
    MandateActive,
    MandateRevoked,
    EndpointVerification,
}

/// The stage that a dispute is in.
#[derive(Clone, Copy, Debug, PartialEq, Eq, Structural)]
pub enum DisputeStage {
    PreDispute,
    Dispute,
    PreArbitration,
}

/// The details of a dispute that a webhook reports.
#[derive(Clone, Debug)]
pub struct DisputePayload {
    pub amount: String,
    pub currency: String,
    pub dispute_stage: DisputeStage,
    pub connector_status: String,
    pub connector_dispute_id: String,
    pub connector_reason: Option<String>,
    pub connector_reason_code: Option<String>,
}

/// What the router answers the connector's webhook call with.
#[derive(Debug)]
pub enum ApplicationResponse {
    Json(serde_json::Value),
    StatusOk,
    TextPlain(String),
}

/// The merchant that a webhook is for.
#[derive(Clone, Debug)]
pub struct MerchantAccount {
    pub merchant_id: String,
    pub merchant_name: Option<String>,
    pub return_url: Option<String>,
}

/// The webhook secrets that a merchant configured for a connector.
#[derive(Clone, Debug, PartialEq, Eq)]
pub struct MerchantConnectorWebhookDetails {
    pub merchant_secret: String,
    pub additional_secret: Option<String>,
}

/// The secrets with which a webhook's source is verified.
#[derive(Clone, Debug, PartialEq, Eq)]
pub struct ConnectorWebhookSecrets {
    pub secret: Vec<u8>,
    pub additional_secret: Option<String>,
}

/// The secret used where a merchant configured none; verification with a
/// real algorithm fails on it, so the payment is synchronised instead.
pub open spec fn default_secret() -> Seq<char> {
    "default_secret"@
}

/// The UTF-8 bytes of a string.
pub open spec fn utf8_bytes(s: Seq<char>) -> Seq<u8> {
    vstd::utf8::encode_utf8(s)
}

/// `res` is what the webhook details give as secrets: the default secret
/// where none were configured, the configured ones where they parsed, and a
/// verification failure where they did not.
pub open spec fn secrets_from_details(
    connector_webhook_details: Option<Result<MerchantConnectorWebhookDetails, ParsingError>>,
    res: Result<ConnectorWebhookSecrets, ConnectorError>,
) -> bool {
    secrets_result_view(res) == details_secrets(connector_webhook_details)
}

/// The webhook secrets that come from the merchant connector account's
/// webhook details, as they were parsed: none configured gives the default
/// secret, details that did not parse are a verification failure.
pub fn connector_webhook_secrets(
    connector_webhook_details: Option<Result<MerchantConnectorWebhookDetails, ParsingError>>,
) -> (res: Result<ConnectorWebhookSecrets, ConnectorError>)
    ensures
        secrets_from_details(connector_webhook_details, res),
{
    match connector_webhook_details {
        Some(Ok(details)) => Ok(
            ConnectorWebhookSecrets {
                secret: details.merchant_secret.as_str().as_bytes_vec(),
                additional_secret: details.additional_secret,
            },
        ),
        Some(Err(_)) => Err(ConnectorError::WebhookSourceVerificationFailed),
        None => {
            let default_secret = String::from_str("default_secret");
            Ok(
                ConnectorWebhookSecrets {
                    secret: default_secret.as_str().as_bytes_vec(),
                    additional_secret: None,
                },
            )
        },
    }
}

/// The view of a result that holds bytes.
pub open spec fn bytes_result_view(r: Result<Vec<u8>, ConnectorError>) -> Result<Seq<u8>, ConnectorError> {
    match r {
        Ok(v) => Ok(v@),
        Err(e) => Err(e),
    }
}

/// What the router makes of a decoding algorithm's answer: the decoded
/// body, or a body decoding failure.
pub open spec fn decoded_or_failure(answer: Result<Seq<u8>, CryptoError>) -> Result<Seq<u8>, ConnectorError> {
    match answer {
        Ok(decoded) => Ok(decoded),
        Err(_) => Err(ConnectorError::WebhookBodyDecodingFailed),
    }
}

/// What the router makes of a verification algorithm's answer: whether the
/// signature is valid, or a source verification failure.
pub open spec fn verified_or_failure(answer: Result<bool, CryptoError>) -> Result<bool, ConnectorError> {
    match answer {
        Ok(verified) => Ok(verified),
        Err(_) => Err(ConnectorError::WebhookSourceVerificationFailed),
    }
}

/// `res` is what decoding gives for the message and the secret that were
/// obtained, where `decodes` holds of the answers that the algorithm gives:
/// where both were obtained, what the router makes of an answer of the
/// algorithm for that secret and message; otherwise a body decoding
/// failure.
pub open spec fn body_decoded_with(
    decodes: spec_fn(Seq<u8>, Seq<u8>, Result<Seq<u8>, CryptoError>) -> bool,
    message: Result<Vec<u8>, ConnectorError>,
    secret: Result<Vec<u8>, ConnectorError>,
    res: Result<Vec<u8>, ConnectorError>,
) -> bool {
    match (message, secret) {
        (Ok(m), Ok(s)) => exists|answer: Result<Seq<u8>, CryptoError>|
            #[trigger] decodes(s@, m@, answer) && bytes_result_view(res) == decoded_or_failure(answer),
        _ => res == Err::<Vec<u8>, ConnectorError>(ConnectorError::WebhookBodyDecodingFailed),
    }
}

/// `res` is what verifying gives for the signature, the secrets and the
/// message that were obtained, where `verifies` holds of the answers that
/// the algorithm gives: where all were obtained, what the router makes of
/// an answer of the algorithm for the secret, the signature and the
/// message; otherwise a source verification failure.
pub open spec fn source_verified_with(
    verifies: spec_fn(Seq<u8>, Seq<u8>, Seq<u8>, Result<bool, CryptoError>) -> bool,
    signature: Result<Vec<u8>, ConnectorError>,
    secrets: Result<ConnectorWebhookSecrets, ConnectorError>,
    message: Result<Vec<u8>, ConnectorError>,
    res: Result<bool, ConnectorError>,
) -> bool {
    match (signature, secrets, message) {
        (Ok(s), Ok(w), Ok(m)) => exists|answer: Result<bool, CryptoError>|
            #[trigger] verifies(w.secret@, s@, m@, answer) && res == verified_or_failure(answer),
        _ => res == Err::<bool, ConnectorError>(ConnectorError::WebhookSourceVerificationFailed),
    }
}

/// Decodes a webhook body with `algorithm` from the message and the
/// merchant's decoding secret: the algorithm is handed that secret and that
/// message, and its answer decides; a failure to obtain the message or the
/// secret, or to decode, is a body decoding failure.
pub fn decode_webhook_body_from(
    algorithm: &Box<dyn DecodeMessage>,
    message: Result<Vec<u8>, ConnectorError>,
    secret: Result<Vec<u8>, ConnectorError>,
) -> (res: Result<Vec<u8>, ConnectorError>)
    ensures
        match (message, secret) {
            (Ok(m), Ok(s)) => exists|answer: Result<Seq<u8>, CryptoError>|
                #[trigger] algorithm.decodes(s@, m@, answer) && bytes_result_view(res) == decoded_or_failure(answer),
            _ => res == Err::<Vec<u8>, ConnectorError>(ConnectorError::WebhookBodyDecodingFailed),
        },
        res is Ok || res == Err::<Vec<u8>, ConnectorError>(ConnectorError::WebhookBodyDecodingFailed),
{
    let message = match message {
        Ok(m) => m,
        Err(_) => return Err(ConnectorError::WebhookBodyDecodingFailed),
    };
    let secret = match secret {
        Ok(s) => s,
        Err(_) => return Err(ConnectorError::WebhookBodyDecodingFailed),
    };
    let ghost (s, m) = (secret@, message@);
    let answer = algorithm.decode_message(secret.as_slice(), message);
    let res = match answer {
        Ok(decoded) => Ok(decoded),
        Err(_) => Err(ConnectorError::WebhookBodyDecodingFailed),
    };
    assert(algorithm.decodes(s, m, decoding_view(answer)));
    res
}

/// Verifies a webhook's source with `algorithm` from the signature, the
/// merchant's secrets and the signed message: the algorithm is handed the
/// secret, the signature and the message, and its answer decides; a
/// failure to obtain any of them, or to verify, is a source verification
/// failure.
pub fn verify_webhook_source_from(
    algorithm: &Box<dyn VerifySignature>,
    signature: Result<Vec<u8>, ConnectorError>,
    secrets: Result<ConnectorWebhookSecrets, ConnectorError>,
    message: Result<Vec<u8>, ConnectorError>,
) -> (res: Result<bool, ConnectorError>)
    ensures
        match (signature, secrets, message) {
            (Ok(s), Ok(w), Ok(m)) => exists|answer: Result<bool, CryptoError>|
                #[trigger] algorithm.verifies(w.secret@, s@, m@, answer) && res == verified_or_failure(answer),
            _ => res == Err::<bool, ConnectorError>(ConnectorError::WebhookSourceVerificationFailed),
        },
        res is Ok || res == Err::<bool, ConnectorError>(ConnectorError::WebhookSourceVerificationFailed),
{
    let signature = match signature {
        Ok(s) => s,
        Err(_) => return Err(ConnectorError::WebhookSourceVerificationFailed),
    };
    let secrets = match secrets {
        Ok(s) => s,
        Err(_) => return Err(ConnectorError::WebhookSourceVerificationFailed),
    };
    let message = match message {
        Ok(m) => m,
        Err(_) => return Err(ConnectorError::WebhookSourceVerificationFailed),
    };
    let answer = algorithm.verify_signature(secrets.secret.as_slice(), signature.as_slice(), message.as_slice());
    let res = match answer {
        Ok(verified) => Ok(verified),
        Err(_) => Err(ConnectorError::WebhookSourceVerificationFailed),
    };
    assert(algorithm.verifies(secrets.secret@, signature@, message@, answer));
    res
}

/// With an algorithm that hands every message back, decoding gives the
/// message back whatever the secret; with one that accepts every
/// signature, verification gives `true` once signature, secrets and message
/// were obtained.
pub proof fn lemma_pass_through_algorithms(
    decodes: spec_fn(Seq<u8>, Seq<u8>, Result<Seq<u8>, CryptoError>) -> bool,
    message: Vec<u8>,
    secret: Vec<u8>,
    decoded: Result<Vec<u8>, ConnectorError>,
    verifies: spec_fn(Seq<u8>, Seq<u8>, Seq<u8>, Result<bool, CryptoError>) -> bool,
    signature: Vec<u8>,
    secrets: ConnectorWebhookSecrets,
    signed: Vec<u8>,
    verified: Result<bool, ConnectorError>,
)
    requires
        hands_message_back(decodes),
        body_decoded_with(decodes, Ok(message), Ok(secret), decoded),
        accepts_every_signature(verifies),
        source_verified_with(verifies, Ok(signature), Ok(secrets), Ok(signed), verified),
    ensures
        decoded is Ok && decoded->Ok_0@ == message@,
        verified == Ok::<bool, ConnectorError>(true),
{
}

/// The view of a result that holds webhook secrets.
pub open spec fn secrets_result_view(r: Result<ConnectorWebhookSecrets, ConnectorError>) -> Result<
    (Seq<u8>, Option<String>),
    ConnectorError,
> {
    match r {
        Ok(s) => Ok((s.secret@, s.additional_secret)),
        Err(e) => Err(e),
    }
}

/// The secrets (their bytes and the additional secret) that the webhook
/// details give: the default secret where none were configured, the
/// configured ones where they parsed, a verification failure where not.
pub open spec fn details_secrets(
    connector_webhook_details: Option<Result<MerchantConnectorWebhookDetails, ParsingError>>,
) -> Result<(Seq<u8>, Option<String>), ConnectorError> {
    match connector_webhook_details {
        None => Ok((utf8_bytes(default_secret()), None)),
        Some(Ok(details)) => Ok((utf8_bytes(details.merchant_secret@), details.additional_secret)),
        Some(Err(_)) => Err(ConnectorError::WebhookSourceVerificationFailed),
    }
}

/// The webhook handling that a connector implements; every step but the
/// ones that read the webhook's object, event and resource has a default.
pub trait IncomingWebhook: Sync {
    /// The algorithm that decodes a webhook body; none by default.
    fn get_webhook_body_decoding_algorithm(&self, request: &IncomingWebhookRequestDetails) -> (res: Result<Box<dyn DecodeMessage>, ConnectorError>)
        default_ensures
            res matches Ok(a) && hands_message_back(
                |s: Seq<u8>, m: Seq<u8>, answer: Result<Seq<u8>, CryptoError>| a.decodes(s, m, answer),
            ),
    {
        Ok(Box::new(NoAlgorithm))
    }

    /// The merchant's secret for decoding webhook bodies.
    fn get_webhook_body_decoding_merchant_secret(&self, merchant_id: &str) -> (res: Result<Vec<u8>, ConnectorError>)
        default_ensures
            res is Ok && res->Ok_0@ == Seq::<u8>::empty(),
    {
        Ok(Vec::new())
    }

    /// The message that is decoded: the webhook body.
    fn get_webhook_body_decoding_message(&self, request: &IncomingWebhookRequestDetails) -> (res: Result<Vec<u8>, ConnectorError>)
        default_ensures
            res is Ok && res->Ok_0@ == request.body@,
    {
        Ok(request.body.clone())
    }

    /// Decodes the webhook body with the connector's algorithm, message and
    /// secret, asking for each only once the one before it was obtained: an
    /// error in obtaining the algorithm is passed on, a failure to obtain the
    /// message or the secret is a body decoding failure, and otherwise the
    /// algorithm is handed the secret and the message that the connector
    /// gave, and its answer decides (`body_decoded_with`).
    fn decode_webhook_body(&self, request: &IncomingWebhookRequestDetails, merchant_id: &str) -> (res: Result<Vec<u8>, ConnectorError>)
        ensures
            exists|algorithm: Result<Box<dyn DecodeMessage>, ConnectorError>|
                #[trigger] call_ensures(Self::get_webhook_body_decoding_algorithm, (self, request), algorithm)
                    && match algorithm {
                    Err(e) => res == Err::<Vec<u8>, ConnectorError>(e),
                    Ok(a) => exists|message: Result<Vec<u8>, ConnectorError>|
                        #[trigger] call_ensures(Self::get_webhook_body_decoding_message, (self, request), message)
                            && match message {
                            Err(_) => res == Err::<Vec<u8>, ConnectorError>(ConnectorError::WebhookBodyDecodingFailed),
                            Ok(_) => exists|secret: Result<Vec<u8>, ConnectorError>|
                                #[trigger] call_ensures(
                                    Self::get_webhook_body_decoding_merchant_secret,
                                    (self, merchant_id),
                                    secret,
                                ) && body_decoded_with(
                                    |s: Seq<u8>, m: Seq<u8>, answer: Result<Seq<u8>, CryptoError>| a.decodes(s, m, answer),
                                    message,
                                    secret,
                                    res,
                                ),
                        },
                },
    {
        let get_algorithm = Self::get_webhook_body_decoding_algorithm;
        let get_message = Self::get_webhook_body_decoding_message;
        let get_secret = Self::get_webhook_body_decoding_merchant_secret;
        let algorithm_res = get_algorithm(self, request);
        let algorithm = match algorithm_res {
            Ok(a) => a,
            Err(e) => return Err(e),
        };
        let message = get_message(self, request);
        if message.is_err() {
            return Err(ConnectorError::WebhookBodyDecodingFailed);
        }
        let secret = get_secret(self, merchant_id);
        let res = decode_webhook_body_from(&algorithm, message, secret);
        proof {
            let decodes = |s: Seq<u8>, m: Seq<u8>, answer: Result<Seq<u8>, CryptoError>| algorithm_res->Ok_0.decodes(s, m, answer);
            if secret is Ok {
                let (s, m) = (secret->Ok_0@, message->Ok_0@);
                let answer = choose|answer: Result<Seq<u8>, CryptoError>|
                    #[trigger] algorithm.decodes(s, m, answer) && bytes_result_view(res) == decoded_or_failure(answer);
                assert(decodes(s, m, answer));
            }
            assert(body_decoded_with(decodes, message, secret, res));
        }
        res
    }

    /// The algorithm that verifies a webhook's source; none by default.
    fn get_webhook_source_verification_algorithm(&self, request: &IncomingWebhookRequestDetails) -> (res: Result<Box<dyn VerifySignature>, ConnectorError>)
        default_ensures
            res matches Ok(a) && accepts_every_signature(
                |w: Seq<u8>, s: Seq<u8>, m: Seq<u8>, answer: Result<bool, CryptoError>| a.verifies(w, s, m, answer),
            ),
    {
        Ok(Box::new(NoAlgorithm))
    }

    /// The secrets with which the webhook's source is verified, from the
    /// merchant connector account's webhook details as they were parsed.
    fn get_webhook_source_verification_merchant_secret(
        &self,
        merchant_account: &MerchantAccount,
        connector_name: &str,
        connector_webhook_details: Option<Result<MerchantConnectorWebhookDetails, ParsingError>>,
    ) -> (res: Result<ConnectorWebhookSecrets, ConnectorError>)
        default_ensures
            secrets_from_details(connector_webhook_details, res),
    {
        connector_webhook_secrets(connector_webhook_details)
    }

    /// The signature that the webhook carries.
    fn get_webhook_source_verification_signature(&self, request: &IncomingWebhookRequestDetails) -> (res: Result<Vec<u8>, ConnectorError>)
        default_ensures
            res is Ok && res->Ok_0@ == Seq::<u8>::empty(),
    {
        Ok(Vec::new())
    }

    /// The message that the signature signs.
    fn get_webhook_source_verification_message(
        &self,
        request: &IncomingWebhookRequestDetails,
        merchant_id: &str,
        secret: &[u8],
    ) -> (res: Result<Vec<u8>, ConnectorError>)
        default_ensures
            res is Ok && res->Ok_0@ == Seq::<u8>::empty(),
    {
        Ok(Vec::new())
    }

    /// Verifies that the webhook comes from the connector, asking for the
    /// algorithm, the signature, the secrets and the message in turn, each
    /// only once the ones before it were obtained: a failure of any step is
    /// a source verification failure, and otherwise the algorithm is handed
    /// the secret, the signature and the message that the connector gave,
    /// and its answer decides (`source_verified_with`).
    fn verify_webhook_source(
        &self,
        request: &IncomingWebhookRequestDetails,
        merchant_account: &MerchantAccount,
        connector_webhook_details: Option<Result<MerchantConnectorWebhookDetails, ParsingError>>,
        connector_label: &str,
    ) -> (res: Result<bool, ConnectorError>)
        ensures
            exists|algorithm: Result<Box<dyn VerifySignature>, ConnectorError>|
                #[trigger] call_ensures(Self::get_webhook_source_verification_algorithm, (self, request), algorithm)
                    && match algorithm {
                    Err(_) => res == Err::<bool, ConnectorError>(ConnectorError::WebhookSourceVerificationFailed),
                    Ok(a) => exists|signature: Result<Vec<u8>, ConnectorError>|
                        #[trigger] call_ensures(Self::get_webhook_source_verification_signature, (self, request), signature)
                            && match signature {
                            Err(_) => res == Err::<bool, ConnectorError>(ConnectorError::WebhookSourceVerificationFailed),
                            Ok(_) => exists|secrets: Result<ConnectorWebhookSecrets, ConnectorError>|
                                #[trigger] call_ensures(
                                    Self::get_webhook_source_verification_merchant_secret,
                                    (self, merchant_account, connector_label, connector_webhook_details),
                                    secrets,
                                ) && match secrets {
                                    Err(_) => res == Err::<bool, ConnectorError>(
                                        ConnectorError::WebhookSourceVerificationFailed,
                                    ),
                                    Ok(w) => exists|merchant_id: &str, secret: &[u8], message: Result<Vec<u8>, ConnectorError>|
                                        #[trigger] call_ensures(
                                            Self::get_webhook_source_verification_message,
                                            (self, request, merchant_id, secret),
                                            message,
                                        ) && merchant_id@ == merchant_account.merchant_id@ && secret@ == w.secret@
                                            && source_verified_with(
                                            |k: Seq<u8>, s: Seq<u8>, m: Seq<u8>, answer: Result<bool, CryptoError>|
                                                a.verifies(k, s, m, answer),
                                            signature,
                                            secrets,
                                            message,
                                            res,
                                        ),
                                },
                        },
                },
    {
        let get_algorithm = Self::get_webhook_source_verification_algorithm;
        let get_signature = Self::get_webhook_source_verification_signature;
        let get_secrets = Self::get_webhook_source_verification_merchant_secret;
        let get_message = Self::get_webhook_source_verification_message;
        let algorithm_res = get_algorithm(self, request);
        let algorithm = match algorithm_res {
            Ok(a) => a,
            Err(_) => return Err(ConnectorError::WebhookSourceVerificationFailed),
        };
        let signature = get_signature(self, request);
        if signature.is_err() {
            return Err(ConnectorError::WebhookSourceVerificationFailed);
        }
        let secrets = get_secrets(self, merchant_account, connector_label, connector_webhook_details);
        let message = match &secrets {
            Ok(w) => get_message(self, request, merchant_account.merchant_id.as_str(), w.secret.as_slice()),
            Err(_) => return Err(ConnectorError::WebhookSourceVerificationFailed),
        };
        let res = verify_webhook_source_from(&algorithm, signature, secrets, message);
        proof {
            let verifies = |k: Seq<u8>, s: Seq<u8>, m: Seq<u8>, answer: Result<bool, CryptoError>|
                algorithm_res->Ok_0.verifies(k, s, m, answer);
            if message is Ok {
                let (k, s, m) = (secrets->Ok_0.secret@, signature->Ok_0@, message->Ok_0@);
                let answer = choose|answer: Result<bool, CryptoError>|
                    #[trigger] algorithm.verifies(k, s, m, answer) && res == verified_or_failure(answer);
                assert(verifies(k, s, m, answer));
            }
            assert(source_verified_with(verifies, signature, secrets, message, res));
        }
        res
    }

    /// The object that the webhook is about.
    fn get_webhook_object_reference_id(&self, request: &IncomingWebhookRequestDetails) -> Result<ObjectReferenceId, ConnectorError>;

    /// The event that the webhook reports.
    fn get_webhook_event_type(&self, request: &IncomingWebhookRequestDetails) -> Result<IncomingWebhookEvent, ConnectorError>;

    /// The resource that the webhook carries.
    fn get_webhook_resource_object(&self, request: &IncomingWebhookRequestDetails) -> Result<serde_json::Value, ConnectorError>;

    /// What the router answers the webhook call with.
    fn get_webhook_api_response(&self, request: &IncomingWebhookRequestDetails) -> (res: Result<ApplicationResponse, ConnectorError>)
        default_ensures
            res matches Ok(ApplicationResponse::StatusOk),
    {
        Ok(ApplicationResponse::StatusOk)
    }

    /// The dispute that the webhook reports; not implemented by default.
    fn get_dispute_details(&self, request: &IncomingWebhookRequestDetails) -> (res: Result<DisputePayload, ConnectorError>)
        default_ensures
            res is Err && (res->Err_0 matches ConnectorError::NotImplemented(msg) && msg@ == "get_dispute_details method"@),
    {
        Err(ConnectorError::NotImplemented(String::from_str("get_dispute_details method")))
    }
}

/// With the default decoding steps (an algorithm that hands every message
/// back, the request's body as the message, a secret that is obtained),
/// decoding a webhook body gives the request's body back, whatever the
/// secret.
pub proof fn lemma_default_decoding_gives_body_back<C: IncomingWebhook>(
    connector: &C,
    request: &IncomingWebhookRequestDetails,
    merchant_id: &str,
    res: Result<Vec<u8>, ConnectorError>,
)
    requires
        call_ensures(C::decode_webhook_body, (connector, request, merchant_id), res),
        forall|algorithm: Result<Box<dyn DecodeMessage>, ConnectorError>|
            #[trigger] call_ensures(C::get_webhook_body_decoding_algorithm, (connector, request), algorithm) ==> (
            algorithm matches Ok(a) && hands_message_back(
                |s: Seq<u8>, m: Seq<u8>, answer: Result<Seq<u8>, CryptoError>| a.decodes(s, m, answer),
            )),
        forall|message: Result<Vec<u8>, ConnectorError>|
            #[trigger] call_ensures(C::get_webhook_body_decoding_message, (connector, request), message) ==> message is Ok
                && message->Ok_0@ == request.body@,
        forall|secret: Result<Vec<u8>, ConnectorError>|
            #[trigger] call_ensures(C::get_webhook_body_decoding_merchant_secret, (connector, merchant_id), secret)
                ==> secret is Ok,
    ensures
        res is Ok && res->Ok_0@ == request.body@,
{
}

/// With the default verification steps (an algorithm that accepts every
/// signature, a signature and a message that are obtained, the secrets
/// from the webhook details) and no webhook details configured, the
/// webhook's source is reported verified: `Ok(true)`, though the secret is
/// the default one.
pub proof fn lemma_default_verification_accepts<C: IncomingWebhook>(
    connector: &C,
    request: &IncomingWebhookRequestDetails,
    merchant_account: &MerchantAccount,
    connector_label: &str,
    res: Result<bool, ConnectorError>,
)
    requires
        call_ensures(
            C::verify_webhook_source,
            (connector, request, merchant_account, None::<Result<MerchantConnectorWebhookDetails, ParsingError>>, connector_label),
            res,
        ),
        forall|algorithm: Result<Box<dyn VerifySignature>, ConnectorError>|
            #[trigger] call_ensures(C::get_webhook_source_verification_algorithm, (connector, request), algorithm) ==> (
            algorithm matches Ok(a) && accepts_every_signature(
                |k: Seq<u8>, s: Seq<u8>, m: Seq<u8>, answer: Result<bool, CryptoError>| a.verifies(k, s, m, answer),
            )),
        forall|signature: Result<Vec<u8>, ConnectorError>|
            #[trigger] call_ensures(C::get_webhook_source_verification_signature, (connector, request), signature)
                ==> signature is Ok,
        forall|secrets: Result<ConnectorWebhookSecrets, ConnectorError>|
            #[trigger] call_ensures(
                C::get_webhook_source_verification_merchant_secret,
                (connector, merchant_account, connector_label, None::<Result<MerchantConnectorWebhookDetails, ParsingError>>),
                secrets,
            ) ==> secrets_from_details(None, secrets),
        forall|merchant_id: &str, secret: &[u8], message: Result<Vec<u8>, ConnectorError>|
            #[trigger] call_ensures(C::get_webhook_source_verification_message, (connector, request, merchant_id, secret), message)
                ==> message is Ok,
    ensures
        res == Ok::<bool, ConnectorError>(true),
{
}

/// Where the secrets come from the webhook details as the default step
/// takes them and the details did not parse, the webhook's source fails
/// verification, whatever the other steps and the algorithm give.
pub proof fn lemma_unparsed_details_fail_verification<C: IncomingWebhook>(
    connector: &C,
    request: &IncomingWebhookRequestDetails,
    merchant_account: &MerchantAccount,
    parse_error: ParsingError,
    connector_label: &str,
    res: Result<bool, ConnectorError>,
)
    requires
        call_ensures(
            C::verify_webhook_source,
            (connector, request, merchant_account, Some(Err::<MerchantConnectorWebhookDetails, ParsingError>(parse_error)), connector_label),
            res,
        ),
        forall|secrets: Result<ConnectorWebhookSecrets, ConnectorError>|
            #[trigger] call_ensures(
                C::get_webhook_source_verification_merchant_secret,
                (connector, merchant_account, connector_label, Some(Err::<MerchantConnectorWebhookDetails, ParsingError>(parse_error))),
                secrets,
            ) ==> secrets_from_details(Some(Err::<MerchantConnectorWebhookDetails, ParsingError>(parse_error)), secrets),
    ensures
        res == Err::<bool, ConnectorError>(ConnectorError::WebhookSourceVerificationFailed),
{
}

/// The verification algorithm is asked about the secret, the signature and
/// the message in that order: with an algorithm that accepts exactly the
/// signatures that are the tag of the message under the secret, a webhook's
/// source verifies exactly when the signature obtained is the tag of the
/// message obtained under the secret obtained.
pub proof fn lemma_verification_checks_signature_against_message<C: IncomingWebhook>(
    connector: &C,
    request: &IncomingWebhookRequestDetails,
    merchant_account: &MerchantAccount,
    connector_webhook_details: Option<Result<MerchantConnectorWebhookDetails, ParsingError>>,
    connector_label: &str,
    tag: spec_fn(Seq<u8>, Seq<u8>) -> Seq<u8>,
    signature: Seq<u8>,
    secret: Seq<u8>,
    message: Seq<u8>,
    res: Result<bool, ConnectorError>,
)
    requires
        call_ensures(
            C::verify_webhook_source,
            (connector, request, merchant_account, connector_webhook_details, connector_label),
            res,
        ),
        forall|algorithm: Result<Box<dyn VerifySignature>, ConnectorError>|
            #[trigger] call_ensures(C::get_webhook_source_verification_algorithm, (connector, request), algorithm) ==> (
            algorithm matches Ok(a) && forall|k: Seq<u8>, s: Seq<u8>, m: Seq<u8>, answer: Result<bool, CryptoError>|
                #[trigger] a.verifies(k, s, m, answer) <==> answer == Ok::<bool, CryptoError>(s == tag(k, m))),
        forall|r: Result<Vec<u8>, ConnectorError>|
            #[trigger] call_ensures(C::get_webhook_source_verification_signature, (connector, request), r) ==> r is Ok
                && r->Ok_0@ == signature,
        forall|r: Result<ConnectorWebhookSecrets, ConnectorError>|
            #[trigger] call_ensures(
                C::get_webhook_source_verification_merchant_secret,
                (connector, merchant_account, connector_label, connector_webhook_details),
                r,
            ) ==> r is Ok && r->Ok_0.secret@ == secret,
        forall|merchant_id: &str, key: &[u8], r: Result<Vec<u8>, ConnectorError>|
            #[trigger] call_ensures(C::get_webhook_source_verification_message, (connector, request, merchant_id, key), r)
                ==> r is Ok && r->Ok_0@ == message,
    ensures
        res == Ok::<bool, ConnectorError>(signature == tag(secret, message)),
{
}

/// The decoding algorithm is handed the secret and the message in that
/// order: with an algorithm that decodes a message under a secret to
/// `open(secret, message)`, decoding a webhook body gives `open` of the
/// secret obtained and the message obtained.
pub proof fn lemma_decoding_opens_message_with_secret<C: IncomingWebhook>(
    connector: &C,
    request: &IncomingWebhookRequestDetails,
    merchant_id: &str,
    open: spec_fn(Seq<u8>, Seq<u8>) -> Seq<u8>,
    secret: Seq<u8>,
    message: Seq<u8>,
    res: Result<Vec<u8>, ConnectorError>,
)
    requires
        call_ensures(C::decode_webhook_body, (connector, request, merchant_id), res),
        forall|algorithm: Result<Box<dyn DecodeMessage>, ConnectorError>|
            #[trigger] call_ensures(C::get_webhook_body_decoding_algorithm, (connector, request), algorithm) ==> (
            algorithm matches Ok(a) && forall|k: Seq<u8>, m: Seq<u8>, answer: Result<Seq<u8>, CryptoError>|
                #[trigger] a.decodes(k, m, answer) <==> answer == Ok::<Seq<u8>, CryptoError>(open(k, m))),
        forall|r: Result<Vec<u8>, ConnectorError>|
            #[trigger] call_ensures(C::get_webhook_body_decoding_message, (connector, request), r) ==> r is Ok
                && r->Ok_0@ == message,
        forall|r: Result<Vec<u8>, ConnectorError>|
            #[trigger] call_ensures(C::get_webhook_body_decoding_merchant_secret, (connector, merchant_id), r) ==> r is Ok
                && r->Ok_0@ == secret,
    ensures
        res is Ok && res->Ok_0@ == open(secret, message),
{
}

/// Verifying with an algorithm that accepts exactly the signatures that are
/// the tag of the message under the secret gives whether the signature is
/// the tag of the message under the merchant's secret.
pub proof fn lemma_verify_from_checks_signature_against_message(
    algorithm: &Box<dyn VerifySignature>,
    tag: spec_fn(Seq<u8>, Seq<u8>) -> Seq<u8>,
    signature: Vec<u8>,
    secrets: ConnectorWebhookSecrets,
    message: Vec<u8>,
    res: Result<bool, ConnectorError>,
)
    requires
        call_ensures(
            verify_webhook_source_from,
            (algorithm, Ok::<Vec<u8>, ConnectorError>(signature), Ok::<ConnectorWebhookSecrets, ConnectorError>(secrets), Ok::<Vec<u8>, ConnectorError>(message)),
            res,
        ),
        forall|k: Seq<u8>, s: Seq<u8>, m: Seq<u8>, answer: Result<bool, CryptoError>|
            #[trigger] algorithm.verifies(k, s, m, answer) <==> answer == Ok::<bool, CryptoError>(s == tag(k, m)),
    ensures
        res == Ok::<bool, ConnectorError>(signature@ == tag(secrets.secret@, message@)),
{
}

/// Decoding with an algorithm that decodes a message under a secret to
/// `open(secret, message)` gives `open` of the merchant's secret and the
/// message.
pub proof fn lemma_decode_from_opens_message_with_secret(
    algorithm: &Box<dyn DecodeMessage>,
    open: spec_fn(Seq<u8>, Seq<u8>) -> Seq<u8>,
    message: Vec<u8>,
    secret: Vec<u8>,
    res: Result<Vec<u8>, ConnectorError>,
)
    requires
        call_ensures(
            decode_webhook_body_from,
            (algorithm, Ok::<Vec<u8>, ConnectorError>(message), Ok::<Vec<u8>, ConnectorError>(secret)),
            res,
        ),
        forall|k: Seq<u8>, m: Seq<u8>, answer: Result<Seq<u8>, CryptoError>|
            #[trigger] algorithm.decodes(k, m, answer) <==> answer == Ok::<Seq<u8>, CryptoError>(open(k, m)),
    ensures
        res is Ok && res->Ok_0@ == open(secret@, message@),
{
}

} // verus!
