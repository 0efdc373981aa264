use router::crypto::{CryptoError, DecodeMessage, GcmAes256, NoAlgorithm, VerifySignature};
use router::errors::{ConnectorError, ParsingError};
use router::webhooks::{
    connector_webhook_secrets, decode_webhook_body_from, verify_webhook_source_from,
    ApplicationResponse, ConnectorWebhookSecrets, IncomingWebhook, IncomingWebhookEvent,
    IncomingWebhookRequestDetails, MerchantAccount, MerchantConnectorWebhookDetails,
    ObjectReferenceId, PaymentIdType,
};

struct TestConnector;

impl IncomingWebhook for TestConnector {
    fn get_webhook_object_reference_id(
        &self,
        _request: &IncomingWebhookRequestDetails,
    ) -> Result<ObjectReferenceId, ConnectorError> {
        Ok(ObjectReferenceId::PaymentId(PaymentIdType::ConnectorTransactionId("txn".to_string())))
    }

    fn get_webhook_event_type(
        &self,
        _request: &IncomingWebhookRequestDetails,
    ) -> Result<IncomingWebhookEvent, ConnectorError> {
        Ok(IncomingWebhookEvent::PaymentIntentSuccess)
    }

    fn get_webhook_resource_object(
        &self,
        _request: &IncomingWebhookRequestDetails,
    ) -> Result<serde_json::Value, ConnectorError> {
        Ok(serde_json::Value::Null)
    }
}

struct FailingMessageConnector;

impl IncomingWebhook for FailingMessageConnector {
    fn get_webhook_body_decoding_message(
        &self,
        _request: &IncomingWebhookRequestDetails,
    ) -> Result<Vec<u8>, ConnectorError> {
        Err(ConnectorError::WebhookSignatureNotFound)
    }

    fn get_webhook_source_verification_signature(
        &self,
        _request: &IncomingWebhookRequestDetails,
    ) -> Result<Vec<u8>, ConnectorError> {
        Err(ConnectorError::WebhookSignatureNotFound)
    }

    fn get_webhook_object_reference_id(
        &self,
        _request: &IncomingWebhookRequestDetails,
    ) -> Result<ObjectReferenceId, ConnectorError> {
        Err(ConnectorError::WebhookReferenceIdNotFound)
    }

    fn get_webhook_event_type(
        &self,
        _request: &IncomingWebhookRequestDetails,
    ) -> Result<IncomingWebhookEvent, ConnectorError> {
        Err(ConnectorError::WebhookEventTypeNotFound)
    }

    fn get_webhook_resource_object(
        &self,
        _request: &IncomingWebhookRequestDetails,
    ) -> Result<serde_json::Value, ConnectorError> {
        Err(ConnectorError::WebhookResourceObjectNotFound)
    }
}

fn request() -> IncomingWebhookRequestDetails {
    IncomingWebhookRequestDetails {
        method: "POST".to_string(),
        uri: "/webhooks/merchant_1/opayo".to_string(),
        headers: vec![("content-type".to_string(), b"application/json".to_vec())],
        body: br#"{"event":"paid"}"#.to_vec(),
        query_params: String::new(),
    }
}

fn merchant() -> MerchantAccount {
    MerchantAccount { merchant_id: "merchant_1".to_string(), merchant_name: None, return_url: None }
}

fn no_decoding() -> Box<dyn DecodeMessage> {
    Box::new(NoAlgorithm)
}

fn no_verification() -> Box<dyn VerifySignature> {
    Box::new(NoAlgorithm)
}

#[test]
fn secrets_default_when_unconfigured() {
    let secrets = connector_webhook_secrets(None).unwrap();
    assert_eq!(secrets.secret, b"default_secret".to_vec());
    assert!(secrets.additional_secret.is_none());
}

#[test]
fn secrets_from_configured_details() {
    let details = MerchantConnectorWebhookDetails {
        merchant_secret: "whsec_123".to_string(),
        additional_secret: Some("extra".to_string()),
    };
    let secrets = connector_webhook_secrets(Some(Ok(details))).unwrap();
    assert_eq!(
        secrets,
        ConnectorWebhookSecrets { secret: b"whsec_123".to_vec(), additional_secret: Some("extra".to_string()) }
    );
}

#[test]
fn unparsable_details_fail_verification() {
    assert_eq!(
        connector_webhook_secrets(Some(Err(ParsingError))),
        Err(ConnectorError::WebhookSourceVerificationFailed)
    );
}

#[test]
fn default_decoding_gives_the_body() {
    assert_eq!(TestConnector.decode_webhook_body(&request(), "merchant_1"), Ok(request().body));
}

#[test]
fn failing_decoding_step_is_decoding_failure() {
    assert_eq!(
        FailingMessageConnector.decode_webhook_body(&request(), "merchant_1"),
        Err(ConnectorError::WebhookBodyDecodingFailed)
    );
    assert_eq!(
        decode_webhook_body_from(&no_decoding(), Ok(vec![1]), Err(ConnectorError::ParsingFailed)),
        Err(ConnectorError::WebhookBodyDecodingFailed)
    );
    assert_eq!(decode_webhook_body_from(&no_decoding(), Ok(vec![1, 2]), Ok(vec![])), Ok(vec![1, 2]));
}

#[test]
fn default_verification_accepts() {
    assert_eq!(TestConnector.verify_webhook_source(&request(), &merchant(), None, "opayo"), Ok(true));
}

#[test]
fn verification_failures() {
    assert_eq!(
        TestConnector.verify_webhook_source(&request(), &merchant(), Some(Err(ParsingError)), "opayo"),
        Err(ConnectorError::WebhookSourceVerificationFailed)
    );
    assert_eq!(
        FailingMessageConnector.verify_webhook_source(&request(), &merchant(), None, "opayo"),
        Err(ConnectorError::WebhookSourceVerificationFailed)
    );
    assert_eq!(
        verify_webhook_source_from(&no_verification(), Ok(vec![]), connector_webhook_secrets(None), Err(ConnectorError::ParsingFailed)),
        Err(ConnectorError::WebhookSourceVerificationFailed)
    );
}

#[test]
fn default_api_response_and_dispute_details() {
    assert!(matches!(TestConnector.get_webhook_api_response(&request()), Ok(ApplicationResponse::StatusOk)));
    match TestConnector.get_dispute_details(&request()) {
        Err(e) => assert_eq!(e, ConnectorError::NotImplemented("get_dispute_details method".to_string())),
        Ok(_) => panic!("dispute details are not implemented by default"),
    }
}

#[test]
fn required_steps_come_from_the_connector() {
    assert_eq!(TestConnector.get_webhook_event_type(&request()), Ok(IncomingWebhookEvent::PaymentIntentSuccess));
    assert_eq!(
        FailingMessageConnector.get_webhook_object_reference_id(&request()),
        Err(ConnectorError::WebhookReferenceIdNotFound)
    );
}

/// Accepts a signature exactly when it is the message reversed, keyed by
/// the secret being non-empty.
struct ReversedSignature;

impl VerifySignature for ReversedSignature {
    fn verify_signature(&self, secret: &[u8], signature: &[u8], msg: &[u8]) -> Result<bool, CryptoError> {
        if secret.is_empty() {
            return Err(CryptoError::SignatureVerificationFailed);
        }
        let mut reversed = msg.to_vec();
        reversed.reverse();
        Ok(reversed == signature)
    }
}

fn reversed_signature() -> Box<dyn VerifySignature> {
    Box::new(ReversedSignature)
}

struct SigningConnector {
    signature: Vec<u8>,
}

impl IncomingWebhook for SigningConnector {
    fn get_webhook_body_decoding_algorithm(
        &self,
        _request: &IncomingWebhookRequestDetails,
    ) -> Result<Box<dyn DecodeMessage>, ConnectorError> {
        Ok(Box::new(GcmAes256))
    }

    fn get_webhook_body_decoding_merchant_secret(&self, _merchant_id: &str) -> Result<Vec<u8>, ConnectorError> {
        Ok(vec![5u8; 32])
    }

    fn get_webhook_source_verification_algorithm(
        &self,
        _request: &IncomingWebhookRequestDetails,
    ) -> Result<Box<dyn VerifySignature>, ConnectorError> {
        Ok(Box::new(ReversedSignature))
    }

    fn get_webhook_source_verification_signature(
        &self,
        _request: &IncomingWebhookRequestDetails,
    ) -> Result<Vec<u8>, ConnectorError> {
        Ok(self.signature.clone())
    }

    fn get_webhook_source_verification_message(
        &self,
        request: &IncomingWebhookRequestDetails,
        _merchant_id: &str,
        _secret: &[u8],
    ) -> Result<Vec<u8>, ConnectorError> {
        Ok(request.body.clone())
    }

    fn get_webhook_object_reference_id(
        &self,
        _request: &IncomingWebhookRequestDetails,
    ) -> Result<ObjectReferenceId, ConnectorError> {
        Err(ConnectorError::WebhookReferenceIdNotFound)
    }

    fn get_webhook_event_type(
        &self,
        _request: &IncomingWebhookRequestDetails,
    ) -> Result<IncomingWebhookEvent, ConnectorError> {
        Err(ConnectorError::WebhookEventTypeNotFound)
    }

    fn get_webhook_resource_object(
        &self,
        _request: &IncomingWebhookRequestDetails,
    ) -> Result<serde_json::Value, ConnectorError> {
        Err(ConnectorError::WebhookResourceObjectNotFound)
    }
}

#[test]
fn connector_algorithm_decides_verification() {
    let mut reversed = request().body;
    reversed.reverse();
    let good = SigningConnector { signature: reversed };
    assert_eq!(good.verify_webhook_source(&request(), &merchant(), None, "opayo"), Ok(true));
    let bad = SigningConnector { signature: b"forged".to_vec() };
    assert_eq!(bad.verify_webhook_source(&request(), &merchant(), None, "opayo"), Ok(false));
    assert_eq!(
        verify_webhook_source_from(&reversed_signature(), Ok(vec![1]), Ok(ConnectorWebhookSecrets { secret: vec![], additional_secret: None }), Ok(vec![1])),
        Err(ConnectorError::WebhookSourceVerificationFailed)
    );
}

#[test]
fn connector_algorithm_decodes_body() {
    let key = [5u8; 32];
    let unbound = ring::aead::UnboundKey::new(&ring::aead::AES_256_GCM, &key).unwrap();
    let sealing = ring::aead::LessSafeKey::new(unbound);
    let mut in_out = b"decoded webhook".to_vec();
    sealing
        .seal_in_place_append_tag(ring::aead::Nonce::assume_unique_for_key([2u8; 12]), ring::aead::Aad::empty(), &mut in_out)
        .unwrap();
    let mut body = vec![2u8; 12];
    body.extend_from_slice(&in_out);
    let mut req = request();
    req.body = body;
    let connector = SigningConnector { signature: vec![] };
    assert_eq!(connector.decode_webhook_body(&req, "merchant_1"), Ok(b"decoded webhook".to_vec()));
    assert_eq!(connector.decode_webhook_body(&request(), "merchant_1"), Err(ConnectorError::WebhookBodyDecodingFailed));
}

#[test]
fn failing_signature_step_stops_verification() {
    assert_eq!(
        FailingMessageConnector.verify_webhook_source(&request(), &merchant(), Some(Err(ParsingError)), "opayo"),
        Err(ConnectorError::WebhookSourceVerificationFailed)
    );
}

struct NoAlgorithmConnector;

impl IncomingWebhook for NoAlgorithmConnector {
    fn get_webhook_body_decoding_algorithm(
        &self,
        _request: &IncomingWebhookRequestDetails,
    ) -> Result<Box<dyn DecodeMessage>, ConnectorError> {
        Err(ConnectorError::WebhookSignatureNotFound)
    }

    fn get_webhook_source_verification_algorithm(
        &self,
        _request: &IncomingWebhookRequestDetails,
    ) -> Result<Box<dyn VerifySignature>, ConnectorError> {
        Err(ConnectorError::WebhookSignatureNotFound)
    }

    fn get_webhook_object_reference_id(
        &self,
        _request: &IncomingWebhookRequestDetails,
    ) -> Result<ObjectReferenceId, ConnectorError> {
        Err(ConnectorError::WebhookReferenceIdNotFound)
    }

    fn get_webhook_event_type(
        &self,
        _request: &IncomingWebhookRequestDetails,
    ) -> Result<IncomingWebhookEvent, ConnectorError> {
        Err(ConnectorError::WebhookEventTypeNotFound)
    }

    fn get_webhook_resource_object(
        &self,
        _request: &IncomingWebhookRequestDetails,
    ) -> Result<serde_json::Value, ConnectorError> {
        Err(ConnectorError::WebhookResourceObjectNotFound)
    }
}

#[test]
fn failing_algorithm_step() {
    assert_eq!(
        NoAlgorithmConnector.decode_webhook_body(&request(), "merchant_1"),
        Err(ConnectorError::WebhookSignatureNotFound)
    );
    assert_eq!(
        NoAlgorithmConnector.verify_webhook_source(&request(), &merchant(), None, "opayo"),
        Err(ConnectorError::WebhookSourceVerificationFailed)
    );
}

#[test]
fn pipelines_hand_the_obtained_values_to_the_algorithm() {
    let key = [9u8; 32];
    let unbound = ring::aead::UnboundKey::new(&ring::aead::AES_256_GCM, &key).unwrap();
    let sealing = ring::aead::LessSafeKey::new(unbound);
    let mut in_out = b"payload".to_vec();
    sealing
        .seal_in_place_append_tag(ring::aead::Nonce::assume_unique_for_key([4u8; 12]), ring::aead::Aad::empty(), &mut in_out)
        .unwrap();
    let mut sealed = vec![4u8; 12];
    sealed.extend_from_slice(&in_out);
    let gcm: Box<dyn DecodeMessage> = Box::new(GcmAes256);
    assert_eq!(decode_webhook_body_from(&gcm, Ok(sealed.clone()), Ok(key.to_vec())), Ok(b"payload".to_vec()));
    assert_eq!(
        decode_webhook_body_from(&gcm, Ok(sealed), Ok(vec![1u8; 32])),
        Err(ConnectorError::WebhookBodyDecodingFailed)
    );
    let secrets = ConnectorWebhookSecrets { secret: b"k".to_vec(), additional_secret: None };
    assert_eq!(
        verify_webhook_source_from(&reversed_signature(), Ok(vec![3, 2, 1]), Ok(secrets.clone()), Ok(vec![1, 2, 3])),
        Ok(true)
    );
    assert_eq!(
        verify_webhook_source_from(&reversed_signature(), Ok(vec![1, 2, 3]), Ok(secrets), Ok(vec![1, 2, 3])),
        Ok(false)
    );
}
