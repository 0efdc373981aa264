//! The data that the router hands a connector for a flow and receives back
//! from it: the request, the addresses, the authentication, and the
//! connector's response.
use core::marker::PhantomData;
use vstd::prelude::*;
use vstd::string::*;

use crate::common::MinorUnit;
use crate::enums::{AttemptStatus, CaptureMethod, RefundStatus};
use crate::errors::ConnectorError;

verus! {

/// The details of a card as the customer entered them.
#[derive(Clone, Debug)]
pub struct Card {
    pub card_number: String,
    pub card_exp_month: String,
    pub card_exp_year: String,
    pub card_cvc: String,
    pub card_holder_name: Option<String>,
    pub card_issuer: Option<String>,
    pub card_network: Option<String>,
    pub nick_name: Option<String>,
}

/// The payment method that a payment is made with; for every method but a
/// card only its kind is held.
#[derive(Clone, Debug)]
pub enum PaymentMethodData {
    Card(Card),
    CardRedirect,
    Wallet,
    PayLater,
    BankRedirect,
    BankDebit,
    BankTransfer,
    Crypto,
    MandatePayment,
    Reward,
    RealTimePayment,
    MobilePayment,
    Upi,
    Voucher,
    GiftCard,
    OpenBanking,
    CardToken,
    NetworkToken,
    CardDetailsForNetworkTransactionId,
}

/// A postal address with the name of the person at it.
#[derive(Clone, Debug)]
pub struct AddressDetails {
    pub city: Option<String>,
    pub country: Option<String>,
    pub line1: Option<String>,
    pub line2: Option<String>,
    pub zip: Option<String>,
    pub state: Option<String>,
    pub first_name: Option<String>,
    pub last_name: Option<String>,
}

/// The full name made of an optional first and last name: both joined by a
/// space, or whichever one is present.
pub open spec fn full_name_of(first: Option<Seq<char>>, last: Option<Seq<char>>) -> Option<
    Seq<char>,
> {
    match (first, last) {
        (Some(f), Some(l)) => Some(f + seq![' '] + l),
        (Some(f), None) => Some(f),
        (None, Some(l)) => Some(l),
        (None, None) => None,
    }
}

/// The view of an optional string.
pub open spec fn opt_view(s: Option<String>) -> Option<Seq<char>> {
    match s {
        Some(v) => Some(v@),
        None => None,
    }
}

impl AddressDetails {
    /// The full name at this address: first and last name joined by a space,
    /// or whichever of the two is present.
    pub fn get_optional_full_name(&self) -> (res: Option<String>)
        ensures
            opt_view(res) == full_name_of(opt_view(self.first_name), opt_view(self.last_name)),
    {
        match (&self.first_name, &self.last_name) {
            (Some(first_name), Some(last_name)) => {
                proof {
                    reveal_strlit(" ");
                }
                let full = first_name.clone().concat(" ").concat(last_name.as_str());
                Some(full)
            },
            (Some(name), None) => Some(name.clone()),
            (None, Some(name)) => Some(name.clone()),
            (None, None) => None,
        }
    }
}

/// An address with the contact details of the person at it.
#[derive(Clone, Debug)]
pub struct Address {
    pub address: Option<AddressDetails>,
    pub phone_number: Option<String>,
    pub email: Option<String>,
}

/// The addresses that come with a payment.
#[derive(Clone, Debug)]
pub struct PaymentAddress {
    pub shipping: Option<Address>,
    pub billing: Option<Address>,
    pub payment_method_billing: Option<Address>,
}

/// The full name on the billing address of the payment method, where there
/// is one.
pub open spec fn billing_full_name(address: PaymentAddress) -> Option<Seq<char>> {
    match address.payment_method_billing {
        Some(billing) => match billing.address {
            Some(details) => full_name_of(opt_view(details.first_name), opt_view(details.last_name)),
            None => None,
        },
        None => None,
    }
}

/// The request data of a payment authorization.
#[derive(Clone, Debug)]
pub struct PaymentsAuthorizeData {
    pub payment_method_data: PaymentMethodData,
    pub amount: i64,
    pub minor_amount: MinorUnit,
    pub currency: String,
    pub capture_method: Option<CaptureMethod>,
    pub email: Option<String>,
    pub statement_descriptor: Option<String>,
    pub confirm: bool,
}

/// Whether a payment with this capture method is captured automatically;
/// `None` for the methods that a connector cannot run in one step.
pub open spec fn auto_capture_of(capture_method: Option<CaptureMethod>) -> Option<bool> {
    match capture_method {
        None => Some(true),
        Some(CaptureMethod::Automatic) => Some(true),
        Some(CaptureMethod::SequentialAutomatic) => Some(true),
        Some(CaptureMethod::Manual) => Some(false),
        Some(CaptureMethod::ManualMultiple) => None,
        Some(CaptureMethod::Scheduled) => None,
    }
}

impl PaymentsAuthorizeData {
    /// Whether the payment is captured together with its authorization.
    pub fn is_auto_capture(&self) -> (res: Result<bool, ConnectorError>)
        ensures
            match auto_capture_of(self.capture_method) {
                Some(b) => res == Ok::<bool, ConnectorError>(b),
                None => res == Err::<bool, ConnectorError>(ConnectorError::CaptureMethodNotSupported),
            },
    {
        match self.capture_method {
            Some(CaptureMethod::Automatic) | Some(CaptureMethod::SequentialAutomatic) | None => Ok(
                true,
            ),
            Some(CaptureMethod::Manual) => Ok(false),
            Some(CaptureMethod::ManualMultiple) | Some(CaptureMethod::Scheduled) => Err(
                ConnectorError::CaptureMethodNotSupported,
            ),
        }
    }
}

/// The request data of a refund.
#[derive(Clone, Debug)]
pub struct RefundsData {
    pub refund_id: String,
    pub connector_transaction_id: String,
    pub refund_amount: i64,
    pub minor_refund_amount: MinorUnit,
    pub currency: String,
    pub reason: Option<String>,
    pub connector_refund_id: Option<String>,
}

/// The credentials of a merchant at a connector, in the form that the
/// connector expects.
#[derive(Clone, Debug)]
pub enum ConnectorAuthType {
    TemporaryAuth,
    HeaderKey { api_key: String },
    BodyKey { api_key: String, key1: String },
    SignatureKey { api_key: String, key1: String, api_secret: String },
    MultiAuthKey { api_key: String, key1: String, api_secret: String, key2: String },
    CertificateAuth { certificate: String, private_key: String },
    NoKey,
}

/// The identifier under which a connector knows a transaction.
#[derive(Clone, Debug)]
pub enum ResponseId {
    ConnectorTransactionId(String),
    EncodedData(String),
    NoResponseId,
}

/// What a connector answers to a payment flow.
#[derive(Clone, Debug)]
pub enum PaymentsResponseData {
    TransactionResponse {
        resource_id: ResponseId,
        redirection_data: Option<String>,
        mandate_reference: Option<String>,
        connector_metadata: Option<serde_json::Value>,
        network_txn_id: Option<String>,
        connector_response_reference_id: Option<String>,
        incremental_authorization_allowed: Option<bool>,
    },
    TransactionUnresolvedResponse {
        resource_id: ResponseId,
        reason: Option<String>,
        connector_response_reference_id: Option<String>,
    },
}

/// What a connector answers to a refund flow.
#[derive(Clone, Debug)]
pub struct RefundsResponseData {
    pub connector_refund_id: String,
    pub refund_status: RefundStatus,
}

/// A failure that a connector reported.
#[derive(Clone, Debug)]
pub struct ErrorResponse {
    pub code: String,
    pub message: String,
    pub reason: Option<String>,
    pub status_code: u16,
    pub attempt_status: Option<AttemptStatus>,
    pub connector_transaction_id: Option<String>,
}

/// The flow of executing a refund.
#[derive(Clone, Copy, Debug)]
pub struct Execute;

/// The flow of synchronising a refund's status.
#[derive(Clone, Copy, Debug)]
pub struct RSync;

/// The flow of authorizing a payment.
#[derive(Clone, Copy, Debug)]
pub struct Authorize;

/// Everything the router hands a connector for one flow `F`, with the
/// flow's request `Req` and the connector's response `Resp`.
pub struct RouterData<F, Req, Resp> {
    pub flow: PhantomData<F>,
    pub merchant_id: String,
    pub customer_id: Option<String>,
    pub connector: String,
    pub payment_id: String,
    pub attempt_id: String,
    pub status: AttemptStatus,
    pub connector_auth_type: ConnectorAuthType,
    pub description: Option<String>,
    pub address: PaymentAddress,
    pub amount_captured: Option<i64>,
    pub connector_request_reference_id: String,
    pub request: Req,
    pub response: Result<Resp, ErrorResponse>,
}

/// The router data of a payment authorization.
pub type PaymentsAuthorizeRouterData = RouterData<Authorize, PaymentsAuthorizeData, PaymentsResponseData>;

/// The router data of a refund flow.
pub type RefundsRouterData<F> = RouterData<F, RefundsData, RefundsResponseData>;

impl<F, Req, Resp> RouterData<F, Req, Resp> {
    /// The billing address of the payment method, where there is one.
    pub fn get_optional_billing(&self) -> (res: Option<&Address>)
        ensures
            res == match self.address.payment_method_billing {
                Some(a) => Some(&a),
                None => None::<&Address>,
            },
    {
        match &self.address.payment_method_billing {
            Some(a) => Some(a),
            None => None,
        }
    }

    /// The full name on the billing address of the payment method.
    pub fn get_optional_billing_full_name(&self) -> (res: Option<String>)
        ensures
            opt_view(res) == billing_full_name(self.address),
    {
        match self.get_optional_billing() {
            Some(billing) => match &billing.address {
                Some(details) => details.get_optional_full_name(),
                None => None,
            },
            None => None,
        }
    }
}

/// A connector's parsed response `R` together with the router data of the
/// flow it answers.
pub struct ResponseRouterData<F, R, Req, Resp> {
    pub response: R,
    pub data: RouterData<F, Req, Resp>,
    pub http_code: u16,
}

/// The message of the error for a payment method that `connector` does not
/// implement.
pub fn get_unimplemented_payment_method_error_message(connector: &str) -> (res: String)
    ensures
        res@ == "Selected payment method through "@ + connector@,
{
    String::from_str("Selected payment method through ").concat(connector)
}

} // verus!
