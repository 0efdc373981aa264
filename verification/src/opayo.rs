//! The Opayo connector: how the router's payment and refund data become
//! Opayo's requests, and how Opayo's responses become the router's data.
use vstd::prelude::*;
use vstd::std_specs::convert::{FromSpecImpl, TryFromSpecImpl};

use crate::common::MinorUnit;
use crate::enums;
use crate::router_data::{
    get_unimplemented_payment_method_error_message, billing_full_name, auto_capture_of,
    PaymentAddress, PaymentMethodData, PaymentsAuthorizeRouterData, RefundsRouterData, RouterData,
    ResponseRouterData, PaymentsResponseData, RefundsResponseData, RefundsData, ResponseId, ConnectorAuthType, Execute, RSync,
};
use crate::errors::ConnectorError;

verus! {

/// A flow's router data together with the amount that Opayo is asked for.
pub struct OpayoRouterData<T> {
    pub amount: MinorUnit,
    pub router_data: T,
}

impl<T> From<(MinorUnit, T)> for OpayoRouterData<T> {
    fn from(pair: (MinorUnit, T)) -> (res: Self) {
        let (amount, router_data) = pair;
        OpayoRouterData { amount, router_data }
    }
}

impl<T> FromSpecImpl<(MinorUnit, T)> for OpayoRouterData<T> {
    open spec fn obeys_from_spec() -> bool {
        true
    }

    open spec fn from_spec(pair: (MinorUnit, T)) -> Self {
        OpayoRouterData { amount: pair.0, router_data: pair.1 }
    }
}


/// The card of an Opayo payment request.
#[derive(Debug, PartialEq, Eq)]
pub struct OpayoCard {
    pub name: String,
    pub number: String,
    pub expiry_month: String,
    pub expiry_year: String,
    pub cvc: String,
    pub complete: bool,
}

impl Default for OpayoCard {
    fn default() -> (res: Self)
        ensures
            res.name@ == Seq::<char>::empty(),
            res.number@ == Seq::<char>::empty(),
            res.expiry_month@ == Seq::<char>::empty(),
            res.expiry_year@ == Seq::<char>::empty(),
            res.cvc@ == Seq::<char>::empty(),
            !res.complete,
    {
        OpayoCard {
            name: String::new(),
            number: String::new(),
            expiry_month: String::new(),
            expiry_year: String::new(),
            cvc: String::new(),
            complete: false,
        }
    }
}

/// A payment request to Opayo.
#[derive(Debug, PartialEq, Eq)]
pub struct OpayoPaymentsRequest {
    pub amount: MinorUnit,
    pub card: OpayoCard,
}

impl Default for OpayoPaymentsRequest {
    fn default() -> (res: Self)
        ensures
            res.amount == MinorUnit(0),
            res.card.name@ == Seq::<char>::empty(),
            res.card.number@ == Seq::<char>::empty(),
            res.card.expiry_month@ == Seq::<char>::empty(),
            res.card.expiry_year@ == Seq::<char>::empty(),
            res.card.cvc@ == Seq::<char>::empty(),
            !res.card.complete,
    {
        OpayoPaymentsRequest { amount: MinorUnit(0), card: OpayoCard::default() }
    }
}

/// The message of Opayo's error for a payment method it does not implement.
pub open spec fn opayo_unimplemented_message() -> Seq<char> {
    "Selected payment method through "@ + "Opayo"@
}

/// The name on Opayo's card: the full billing name, or the empty text.
pub open spec fn opayo_card_name(address: PaymentAddress) -> Seq<char> {
    match billing_full_name(address) {
        Some(n) => n,
        None => Seq::<char>::empty(),
    }
}

impl OpayoPaymentsRequest {
    /// Builds Opayo's payment request for an authorization: only card
    /// payments are implemented, and the card is completed (captured) at once
    /// exactly when the capture method is automatic.
    pub fn try_from(item_data: &OpayoRouterData<&PaymentsAuthorizeRouterData>) -> (res: Result<
        OpayoPaymentsRequest,
        ConnectorError,
    >)
        ensures
            match item_data.router_data.request.payment_method_data {
                PaymentMethodData::Card(card) => match auto_capture_of(
                    item_data.router_data.request.capture_method,
                ) {
                    Some(complete) => res is Ok && {
                        let r = res->Ok_0;
                        &&& r.amount == item_data.amount
                        &&& r.card.name@ == opayo_card_name(item_data.router_data.address)
                        &&& r.card.number@ == card.card_number@
                        &&& r.card.expiry_month@ == card.card_exp_month@
                        &&& r.card.expiry_year@ == card.card_exp_year@
                        &&& r.card.cvc@ == card.card_cvc@
                        &&& r.card.complete == complete
                    },
                    None => res == Err::<OpayoPaymentsRequest, ConnectorError>(
                        ConnectorError::CaptureMethodNotSupported,
                    ),
                },
                _ => res is Err && (res->Err_0 matches ConnectorError::NotImplemented(msg) && msg@
                    == opayo_unimplemented_message()),
            },
    {
        let item = item_data.router_data;
        match &item.request.payment_method_data {
            PaymentMethodData::Card(req_card) => {
                let name = match item.get_optional_billing_full_name() {
                    Some(n) => n,
                    None => String::new(),
                };
                let complete = item.request.is_auto_capture()?;
                let card = OpayoCard {
                    name,
                    number: req_card.card_number.clone(),
                    expiry_month: req_card.card_exp_month.clone(),
                    expiry_year: req_card.card_exp_year.clone(),
                    cvc: req_card.card_cvc.clone(),
                    complete,
                };
                Ok(OpayoPaymentsRequest { amount: item_data.amount, card })
            },
            PaymentMethodData::CardRedirect
            | PaymentMethodData::Wallet
            | PaymentMethodData::PayLater
            | PaymentMethodData::BankRedirect
            | PaymentMethodData::BankDebit
            | PaymentMethodData::BankTransfer
            | PaymentMethodData::Crypto
            | PaymentMethodData::MandatePayment
            | PaymentMethodData::Reward
            | PaymentMethodData::RealTimePayment
            | PaymentMethodData::MobilePayment
            | PaymentMethodData::Upi
            | PaymentMethodData::Voucher
            | PaymentMethodData::GiftCard
            | PaymentMethodData::OpenBanking
            | PaymentMethodData::CardToken
            | PaymentMethodData::NetworkToken
            | PaymentMethodData::CardDetailsForNetworkTransactionId => {
                Err(
                    ConnectorError::NotImplemented(
                        get_unimplemented_payment_method_error_message("Opayo"),
                    ),
                )
            },
        }
    }
}


/// The credentials that Opayo accepts: an API key sent in a header.
pub struct OpayoAuthType {
    pub api_key: String,
}

impl TryFrom<&ConnectorAuthType> for OpayoAuthType {
    type Error = ConnectorError;

    fn try_from(auth_type: &ConnectorAuthType) -> (res: Result<Self, Self::Error>) {
        match auth_type {
            ConnectorAuthType::HeaderKey { api_key } => Ok(OpayoAuthType { api_key: api_key.clone() }),
            _ => Err(ConnectorError::FailedToObtainAuthType),
        }
    }
}

impl TryFromSpecImpl<&ConnectorAuthType> for OpayoAuthType {
    open spec fn obeys_try_from_spec() -> bool {
        true
    }

    open spec fn try_from_spec(auth_type: &ConnectorAuthType) -> Result<Self, ConnectorError> {
        match auth_type {
            ConnectorAuthType::HeaderKey { api_key } => Ok(OpayoAuthType { api_key: *api_key }),
            _ => Err(ConnectorError::FailedToObtainAuthType),
        }
    }
}

/// The status of a payment as Opayo reports it.
#[derive(Debug, Clone, Copy, PartialEq, Eq, Structural)]
pub enum OpayoPaymentStatus {
    Succeeded,
    Failed,
    Processing,
}

impl Default for OpayoPaymentStatus {
    fn default() -> (res: Self)
        ensures
            res == OpayoPaymentStatus::Processing,
    {
        OpayoPaymentStatus::Processing
    }
}

/// The attempt status that Opayo's payment status stands for.
pub open spec fn attempt_status_of(item: OpayoPaymentStatus) -> enums::AttemptStatus {
    match item {
        OpayoPaymentStatus::Succeeded => enums::AttemptStatus::Charged,
        OpayoPaymentStatus::Failed => enums::AttemptStatus::Failure,
        OpayoPaymentStatus::Processing => enums::AttemptStatus::Authorizing,
    }
}

impl From<OpayoPaymentStatus> for enums::AttemptStatus {
    fn from(item: OpayoPaymentStatus) -> (res: Self) {
        match item {
            OpayoPaymentStatus::Succeeded => enums::AttemptStatus::Charged,
            OpayoPaymentStatus::Failed => enums::AttemptStatus::Failure,
            OpayoPaymentStatus::Processing => enums::AttemptStatus::Authorizing,
        }
    }
}

impl FromSpecImpl<OpayoPaymentStatus> for enums::AttemptStatus {
    open spec fn obeys_from_spec() -> bool {
        true
    }

    open spec fn from_spec(item: OpayoPaymentStatus) -> Self {
        attempt_status_of(item)
    }
}


/// Opayo's answer to a payment request.
#[derive(Debug, Clone, PartialEq)]
pub struct OpayoPaymentsResponse {
    pub status: OpayoPaymentStatus,
    pub id: String,
    pub transaction_id: String,
}

impl Default for OpayoPaymentsResponse {
    fn default() -> (res: Self)
        ensures
            res.status == OpayoPaymentStatus::Processing,
            res.id@ == Seq::<char>::empty(),
            res.transaction_id@ == Seq::<char>::empty(),
    {
        OpayoPaymentsResponse {
            status: OpayoPaymentStatus::Processing,
            id: String::new(),
            transaction_id: String::new(),
        }
    }
}

/// The transaction response that Opayo's payment answer stands for: the
/// transaction is known under Opayo's transaction id, which is also the
/// reference of the response.
pub open spec fn opayo_transaction_response(transaction_id: String) -> PaymentsResponseData {
    PaymentsResponseData::TransactionResponse {
        resource_id: ResponseId::ConnectorTransactionId(transaction_id),
        redirection_data: None,
        mandate_reference: None,
        connector_metadata: None,
        network_txn_id: None,
        connector_response_reference_id: Some(transaction_id),
        incremental_authorization_allowed: None,
    }
}

/// The router data after Opayo's payment answer: its status and response
/// come from the answer, everything else stays as it was.
pub open spec fn payments_router_data_after<F, T>(
    item: ResponseRouterData<F, OpayoPaymentsResponse, T, PaymentsResponseData>,
) -> RouterData<F, T, PaymentsResponseData> {
    RouterData {
        status: attempt_status_of(item.response.status),
        response: Ok(opayo_transaction_response(item.response.transaction_id)),
        ..item.data
    }
}

impl<F, T> TryFrom<ResponseRouterData<F, OpayoPaymentsResponse, T, PaymentsResponseData>> for RouterData<F, T, PaymentsResponseData> {
    type Error = ConnectorError;

    fn try_from(item: ResponseRouterData<F, OpayoPaymentsResponse, T, PaymentsResponseData>) -> (res:
        Result<Self, Self::Error>) {
        let status = enums::AttemptStatus::from(item.response.status);
        let reference_id = item.response.transaction_id.clone();
        Ok(RouterData {
            status,
            response: Ok(
                PaymentsResponseData::TransactionResponse {
                    resource_id: ResponseId::ConnectorTransactionId(reference_id),
                    redirection_data: None,
                    mandate_reference: None,
                    connector_metadata: None,
                    network_txn_id: None,
                    connector_response_reference_id: Some(item.response.transaction_id),
                    incremental_authorization_allowed: None,
                },
            ),
            ..item.data
        })
    }
}

impl<F, T> TryFromSpecImpl<ResponseRouterData<F, OpayoPaymentsResponse, T, PaymentsResponseData>> for RouterData<F, T, PaymentsResponseData> {
    open spec fn obeys_try_from_spec() -> bool {
        true
    }

    open spec fn try_from_spec(
        item: ResponseRouterData<F, OpayoPaymentsResponse, T, PaymentsResponseData>,
    ) -> Result<Self, ConnectorError> {
        Ok(payments_router_data_after(item))
    }
}


/// A refund request to Opayo: the amount to refund.
#[derive(Debug)]
pub struct OpayoRefundRequest {
    pub amount: MinorUnit,
}

impl Default for OpayoRefundRequest {
    fn default() -> (res: Self)
        ensures
            res.amount == MinorUnit(0),
    {
        OpayoRefundRequest { amount: MinorUnit(0) }
    }
}

impl<F> TryFrom<&OpayoRouterData<&RefundsRouterData<F>>> for OpayoRefundRequest {
    type Error = ConnectorError;

    fn try_from(item: &OpayoRouterData<&RefundsRouterData<F>>) -> (res: Result<Self, Self::Error>) {
        Ok(OpayoRefundRequest { amount: item.amount })
    }
}

impl<F> TryFromSpecImpl<&OpayoRouterData<&RefundsRouterData<F>>> for OpayoRefundRequest {
    open spec fn obeys_try_from_spec() -> bool {
        true
    }

    open spec fn try_from_spec(item: &OpayoRouterData<&RefundsRouterData<F>>) -> Result<Self, ConnectorError> {
        Ok(OpayoRefundRequest { amount: item.amount })
    }
}

/// The status of a refund as Opayo reports it.
#[derive(Debug, Clone, Copy, PartialEq, Eq, Structural)]
pub enum RefundStatus {
    Succeeded,
    Failed,
    Processing,
}

impl Default for RefundStatus {
    fn default() -> (res: Self)
        ensures
            res == RefundStatus::Processing,
    {
        RefundStatus::Processing
    }
}

/// The router's refund status that Opayo's refund status stands for.
pub open spec fn refund_status_of(item: RefundStatus) -> enums::RefundStatus {
    match item {
        RefundStatus::Succeeded => enums::RefundStatus::Success,
        RefundStatus::Failed => enums::RefundStatus::Failure,
        RefundStatus::Processing => enums::RefundStatus::Pending,
    }
}

impl From<RefundStatus> for enums::RefundStatus {
    fn from(item: RefundStatus) -> (res: Self) {
        match item {
            RefundStatus::Succeeded => enums::RefundStatus::Success,
            RefundStatus::Failed => enums::RefundStatus::Failure,
            RefundStatus::Processing => enums::RefundStatus::Pending,
        }
    }
}

impl FromSpecImpl<RefundStatus> for enums::RefundStatus {
    open spec fn obeys_from_spec() -> bool {
        true
    }

    open spec fn from_spec(item: RefundStatus) -> Self {
        refund_status_of(item)
    }
}

/// Opayo's answer to a refund request or a refund status query.
#[derive(Debug, Clone)]
pub struct RefundResponse {
    pub id: String,
    pub status: RefundStatus,
}

impl Default for RefundResponse {
    fn default() -> (res: Self)
        ensures
            res.id@ == Seq::<char>::empty(),
            res.status == RefundStatus::Processing,
    {
        RefundResponse { id: String::new(), status: RefundStatus::Processing }
    }
}

/// The router data after Opayo's refund answer: the response names Opayo's
/// refund id and the refund status, everything else stays as it was.
pub open spec fn refunds_router_data_after<F>(
    item: ResponseRouterData<F, RefundResponse, RefundsData, RefundsResponseData>,
) -> RefundsRouterData<F> {
    RouterData {
        response: Ok(
            RefundsResponseData {
                connector_refund_id: item.response.id,
                refund_status: refund_status_of(item.response.status),
            },
        ),
        ..item.data
    }
}

/// The refund response that the router keeps for Opayo's refund answer.
fn refunds_response_data(response: RefundResponse) -> (res: RefundsResponseData)
    ensures
        res == (RefundsResponseData {
            connector_refund_id: response.id,
            refund_status: refund_status_of(response.status),
        }),
{
    RefundsResponseData {
        connector_refund_id: response.id.clone(),
        refund_status: enums::RefundStatus::from(response.status),
    }
}

impl TryFrom<ResponseRouterData<Execute, RefundResponse, RefundsData, RefundsResponseData>> for RefundsRouterData<Execute> {
    type Error = ConnectorError;

    fn try_from(item: ResponseRouterData<Execute, RefundResponse, RefundsData, RefundsResponseData>) -> (res: Result<Self, Self::Error>) {
        Ok(RouterData { response: Ok(refunds_response_data(item.response)), ..item.data })
    }
}

impl TryFromSpecImpl<ResponseRouterData<Execute, RefundResponse, RefundsData, RefundsResponseData>> for RefundsRouterData<Execute> {
    open spec fn obeys_try_from_spec() -> bool {
        true
    }

    open spec fn try_from_spec(item: ResponseRouterData<Execute, RefundResponse, RefundsData, RefundsResponseData>) -> Result<Self, ConnectorError> {
        Ok(refunds_router_data_after(item))
    }
}

impl TryFrom<ResponseRouterData<RSync, RefundResponse, RefundsData, RefundsResponseData>> for RefundsRouterData<RSync> {
    type Error = ConnectorError;

    fn try_from(item: ResponseRouterData<RSync, RefundResponse, RefundsData, RefundsResponseData>) -> (res: Result<Self, Self::Error>) {
        Ok(RouterData { response: Ok(refunds_response_data(item.response)), ..item.data })
    }
}

impl TryFromSpecImpl<ResponseRouterData<RSync, RefundResponse, RefundsData, RefundsResponseData>> for RefundsRouterData<RSync> {
    open spec fn obeys_try_from_spec() -> bool {
        true
    }

    open spec fn try_from_spec(item: ResponseRouterData<RSync, RefundResponse, RefundsData, RefundsResponseData>) -> Result<Self, ConnectorError> {
        Ok(refunds_router_data_after(item))
    }
}

/// Distinct Opayo payment statuses stand for distinct attempt statuses, so
/// no two Opayo outcomes are confused in the router.
pub proof fn lemma_attempt_status_injective(a: OpayoPaymentStatus, b: OpayoPaymentStatus)
    ensures
        attempt_status_of(a) == attempt_status_of(b) ==> a == b,
{
}

/// Distinct Opayo refund statuses stand for distinct refund statuses.
pub proof fn lemma_refund_status_injective(a: RefundStatus, b: RefundStatus)
    ensures
        refund_status_of(a) == refund_status_of(b) ==> a == b,
{
}

/// Opayo's payment answer changes only the status and the response of the
/// router data: the flow's request, merchant, connector, payment, addresses
/// and credentials stay as they were, and the transaction is known under
/// Opayo's transaction id both as its resource and as its reference.
pub proof fn lemma_payment_response_preserves_flow_data<F, T>(
    item: ResponseRouterData<F, OpayoPaymentsResponse, T, PaymentsResponseData>,
)
    ensures
        ({
            let after = payments_router_data_after(item);
            &&& after.request == item.data.request
            &&& after.merchant_id == item.data.merchant_id
            &&& after.customer_id == item.data.customer_id
            &&& after.connector == item.data.connector
            &&& after.payment_id == item.data.payment_id
            &&& after.attempt_id == item.data.attempt_id
            &&& after.connector_auth_type == item.data.connector_auth_type
            &&& after.description == item.data.description
            &&& after.address == item.data.address
            &&& after.amount_captured == item.data.amount_captured
            &&& after.connector_request_reference_id == item.data.connector_request_reference_id
            &&& after.status == attempt_status_of(item.response.status)
            &&& after.response matches Ok(PaymentsResponseData::TransactionResponse {
                resource_id: ResponseId::ConnectorTransactionId(resource),
                connector_response_reference_id: Some(reference),
                ..
            }) && resource == item.response.transaction_id && reference == item.response.transaction_id
        }),
{
}

/// Opayo's refund answer changes only the response of the router data: in
/// particular the payment's attempt status and the refund request stay as
/// they were, and the refund is known under Opayo's refund id.
pub proof fn lemma_refund_response_preserves_flow_data<F>(
    item: ResponseRouterData<F, RefundResponse, RefundsData, RefundsResponseData>,
)
    ensures
        ({
            let after = refunds_router_data_after(item);
            &&& after.status == item.data.status
            &&& after.request == item.data.request
            &&& after.merchant_id == item.data.merchant_id
            &&& after.payment_id == item.data.payment_id
            &&& after.connector_auth_type == item.data.connector_auth_type
            &&& after.address == item.data.address
            &&& after.response matches Ok(r) && r.connector_refund_id == item.response.id
                && r.refund_status == refund_status_of(item.response.status)
        }),
{
}

/// The body of an error that Opayo answers with.
#[derive(Debug, PartialEq)]
pub struct OpayoErrorResponse {
    pub status_code: u16,
    pub code: String,
    pub message: String,
    pub reason: Option<String>,
}

impl Default for OpayoErrorResponse {
    fn default() -> (res: Self)
        ensures
            res.status_code == 0,
            res.code@ == Seq::<char>::empty(),
            res.message@ == Seq::<char>::empty(),
            res.reason is None,
    {
        OpayoErrorResponse {
            status_code: 0,
            code: String::new(),
            message: String::new(),
            reason: None,
        }
    }
}

/// The name on Opayo's card is the full name on the payment method's
/// billing address: its first and last name joined by a space, or whichever
/// of the two is present, and the empty text where there is neither. The
/// shipping address and the order's billing address play no part in it.
pub proof fn lemma_card_name_is_payment_method_billing_name(
    item_data: &OpayoRouterData<&PaymentsAuthorizeRouterData>,
    res: Result<OpayoPaymentsRequest, ConnectorError>,
)
    requires
        call_ensures(OpayoPaymentsRequest::try_from, (item_data,), res),
        res is Ok,
    ensures
        res->Ok_0.card.name@ == match item_data.router_data.address.payment_method_billing {
            Some(billing) => match billing.address {
                Some(details) => match (details.first_name, details.last_name) {
                    (Some(first), Some(last)) => first@ + seq![' '] + last@,
                    (Some(first), None) => first@,
                    (None, Some(last)) => last@,
                    (None, None) => Seq::<char>::empty(),
                },
                None => Seq::<char>::empty(),
            },
            None => Seq::<char>::empty(),
        },
{
}

/// Two authorizations whose payment method billing addresses agree get the
/// same name on Opayo's card, whatever their shipping and order billing
/// addresses.
pub proof fn lemma_card_name_ignores_other_addresses(
    first: &OpayoRouterData<&PaymentsAuthorizeRouterData>,
    second: &OpayoRouterData<&PaymentsAuthorizeRouterData>,
    first_res: Result<OpayoPaymentsRequest, ConnectorError>,
    second_res: Result<OpayoPaymentsRequest, ConnectorError>,
)
    requires
        call_ensures(OpayoPaymentsRequest::try_from, (first,), first_res),
        call_ensures(OpayoPaymentsRequest::try_from, (second,), second_res),
        first.router_data.address.payment_method_billing == second.router_data.address.payment_method_billing,
        first_res is Ok,
        second_res is Ok,
    ensures
        first_res->Ok_0.card.name@ == second_res->Ok_0.card.name@,
{
}

/// Opayo's credentials come from a header key and from nothing else: a
/// header key gives its API key, every other kind of credentials fails to
/// give Opayo's.
pub proof fn lemma_opayo_auth_only_from_header_key(
    auth_type: &ConnectorAuthType,
    res: Result<OpayoAuthType, ConnectorError>,
)
    requires
        call_ensures(OpayoAuthType::try_from, (auth_type,), res),
    ensures
        match auth_type {
            ConnectorAuthType::HeaderKey { api_key } => res is Ok && res->Ok_0.api_key@ == api_key@,
            _ => res == Err::<OpayoAuthType, ConnectorError>(ConnectorError::FailedToObtainAuthType),
        },
{
}

} // verus!
