//! The working envelope of one pipeline execution and the vocabulary of
//! the call orchestrator: the per-request `PaymentData` bundle, the call
//! mode decision, the pre-task plan, and the domain helpers that resolve
//! customers, payment-method material and connector selection.

use vstd::prelude::*;
use crate::enums::{Connector, Currency, MerchantStorageScheme, PaymentMethodType, RefundStatus};
use crate::errors::{ApiErrorResponse, StorageError};
use crate::storage::{
    clone_opt_string, Address, ConnectorResponse, Customer, MemoryStore, MerchantAccount,
    PaymentAttempt, PaymentIntent, spec_find_customer,
};
use crate::types::{PaymentMethod, Request, Response};

verus! {

/// Customer identity accompanying a request.
#[derive(Clone, Debug, PartialEq, Eq)]
pub struct CustomerDetails {
    pub customer_id: Option<String>,
    pub name: Option<String>,
    pub email: Option<String>,
}

/// The resolved addresses of one payment.
#[derive(Clone, Debug, PartialEq, Eq)]
pub struct PaymentAddress {
    pub shipping: Option<Address>,
    pub billing: Option<Address>,
}

/// A refund row associated with a payment.
#[derive(Clone, Debug, PartialEq, Eq)]
pub struct Refund {
    pub refund_id: String,
    pub amount: i64,
    pub currency: Currency,
    pub refund_status: RefundStatus,
}

/// The in-memory working bundle of one pipeline execution, assembled by
/// the Tracker Loader and flushed by the Tracker Updater. `F` is the flow
/// tag of the execution.
#[derive(Debug, PartialEq, Eq)]
pub struct PaymentData<F> {
    pub flow: F,
    pub payment_intent: PaymentIntent,
    pub payment_attempt: PaymentAttempt,
    pub currency: Currency,
    pub amount: i64,
    pub mandate_id: Option<String>,
    pub setup_mandate: Option<String>,
    pub token: Option<String>,
    pub address: PaymentAddress,
    pub confirm: Option<bool>,
    pub payment_method_data: Option<PaymentMethod>,
    pub force_sync: Option<bool>,
    pub refunds: Vec<Refund>,
    pub connector_response: ConnectorResponse,
    pub sessions_token: Vec<String>,
    pub card_cvc: Option<String>,
}

/// How a request names its payment.
#[derive(Clone, Debug, PartialEq, Eq)]
pub enum PaymentIdType {
    PaymentIntentId(String),
    ConnectorTransactionId(String),
    PaymentAttemptId(String),
}

impl PaymentIdType {
    /// The intent-level identifier; any other way of naming the payment
    /// is rejected as not-found, since no intent can be read from it
    /// directly.
    pub fn get_payment_intent_id(&self) -> (r: Result<String, ApiErrorResponse>)
        ensures
            match r {
                Ok(id) => self matches PaymentIdType::PaymentIntentId(s) && s == id,
                Err(e) => !(self matches PaymentIdType::PaymentIntentId(..)) && e
                    == ApiErrorResponse::PaymentNotFound,
            },
    {
        match self {
            PaymentIdType::PaymentIntentId(s) => Ok(s.clone()),
            _ => Err(ApiErrorResponse::PaymentNotFound),
        }
    }
}

/// Whether a request opens or continues a mandate.
#[derive(Clone, Copy, Debug, PartialEq, Eq, Structural)]
pub enum MandateTxnType {
    NewMandateTxn,
    RecurringMandateTxn,
}

/// The inbound cancel request.
#[derive(Clone, Debug, PartialEq, Eq)]
pub struct PaymentsCancelRequest {
    pub payment_id: String,
    pub cancellation_reason: Option<String>,
}

/// What the Request Validator hands the rest of the pipeline: the
/// canonical identifier and the routing hints.
#[derive(Clone, Debug, PartialEq, Eq)]
pub struct ValidateResult {
    pub merchant_id: String,
    pub payment_id: PaymentIdType,
    pub mandate_type: Option<MandateTxnType>,
    pub storage_scheme: MerchantStorageScheme,
}

/// The orchestrator's call mode: perform the outbound call, or fold in a
/// response that already arrived out-of-band.
#[derive(Clone, Debug, PartialEq, Eq)]
pub enum CallConnectorAction {
    Trigger,
    HandleResponse(Response),
}

/// Classification of an inbound webhook payload.
#[derive(Clone, Copy, Debug, PartialEq, Eq, Structural)]
pub enum IncomingWebhookEvent {
    PaymentIntentSuccess,
    PaymentIntentFailure,
    EventNotSupported,
}

/// One step of a connector's ordered pre-task chain.
#[derive(Clone, Copy, Debug, PartialEq, Eq, Structural)]
pub enum PretaskStep {
    PreAuthorize,
    CardTokenize,
}

/// A pre-task failure, naming the step it happened at.
#[derive(Clone, Debug, PartialEq, Eq)]
pub struct PretaskError {
    pub step: PretaskStep,
    pub error: crate::errors::ConnectorError,
}

/// The observable outcome of running a pre-task chain: the transport
/// requests that were actually issued, in order, and the result.
#[derive(Debug, PartialEq, Eq)]
pub struct PretaskRun {
    pub requests: Vec<Request>,
    pub result: Result<(), PretaskError>,
}

/// Fetches the customer record named by the intent, if it names one;
/// a missing reference resolves to no customer, not to a failure.
pub fn get_customer_from_details(
    store: &MemoryStore,
    customer_id: Option<String>,
    merchant_id: &String,
) -> (r: Result<Option<Customer>, StorageError>)
    ensures
        match r {
            Ok(c) => match customer_id {
                Some(cid) => c == spec_find_customer(store.customers@, cid@, merchant_id@),
                None => c is None,
            },
            Err(_) => false,
        },
{
    match customer_id {
        Option::Some(cid) => Ok(store.find_customer_by_customer_id_merchant_id(&cid, merchant_id)),
        Option::None => Ok(Option::None),
    }
}

/// Resolves the payment-method material for the attempt: an inline method
/// is accepted as supplied, and a card verification code handed in
/// out-of-band replaces the one inside an inline card. The stored token
/// passes through unchanged.
pub fn make_pm_data(
    _payment_method: Option<PaymentMethodType>,
    _txn_id: &String,
    _payment_attempt: &PaymentAttempt,
    request: &Option<PaymentMethod>,
    token: &Option<String>,
    card_cvc: Option<String>,
) -> (r: (Option<PaymentMethod>, Option<String>))
    ensures
        r.1 == token,
        match request {
            Some(pm) => match pm {
                PaymentMethod::Card(card) => match card_cvc {
                    Some(cvc) => r.0 == Some(
                        PaymentMethod::Card(crate::types::Card { card_cvc: cvc, ..*card }),
                    ),
                    None => r.0 == Some(PaymentMethod::Card(*card)),
                },
                _ => r.0 == Some(*pm),
            },
            None => r.0 is None,
        },
{
    let pm = match request {
        Option::Some(PaymentMethod::Card(card)) => {
            let cvc = match card_cvc {
                Option::Some(cvc) => cvc,
                Option::None => card.card_cvc.clone(),
            };
            Option::Some(
                PaymentMethod::Card(
                    crate::types::Card {
                        card_number: card.card_number.clone(),
                        card_exp_month: card.card_exp_month.clone(),
                        card_exp_year: card.card_exp_year.clone(),
                        card_holder_name: card.card_holder_name.clone(),
                        card_cvc: cvc,
                    },
                ),
            )
        },
        Option::Some(PaymentMethod::Paypal) => Option::Some(PaymentMethod::Paypal),
        Option::Some(PaymentMethod::BankTransfer) => Option::Some(PaymentMethod::BankTransfer),
        Option::None => Option::None,
    };
    (pm, clone_opt_string(token))
}

/// Picks exactly one connector for the attempt: an explicit request
/// override wins; otherwise the merchant's configured default applies;
/// with neither, resolution fails and the pipeline aborts.
pub fn get_connector_default(
    merchant_account: &MerchantAccount,
    request_connector: Option<Connector>,
) -> (r: Result<Connector, ApiErrorResponse>)
    ensures
        match r {
            Ok(c) => match request_connector {
                Some(rc) => c == rc,
                None => merchant_account.default_connector == Some(c),
            },
            Err(e) => {
                &&& request_connector is None
                &&& merchant_account.default_connector is None
                &&& e matches ApiErrorResponse::InvalidRequestData { message }
                &&& message@ == "no connector is configured for the merchant"@
            },
        },
{
    match request_connector {
        Option::Some(rc) => Ok(rc),
        Option::None => match merchant_account.default_connector {
            Option::Some(c) => Ok(c),
            Option::None => Err(
                ApiErrorResponse::InvalidRequestData {
                    message: "no connector is configured for the merchant".to_owned(),
                },
            ),
        },
    }
}

} // verus!
