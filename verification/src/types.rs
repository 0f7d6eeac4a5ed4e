//! The per-call envelope and its flow-scoped typing: `RouterData` binds a
//! flow tag, the flow's request payload, the connector's resolved response
//! and the carry-over tokens that a later step of the same pipeline
//! execution may consume. The flow tag is a compile-time marker, so a
//! capture response can never be folded by an authorize handler.

use vstd::prelude::*;
use crate::enums::{AttemptStatus, Currency, RefundStatus};

verus! {

/// Flow tag: the primary authorization call.
#[derive(Clone, Copy, Debug, PartialEq, Eq, Structural)]
pub struct Authorize;

/// Flow tag: payment status synchronisation.
#[derive(Clone, Copy, Debug, PartialEq, Eq, Structural)]
pub struct PSync;

/// Flow tag: voiding an authorized payment.
#[derive(Clone, Copy, Debug, PartialEq, Eq, Structural)]
pub struct Void;

/// Flow tag: capturing an authorized payment.
#[derive(Clone, Copy, Debug, PartialEq, Eq, Structural)]
pub struct Capture;

/// Flow tag: creating a wallet session.
#[derive(Clone, Copy, Debug, PartialEq, Eq, Structural)]
pub struct Session;

/// Flow tag: verifying a payment method.
#[derive(Clone, Copy, Debug, PartialEq, Eq, Structural)]
pub struct VerifyFlow;

/// Flow tag: exchanging stored credentials for an access token.
#[derive(Clone, Copy, Debug, PartialEq, Eq, Structural)]
pub struct AccessTokenAuth;

/// Flow tag: pre-task that obtains a merchant session key.
#[derive(Clone, Copy, Debug, PartialEq, Eq, Structural)]
pub struct PreAuthorize;

/// Flow tag: pre-task that exchanges card data for a card identifier.
#[derive(Clone, Copy, Debug, PartialEq, Eq, Structural)]
pub struct CardTokenize;

/// Flow tag: executing a refund.
#[derive(Clone, Copy, Debug, PartialEq, Eq, Structural)]
pub struct Execute;

/// Flow tag: refund status synchronisation.
#[derive(Clone, Copy, Debug, PartialEq, Eq, Structural)]
pub struct RSync;

/// The merchant's credentials for one connector.
#[derive(Clone, Debug, PartialEq, Eq)]
pub enum ConnectorAuthType {
    HeaderKey { api_key: String },
    BodyKey { api_key: String, key1: String },
}

/// The identifier a connector assigned to a transaction, as stored.
#[derive(Clone, Debug, PartialEq, Eq)]
pub enum ResponseId {
    ConnectorTransactionId(String),
    EncodedData(String),
    NoResponseId,
}

/// Inline card data, held as plain values.
#[derive(Debug, PartialEq, Eq)]
pub struct Card {
    pub card_number: String,
    pub card_exp_month: String,
    pub card_exp_year: String,
    pub card_holder_name: String,
    pub card_cvc: String,
}

impl Clone for Card {
    fn clone(&self) -> (r: Self)
        ensures
            r == self,
    {
        Card {
            card_number: self.card_number.clone(),
            card_exp_month: self.card_exp_month.clone(),
            card_exp_year: self.card_exp_year.clone(),
            card_holder_name: self.card_holder_name.clone(),
            card_cvc: self.card_cvc.clone(),
        }
    }
}

/// The payment method material attached to a request.
#[derive(Clone, Debug, PartialEq, Eq)]
pub enum PaymentMethod {
    Card(Card),
    Paypal,
    BankTransfer,
}

/// Request payload of the authorize flow.
#[derive(Clone, Debug, PartialEq, Eq)]
pub struct PaymentsAuthorizeData {
    pub amount: i64,
    pub currency: Currency,
    pub payment_method_data: PaymentMethod,
}

/// Request payload of the payment-sync flow.
#[derive(Clone, Debug, PartialEq, Eq)]
pub struct PaymentsSyncData {
    pub connector_transaction_id: ResponseId,
}

/// Request payload of the void flow.
#[derive(Clone, Debug, PartialEq, Eq)]
pub struct PaymentsCancelData {
    pub connector_transaction_id: String,
    pub cancellation_reason: Option<String>,
}

/// Request payload of the capture flow.
#[derive(Clone, Debug, PartialEq, Eq)]
pub struct PaymentsCaptureData {
    pub amount_to_capture: i64,
    pub connector_transaction_id: String,
}

/// Request payload of the session flow.
#[derive(Clone, Debug, PartialEq, Eq)]
pub struct PaymentsSessionData {
    pub amount: i64,
    pub currency: Currency,
}

/// Request payload of the verify flow.
#[derive(Clone, Debug, PartialEq, Eq)]
pub struct VerifyRequestData {
    pub payment_method_data: PaymentMethod,
}

/// Request payload of the access-token flow.
#[derive(Clone, Debug, PartialEq, Eq)]
pub struct AccessTokenRequestData {
    pub app_id: String,
}

/// Request payload of the pre-authorize pre-task.
#[derive(Clone, Debug, PartialEq, Eq)]
pub struct PreAuthorizeData {
    pub amount: i64,
    pub currency: Currency,
}

/// Request payload of the card-tokenize pre-task.
#[derive(Clone, Debug, PartialEq, Eq)]
pub struct CardTokenizeData {
    pub card_details: Card,
}

/// Request payload of the refund flows.
#[derive(Clone, Debug, PartialEq, Eq)]
pub struct RefundsData {
    pub refund_id: String,
    pub connector_transaction_id: String,
    pub amount: i64,
    pub currency: Currency,
}

/// Success payload of the payment flows, folded back into the envelope.
#[derive(Clone, Debug, PartialEq, Eq)]
pub enum PaymentsResponseData {
    TransactionResponse {
        resource_id: ResponseId,
        redirection_data: Option<String>,
        redirect: bool,
        mandate_reference: Option<String>,
        connector_metadata: Option<String>,
    },
}

/// Success payload of the refund flows.
#[derive(Clone, Debug, PartialEq, Eq)]
pub struct RefundsResponseData {
    pub connector_refund_id: String,
    pub refund_status: RefundStatus,
}

/// An access token handed back by a connector.
#[derive(Clone, Debug, PartialEq, Eq)]
pub struct AccessToken {
    pub token: String,
    pub expires: i64,
}

/// A connector failure in the common representation.
#[derive(Clone, Debug, PartialEq, Eq)]
pub struct ErrorResponse {
    pub code: String,
    pub message: String,
    pub reason: Option<String>,
    pub status_code: u16,
}

/// A raw transport-level response: status code plus body text.
#[derive(Clone, Debug, PartialEq, Eq)]
pub struct Response {
    pub status_code: u16,
    pub response: String,
}

/// HTTP method of a composed request.
#[derive(Clone, Copy, Debug, PartialEq, Eq, Structural)]
pub enum Method {
    Get,
    Post,
    Put,
    Delete,
}

/// A composed transport request, ready for the transport layer.
#[derive(Clone, Debug, PartialEq, Eq)]
pub struct Request {
    pub method: Method,
    pub url: String,
    pub headers: Vec<(String, String)>,
    pub body: Option<String>,
}

/// Builds a `Request` step by step, as the adapter methods hand the parts
/// over.
pub struct RequestBuilder {
    pub method: Method,
    pub url: String,
    pub headers: Vec<(String, String)>,
    pub body: Option<String>,
}

impl RequestBuilder {
    /// A builder with no parts set.
    pub fn new() -> (r: RequestBuilder)
        ensures
            r.method == Method::Get,
            r.url@ == Seq::<char>::empty(),
            r.headers@ == Seq::<(String, String)>::empty(),
            r.body is None,
    {
        RequestBuilder { method: Method::Get, url: String::new(), headers: Vec::new(), body: None }
    }

    /// Sets the method.
    pub fn method(self, method: Method) -> (r: RequestBuilder)
        ensures
            r == (RequestBuilder { method, ..self }),
    {
        RequestBuilder { method, ..self }
    }

    /// Sets the URL.
    pub fn url(self, url: String) -> (r: RequestBuilder)
        ensures
            r == (RequestBuilder { url, ..self }),
    {
        RequestBuilder { url, ..self }
    }

    /// Sets the header list.
    pub fn headers(self, headers: Vec<(String, String)>) -> (r: RequestBuilder)
        ensures
            r == (RequestBuilder { headers, ..self }),
    {
        RequestBuilder { headers, ..self }
    }

    /// Sets the body.
    pub fn body(self, body: Option<String>) -> (r: RequestBuilder)
        ensures
            r == (RequestBuilder { body, ..self }),
    {
        RequestBuilder { body, ..self }
    }

    /// Seals the builder into a transport request with exactly the parts
    /// set so far.
    pub fn build(self) -> (r: Request)
        ensures
            r.method == self.method,
            r.url == self.url,
            r.headers == self.headers,
            r.body == self.body,
    {
        Request { method: self.method, url: self.url, headers: self.headers, body: self.body }
    }
}

/// The generic per-call envelope. `F` is the flow tag; `Req` and `Res`
/// are the flow's request and response payload types.
#[derive(Debug, PartialEq, Eq)]
pub struct RouterData<F, Req, Res> {
    pub flow: F,
    pub merchant_id: String,
    pub payment_id: String,
    pub attempt_id: String,
    pub status: AttemptStatus,
    pub connector_auth_type: ConnectorAuthType,
    pub return_url: Option<String>,
    pub session_token: Option<String>,
    pub card_token: Option<String>,
    pub request: Req,
    pub response: Result<Res, ErrorResponse>,
}

/// A parsed connector payload paired with the envelope it belongs to,
/// before being folded back.
#[derive(Debug, PartialEq, Eq)]
pub struct ResponseRouterData<F, R, Req, Res> {
    pub response: R,
    pub data: RouterData<F, Req, Res>,
    pub http_code: u16,
}

pub type PaymentsAuthorizeRouterData = RouterData<Authorize, PaymentsAuthorizeData, PaymentsResponseData>;

pub type PaymentsSyncRouterData = RouterData<PSync, PaymentsSyncData, PaymentsResponseData>;

pub type PaymentsCancelRouterData = RouterData<Void, PaymentsCancelData, PaymentsResponseData>;

pub type PaymentsCaptureRouterData = RouterData<Capture, PaymentsCaptureData, PaymentsResponseData>;

pub type PaymentsPreAuthorizeRouterData = RouterData<PreAuthorize, PreAuthorizeData, PaymentsResponseData>;

pub type PaymentsCardTokenizeRouterData = RouterData<CardTokenize, CardTokenizeData, PaymentsResponseData>;

pub type RefundsRouterData<F> = RouterData<F, RefundsData, RefundsResponseData>;

pub type RefundSyncRouterData = RouterData<RSync, RefundsData, RefundsResponseData>;

pub type RefundsResponseRouterData<F, R> = ResponseRouterData<F, R, RefundsData, RefundsResponseData>;

impl ResponseId {
    /// The stored connector transaction id, if one is present and
    /// non-empty; the missing-identifier condition otherwise.
    pub fn get_connector_transaction_id(&self) -> (r: Result<String, crate::errors::ConnectorError>)
        ensures
            match r {
                Ok(id) => self matches ResponseId::ConnectorTransactionId(s) && s@ == id@
                    && id@.len() > 0,
                Err(e) => e == crate::errors::ConnectorError::MissingConnectorTransactionID
                    && !self.has_transaction_id(),
            },
    {
        match self {
            ResponseId::ConnectorTransactionId(s) => {
                if s.as_str().unicode_len() > 0 {
                    Ok(s.clone())
                } else {
                    Err(crate::errors::ConnectorError::MissingConnectorTransactionID)
                }
            },
            _ => Err(crate::errors::ConnectorError::MissingConnectorTransactionID),
        }
    }

    /// Whether a non-empty connector transaction id is stored.
    pub open spec fn has_transaction_id(&self) -> bool {
        match self {
            ResponseId::ConnectorTransactionId(s) => s@.len() > 0,
            _ => false,
        }
    }
}

/// The envelope fields a response fold never touches.
pub open spec fn spec_core_preserved<F, Req, Res>(
    a: RouterData<F, Req, Res>,
    b: RouterData<F, Req, Res>,
) -> bool {
    &&& b.flow == a.flow
    &&& b.merchant_id == a.merchant_id
    &&& b.payment_id == a.payment_id
    &&& b.attempt_id == a.attempt_id
    &&& b.connector_auth_type == a.connector_auth_type
    &&& b.return_url == a.return_url
    &&& b.request == a.request
}

/// A folded response that carries exactly the given connector transaction
/// id and nothing else.
pub open spec fn spec_txn_response_with_id(
    resp: Result<PaymentsResponseData, ErrorResponse>,
    idv: Seq<char>,
) -> bool {
    &&& resp matches Ok(PaymentsResponseData::TransactionResponse {
        resource_id: ResponseId::ConnectorTransactionId(tid),
        redirection_data,
        redirect,
        mandate_reference,
        connector_metadata,
    })
    &&& tid@ == idv
    &&& redirection_data is None
    &&& redirect == false
    &&& mandate_reference is None
    &&& connector_metadata is None
}

} // verus!
