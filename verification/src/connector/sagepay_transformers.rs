//! Wire-level request and response shapes of the Sagepay connector, and
//! the conversions between them and the generic envelope. Authorization
//! against this connector is chained: a merchant session key and a card
//! identifier are obtained by pre-tasks and embedded into the primary
//! authorize body.

use vstd::prelude::*;
use crate::codec::{
    fields_view, str_eq, SpecField, SpecValue, WireField, WireValue,
};
use crate::enums::{AttemptStatus, Currency, RefundStatus as StorageRefundStatus};
use crate::errors::ConnectorError;
use crate::types::{
    Card, ConnectorAuthType, PaymentsAuthorizeRouterData, PaymentsCardTokenizeRouterData,
    PaymentsPreAuthorizeRouterData, PaymentsResponseData, ResponseId, ResponseRouterData,
    RouterData,
};

verus! {

/// The primary authorize body: both pre-task results are embedded, so the
/// main call can only be built after the chain has run.
#[derive(Clone, Debug, PartialEq, Eq)]
pub struct SagepayPaymentsRequest {
    pub merchant_session_key: String,
    pub card_identifier: String,
    pub amount: i64,
    pub currency: Currency,
}

/// An inline card wrapped as a payment option.
#[derive(Clone, Debug, PartialEq, Eq)]
pub struct PaymentOption {
    pub card: Card,
}

/// Connector-private metadata carried between calls.
#[derive(Clone, Debug, PartialEq, Eq)]
pub struct SagepayMeta {
    pub session_token: String,
}

/// Body of the pre-authorize pre-task call.
#[derive(Clone, Debug, PartialEq, Eq)]
pub struct SagepaySessionRequest {
    pub vendor_name: String,
}

/// Success payload of the pre-authorize pre-task call.
#[derive(Clone, Debug, PartialEq, Eq)]
pub struct SagepaySessionResponse {
    pub session_token: String,
}

/// Card material in the connector's own field layout.
#[derive(Clone, Debug, PartialEq, Eq)]
pub struct CardData {
    pub card_data: String,
    pub expiration_month: String,
    pub expiration_year: String,
    pub security_code: String,
}

/// Success payload of the card-tokenize pre-task call.
#[derive(Clone, Debug, PartialEq, Eq)]
pub struct SagepayCardTokenizationResponse {
    pub card_identifier: String,
    pub expiry: String,
    pub card_type: String,
}

/// Body of the card-tokenize pre-task call.
#[derive(Clone, Debug, PartialEq, Eq)]
pub struct SagepayCardTokenizationRequest {
    pub card_details: Card,
}

/// The merchant's credentials in the shape this connector expects.
#[derive(Clone, Debug, PartialEq, Eq)]
pub struct SagepayAuthType {
    pub api_key: String,
}

/// Card reference embedded in a full payment request.
#[derive(Clone, Debug, PartialEq, Eq)]
pub struct SagepayCard {
    pub merchant_session_key: String,
    pub card_identifier: String,
    pub reusable: bool,
    pub save: bool,
}

/// Paypal reference embedded in a full payment request.
#[derive(Clone, Debug, PartialEq, Eq)]
pub struct SagepayPaypal {
    pub merchant_session_key: String,
    pub callback_url: String,
}

/// Apple Pay payload embedded in a full payment request.
#[derive(Clone, Debug, PartialEq, Eq)]
pub struct SagepayApplePay {
    pub payload: String,
    pub client_ip_address: String,
}

/// The payment method alternatives of a full payment request.
#[derive(Clone, Debug, PartialEq, Eq)]
pub struct SagepayPaymentMethod {
    pub card: SagepayCard,
    pub paypal: SagepayPaypal,
    pub applepay: SagepayApplePay,
}

/// How the payment was entered.
#[derive(Clone, Copy, Debug, PartialEq, Eq, Structural)]
pub enum EntryMethod {
    Ecommerce,
    MailOrder,
    TelephoneOrder,
    ContinuousAuthority,
}

/// Billing address in the connector's layout.
#[derive(Clone, Debug, PartialEq, Eq)]
pub struct SagepayBillingAddress {
    pub address1: String,
    pub address2: Option<String>,
    pub address3: Option<String>,
    pub city: String,
    pub postal_code: Option<String>,
    pub country: String,
    pub state: Option<String>,
}

/// Three-D-Secure application policy.
#[derive(Clone, Copy, Debug, PartialEq, Eq, Structural)]
pub enum Sagepay3dSecure {
    UseMSPSetting,
    Force,
    Disable,
    ForceIgnoringRules,
}

/// Challenge window size hint.
#[derive(Clone, Copy, Debug, PartialEq, Eq, Structural)]
pub enum SagepayWindowSize {
    Small,
    Medium,
    Large,
    ExtraLarge,
    FullScreen,
}

/// Transaction classification for strong customer authentication.
#[derive(Clone, Copy, Debug, PartialEq, Eq, Structural)]
pub enum SagepayTransType {
    GoodsAndServicePurchase,
    CheckAcceptance,
    AccountFunding,
    QuasiCashTransaction,
    PrepaidActivationAndLoad,
}

/// Requestor authentication data for strong customer authentication.
#[derive(Clone, Debug, PartialEq, Eq)]
pub struct SagepaythreeDSRequestorAuthenticationInfo {
    pub three_ds_req_auth_data: String,
    pub three_ds_req_auth_method: String,
    pub three_ds_req_auth_timestamp: String,
}

/// Prior authentication data for strong customer authentication.
#[derive(Clone, Debug, PartialEq, Eq)]
pub struct ThreeDsrequestorPriorAuthenticationInfo {
    pub three_ds_req_prior_auth_data: String,
    pub three_ds_req_prior_auth_method: String,
    pub three_ds_req_prior_auth_timestamp: String,
    pub three_ds_req_prior_ref: String,
}

/// Account history indicators for risk scoring.
#[derive(Clone, Debug, PartialEq, Eq)]
pub struct SagepayAcctInfo {
    pub ch_acc_age_ind: String,
    pub ch_acc_change: String,
    pub ch_acc_change_ind: String,
    pub ch_acc_date: String,
    pub ch_acc_pw_change: String,
    pub ch_acc_pw_change_ind: String,
    pub nb_purchase_account: String,
    pub provision_attempts_day: String,
    pub txn_activity_day: String,
    pub txn_activity_year: String,
    pub payment_acc_age: String,
    pub payment_acc_ind: String,
    pub ship_address_usage: String,
    pub ship_address_usage_ind: String,
    pub ship_name_indicator: String,
    pub suspicious_acc_activity: String,
}

/// Merchant risk indicators for risk scoring.
#[derive(Clone, Debug, PartialEq, Eq)]
pub struct SagepayMerchantRiskIndicator {
    pub delivery_email_address: String,
    pub delivery_timeframe: String,
    pub gift_card_amount: i64,
    pub gift_card_count: i32,
    pub pre_order_date: String,
    pub pre_order_purchase_ind: String,
    pub reorder_items_ind: String,
    pub ship_indicator: String,
}

/// Strong-customer-authentication block of a full payment request.
#[derive(Clone, Debug, PartialEq, Eq)]
pub struct SagepayStrongCustomerAuthentication {
    pub notification_url: String,
    pub browser_ip: String,
    pub browser_accept_header: String,
    pub browser_javascript_enabled: bool,
    pub browser_java_enabled: Option<bool>,
    pub browser_language: String,
    pub browser_color_depth: i32,
    pub browser_screen_height: String,
    pub browser_screen_width: String,
    pub browser_tz: String,
    pub browser_user_agent: String,
    pub challenge_window_size: SagepayWindowSize,
    pub acct_id: String,
    pub trans_type: SagepayTransType,
    pub three_ds_requestor_authentication_info: SagepaythreeDSRequestorAuthenticationInfo,
    pub three_ds_requestor_prior_authentication_info: ThreeDsrequestorPriorAuthenticationInfo,
    pub acct_info: SagepayAcctInfo,
    pub merchant_risk_indicator: SagepayMerchantRiskIndicator,
    pub three_ds_exemption_indicator: String,
    pub website: String,
}

/// Shipping block of a full payment request.
#[derive(Clone, Debug, PartialEq, Eq)]
pub struct SagepayShippingDetails {
    pub recipient_first_name: String,
    pub recipient_last_name: String,
    pub shipping_address1: String,
    pub shipping_address2: Option<String>,
    pub shipping_address3: Option<String>,
    pub shipping_city: String,
    pub shipping_postal_code: Option<String>,
    pub shipping_country: String,
    pub shipping_state: String,
}

/// Merchant-initiated-transaction classification.
#[derive(Clone, Debug, PartialEq, Eq)]
pub enum SagepaymitType {
    Instalment(Installemnt),
    Recurring(Recurring),
    Unscheduled,
    Incremental,
    DelayedCharge,
    NoShow,
    Reauthorisation,
    Resubmission,
}

/// Recurrence schedule of a merchant-initiated transaction.
#[derive(Clone, Debug, PartialEq, Eq)]
pub struct Recurring {
    pub recurring_expiry: String,
    pub recurring_frequency: String,
}

/// Instalment data of a merchant-initiated transaction.
#[derive(Clone, Debug, PartialEq, Eq)]
pub struct Installemnt {
    pub purchase_instal_data: String,
    pub recurring: Recurring,
}

/// Credential-on-file usage block.
#[derive(Clone, Debug, PartialEq, Eq)]
pub struct SagepayCredentialType {
    pub cof_usage: String,
    pub initiated_type: String,
    pub mit_type: SagepaymitType,
}

/// Financial-institution recipient details.
#[derive(Clone, Debug, Default, PartialEq, Eq)]
pub struct SagepayfiRecipient {
    pub account_number: String,
    pub surname: String,
    pub postcode: String,
    pub date_of_birth: String,
}

/// The connector's transaction kinds.
#[derive(Clone, Copy, Debug, Default, PartialEq, Eq, Structural)]
pub enum SagePayTransactionType {
    #[default]
    Payment,
    Deferred,
    Authenticate,
    Repeat,
    Refund,
    Authorise,
}

/// A full payment-intent request in the connector's layout.
#[derive(Clone, Debug, PartialEq, Eq)]
pub struct PaymentIntentRequest {
    pub transaction_type: SagePayTransactionType,
    pub payment_method: SagepayPaymentMethod,
    pub vendor_tx_code: String,
    pub amount: i64,
    pub currency: String,
    pub description: String,
    pub settlement_reference_text: String,
    pub customer_first_name: String,
    pub customer_last_name: String,
    pub billing_address: SagepayBillingAddress,
    pub entry_method: Option<EntryMethod>,
    pub gift_aid: Option<bool>,
    pub apply_3d_secure: Option<Sagepay3dSecure>,
    pub apply_avs_cvc_check: Option<Sagepay3dSecure>,
    pub customer_email: Option<String>,
    pub customer_phone: Option<String>,
    pub shipping_details: Option<SagepayShippingDetails>,
    pub referrer_id: Option<String>,
    pub strong_customer_authentication: Option<SagepayStrongCustomerAuthentication>,
    pub customer_mobile_phone: String,
    pub customer_work_phone: String,
    pub credential_type: SagepayCredentialType,
    pub fi_recipient: SagepayfiRecipient,
}

/// Payment status as this connector reports it.
#[derive(Clone, Copy, Debug, PartialEq, Eq, Structural)]
pub enum SagepayPaymentStatus {
    Succeeded,
    Failed,
    Processing,
}

impl Default for SagepayPaymentStatus {
    /// The connector treats an unreported status as still processing.
    fn default() -> (r: Self)
        ensures
            r == SagepayPaymentStatus::Processing,
    {
        SagepayPaymentStatus::Processing
    }
}

/// Amount breakdown the connector reports.
#[derive(Clone, Copy, Debug, Default, PartialEq, Eq, Structural)]
pub struct SagepayAmount {
    pub total_amount: i64,
    pub sale_amount: i64,
    pub surcharge_amount: i64,
}

/// A full payment-intent response in the connector's layout.
#[derive(Clone, Debug, PartialEq, Eq)]
pub struct PaymentIntentResponse {
    pub transaction_id: String,
    pub acs_trans_id: Option<String>,
    pub ds_trans_id: Option<String>,
    pub transaction_type: SagePayTransactionType,
    pub status: String,
    pub status_code: String,
    pub status_detail: String,
    pub additional_decline_detail: Option<String>,
    pub retrieval_reference: String,
    pub settlement_reference_text: String,
    pub bank_response_code: String,
    pub bank_authorisation_code: String,
    pub avs_cvc_check: String,
    pub payment_method: String,
    pub amount: SagepayAmount,
    pub currency: String,
    pub d_secure: Option<String>,
    pub fi_recipient: SagepayfiRecipient,
}

impl From<SagepayPaymentStatus> for AttemptStatus {
    fn from(item: SagepayPaymentStatus) -> Self {
        match item {
            SagepayPaymentStatus::Succeeded => AttemptStatus::Charged,
            SagepayPaymentStatus::Failed => AttemptStatus::Failure,
            SagepayPaymentStatus::Processing => AttemptStatus::Authorizing,
        }
    }
}

/// The lifecycle status a connector-reported payment status maps to.
pub open spec fn spec_attempt_status_of(item: SagepayPaymentStatus) -> AttemptStatus {
    match item {
        SagepayPaymentStatus::Succeeded => AttemptStatus::Charged,
        SagepayPaymentStatus::Failed => AttemptStatus::Failure,
        SagepayPaymentStatus::Processing => AttemptStatus::Authorizing,
    }
}

impl vstd::std_specs::convert::FromSpecImpl<SagepayPaymentStatus> for AttemptStatus {
    open spec fn obeys_from_spec() -> bool {
        true
    }

    open spec fn from_spec(item: SagepayPaymentStatus) -> Self {
        spec_attempt_status_of(item)
    }
}

/// The status of the primary payment call, folded into the envelope.
#[derive(Clone, Debug, PartialEq, Eq)]
pub struct SagepayPaymentsResponse {
    pub status: SagepayPaymentStatus,
    pub id: String,
}

/// A refund request in the connector's layout; this leg is not yet wired.
#[derive(Clone, Debug, Default, PartialEq, Eq)]
pub struct SagepayRefundRequest {}

/// Refund status as this connector reports it.
#[derive(Clone, Copy, Debug, PartialEq, Eq, Structural)]
pub enum RefundStatus {
    Succeeded,
    Failed,
    Processing,
}

impl Default for RefundStatus {
    /// The connector treats an unreported refund status as pending.
    fn default() -> (r: Self)
        ensures
            r == RefundStatus::Processing,
    {
        RefundStatus::Processing
    }
}

impl From<RefundStatus> for StorageRefundStatus {
    fn from(item: RefundStatus) -> Self {
        match item {
            RefundStatus::Succeeded => StorageRefundStatus::Success,
            RefundStatus::Failed => StorageRefundStatus::Failure,
            RefundStatus::Processing => StorageRefundStatus::Pending,
        }
    }
}

/// The stored refund status a connector-reported refund status maps to.
pub open spec fn spec_refund_status_of(item: RefundStatus) -> StorageRefundStatus {
    match item {
        RefundStatus::Succeeded => StorageRefundStatus::Success,
        RefundStatus::Failed => StorageRefundStatus::Failure,
        RefundStatus::Processing => StorageRefundStatus::Pending,
    }
}

impl vstd::std_specs::convert::FromSpecImpl<RefundStatus> for StorageRefundStatus {
    open spec fn obeys_from_spec() -> bool {
        true
    }

    open spec fn from_spec(item: RefundStatus) -> Self {
        spec_refund_status_of(item)
    }
}

/// A refund response in the connector's layout; this leg is not yet
/// wired.
#[derive(Clone, Debug, Default, PartialEq, Eq)]
pub struct RefundResponse {}

/// The connector's error payload; it carries no fields.
#[derive(Clone, Debug, Default, PartialEq, Eq)]
pub struct SagepayErrorResponse {}

impl SagepayAuthType {
    /// Accepts exactly the single-header credential scheme.
    pub fn try_from(auth_type: &ConnectorAuthType) -> (r: Result<Self, ConnectorError>)
        ensures
            match r {
                Ok(a) => auth_type matches ConnectorAuthType::HeaderKey { api_key }
                    && a.api_key == api_key,
                Err(e) => !(auth_type matches ConnectorAuthType::HeaderKey { .. })
                    && e == ConnectorError::FailedToObtainAuthType,
            },
    {
        match auth_type {
            ConnectorAuthType::HeaderKey { api_key } => Ok(
                SagepayAuthType { api_key: api_key.clone() },
            ),
            _ => Err(ConnectorError::FailedToObtainAuthType),
        }
    }
}

impl SagepaySessionRequest {
    /// The session request carries only the vendor name; nothing of the
    /// envelope is consulted.
    pub fn try_from(_item: &PaymentsPreAuthorizeRouterData) -> (r: Result<Self, ConnectorError>)
        ensures
            r matches Ok(req) && req.vendor_name@ == "sandbox"@,
    {
        Ok(SagepaySessionRequest { vendor_name: "sandbox".to_owned() })
    }

    /// The fields this request puts on the wire.
    pub open spec fn spec_wire(&self) -> Seq<SpecField> {
        seq![SpecField { key: "vendor_name"@, value: SpecValue::Str(self.vendor_name@) }]
    }

    /// Renders the request as wire fields.
    pub fn wire_fields(&self) -> (r: Vec<WireField>)
        ensures
            fields_view(r@) == self.spec_wire(),
    {
        let mut fields: Vec<WireField> = Vec::new();
        fields.push(
            WireField {
                key: "vendor_name".to_owned(),
                value: WireValue::Str(self.vendor_name.clone()),
            },
        );
        proof {
            assert(fields_view(fields@) =~= self.spec_wire());
        }
        fields
    }
}

/// What a session-response wire object means: exactly one text field,
/// `session_token`.
pub open spec fn spec_session_response_of(fs: Seq<SpecField>) -> Option<Seq<char>> {
    if fs.len() == 1 && fs[0].key == "session_token"@ && (fs[0].value matches SpecValue::Str(t)) {
        Some(fs[0].value->Str_0)
    } else {
        None
    }
}

impl SagepaySessionResponse {
    /// The fields this response puts on the wire.
    pub open spec fn spec_wire(&self) -> Seq<SpecField> {
        seq![SpecField { key: "session_token"@, value: SpecValue::Str(self.session_token@) }]
    }

    /// Renders the response as wire fields.
    pub fn wire_fields(&self) -> (r: Vec<WireField>)
        ensures
            fields_view(r@) == self.spec_wire(),
    {
        let mut fields: Vec<WireField> = Vec::new();
        fields.push(
            WireField {
                key: "session_token".to_owned(),
                value: WireValue::Str(self.session_token.clone()),
            },
        );
        proof {
            assert(fields_view(fields@) =~= self.spec_wire());
        }
        fields
    }

    /// Reads the response out of a parsed wire object; a payload of any
    /// other shape is rejected.
    pub fn from_wire(fields: &Vec<WireField>) -> (r: Option<Self>)
        ensures
            match r {
                Some(resp) => spec_session_response_of(fields_view(fields@))
                    == Some(resp.session_token@),
                None => spec_session_response_of(fields_view(fields@)) is None,
            },
    {
        proof {
            if fields@.len() > 0 {
                assert(fields_view(fields@)[0] == fields@[0]@);
            }
        }
        if fields.len() == 1 {
            let f = &fields[0];
            if str_eq(&f.key, "session_token") {
                match &f.value {
                    WireValue::Str(s) => {
                        return Some(SagepaySessionResponse { session_token: s.clone() });
                    },
                    _ => {
                        return None;
                    },
                }
            }
        }
        None
    }
}

/// Round trip: a rendered session response reads back as itself.
pub proof fn lemma_session_response_wire_inverse(resp: SagepaySessionResponse)
    ensures
        spec_session_response_of(resp.spec_wire()) == Some(resp.session_token@),
{
}

/// Wire spelling of a payment status.
pub open spec fn spec_status_chars(s: SagepayPaymentStatus) -> Seq<char> {
    match s {
        SagepayPaymentStatus::Succeeded => "succeeded"@,
        SagepayPaymentStatus::Failed => "failed"@,
        SagepayPaymentStatus::Processing => "processing"@,
    }
}

/// Reads a payment status back from its wire spelling.
pub open spec fn spec_status_of_chars(t: Seq<char>) -> Option<SagepayPaymentStatus> {
    if t == "succeeded"@ {
        Some(SagepayPaymentStatus::Succeeded)
    } else if t == "failed"@ {
        Some(SagepayPaymentStatus::Failed)
    } else if t == "processing"@ {
        Some(SagepayPaymentStatus::Processing)
    } else {
        None
    }
}

/// The three status spellings are pairwise distinct, so reading a
/// spelling back recovers the status.
pub proof fn lemma_status_chars_inverse(s: SagepayPaymentStatus)
    ensures
        spec_status_of_chars(spec_status_chars(s)) == Some(s),
{
    reveal_strlit("succeeded");
    reveal_strlit("failed");
    reveal_strlit("processing");
    assert("succeeded"@.len() == 9);
    assert("failed"@.len() == 6);
    assert("processing"@.len() == 10);
    match s {
        SagepayPaymentStatus::Succeeded => {
            assert(spec_status_chars(s) == "succeeded"@);
        },
        SagepayPaymentStatus::Failed => {
            assert(spec_status_chars(s) == "failed"@);
        },
        SagepayPaymentStatus::Processing => {
            assert(spec_status_chars(s) == "processing"@);
        },
    }
}

impl SagepayPaymentStatus {
    /// Wire spelling of this status.
    pub fn as_wire_str(&self) -> (r: &'static str)
        ensures
            r@ == spec_status_chars(*self),
    {
        match self {
            SagepayPaymentStatus::Succeeded => "succeeded",
            SagepayPaymentStatus::Failed => "failed",
            SagepayPaymentStatus::Processing => "processing",
        }
    }

    /// Reads a status from its wire spelling.
    pub fn from_wire_str(t: &String) -> (r: Option<Self>)
        ensures
            r == spec_status_of_chars(t@),
    {
        if str_eq(t, "succeeded") {
            Some(SagepayPaymentStatus::Succeeded)
        } else if str_eq(t, "failed") {
            Some(SagepayPaymentStatus::Failed)
        } else if str_eq(t, "processing") {
            Some(SagepayPaymentStatus::Processing)
        } else {
            None
        }
    }
}

/// What a payments-response wire object means: a status spelling and the
/// connector's transaction id.
pub open spec fn spec_payments_response_of(fs: Seq<SpecField>) -> Option<
    (SagepayPaymentStatus, Seq<char>),
> {
    if fs.len() == 2 && fs[0].key == "status"@ && (fs[0].value matches SpecValue::Str(st))
        && fs[1].key == "id"@ && (fs[1].value matches SpecValue::Str(idv)) {
        match spec_status_of_chars(fs[0].value->Str_0) {
            Some(s) => Some((s, fs[1].value->Str_0)),
            None => None,
        }
    } else {
        None
    }
}

impl SagepayPaymentsResponse {
    /// The fields this response puts on the wire.
    pub open spec fn spec_wire(&self) -> Seq<SpecField> {
        seq![
            SpecField { key: "status"@, value: SpecValue::Str(spec_status_chars(self.status)) },
            SpecField { key: "id"@, value: SpecValue::Str(self.id@) },
        ]
    }

    /// Renders the response as wire fields.
    pub fn wire_fields(&self) -> (r: Vec<WireField>)
        ensures
            fields_view(r@) == self.spec_wire(),
    {
        let mut fields: Vec<WireField> = Vec::new();
        fields.push(
            WireField {
                key: "status".to_owned(),
                value: WireValue::Str(self.status.as_wire_str().to_owned()),
            },
        );
        fields.push(WireField { key: "id".to_owned(), value: WireValue::Str(self.id.clone()) });
        proof {
            assert(fields_view(fields@) =~= self.spec_wire());
        }
        fields
    }

    /// Reads the response out of a parsed wire object; a payload of any
    /// other shape is rejected.
    pub fn from_wire(fields: &Vec<WireField>) -> (r: Option<Self>)
        ensures
            match r {
                Some(resp) => spec_payments_response_of(fields_view(fields@))
                    == Some((resp.status, resp.id@)),
                None => spec_payments_response_of(fields_view(fields@)) is None,
            },
    {
        proof {
            if fields@.len() > 1 {
                assert(fields_view(fields@)[0] == fields@[0]@);
                assert(fields_view(fields@)[1] == fields@[1]@);
            }
        }
        if fields.len() != 2 {
            return None;
        }
        let f0 = &fields[0];
        let f1 = &fields[1];
        if !str_eq(&f0.key, "status") || !str_eq(&f1.key, "id") {
            return None;
        }
        let status = match &f0.value {
            WireValue::Str(st) => {
                match SagepayPaymentStatus::from_wire_str(st) {
                    Some(s) => s,
                    None => {
                        return None;
                    },
                }
            },
            _ => {
                return None;
            },
        };
        match &f1.value {
            WireValue::Str(idv) => Some(SagepayPaymentsResponse { status, id: idv.clone() }),
            _ => None,
        }
    }
}

/// Round trip: a rendered payments response reads back as itself.
pub proof fn lemma_payments_response_wire_inverse(resp: SagepayPaymentsResponse)
    ensures
        spec_payments_response_of(resp.spec_wire()) == Some((resp.status, resp.id@)),
{
    lemma_status_chars_inverse(resp.status);
    reveal_strlit("status");
    reveal_strlit("id");
}

/// Round trip across the wire: parsing the rendering of a success
/// response reconstructs exactly its fields, so the folded envelope's
/// resource id equals the connector's raw transaction identifier.
pub proof fn lemma_response_round_trip(resp: SagepayPaymentsResponse)
    requires
        crate::codec::object_ok(resp.spec_wire()),
    ensures
        crate::codec::spec_parse_object(crate::codec::object_chars(resp.spec_wire())) == Some(
            resp.spec_wire(),
        ),
        spec_payments_response_of(resp.spec_wire()) == Some((resp.status, resp.id@)),
{
    crate::codec::lemma_parse_render_object(resp.spec_wire());
    lemma_payments_response_wire_inverse(resp);
}

/// What a card-tokenization-response wire object means.
pub open spec fn spec_tokenization_response_of(fs: Seq<SpecField>) -> Option<
    (Seq<char>, Seq<char>, Seq<char>),
> {
    if fs.len() == 3 && fs[0].key == "card_identifier"@ && (fs[0].value matches SpecValue::Str(
        ci,
    )) && fs[1].key == "expiry"@ && (fs[1].value matches SpecValue::Str(ex)) && fs[2].key
        == "card_type"@ && (fs[2].value matches SpecValue::Str(ct)) {
        Some((fs[0].value->Str_0, fs[1].value->Str_0, fs[2].value->Str_0))
    } else {
        None
    }
}

impl SagepayCardTokenizationResponse {
    /// The fields this response puts on the wire.
    pub open spec fn spec_wire(&self) -> Seq<SpecField> {
        seq![
            SpecField { key: "card_identifier"@, value: SpecValue::Str(self.card_identifier@) },
            SpecField { key: "expiry"@, value: SpecValue::Str(self.expiry@) },
            SpecField { key: "card_type"@, value: SpecValue::Str(self.card_type@) },
        ]
    }

    /// Renders the response as wire fields.
    pub fn wire_fields(&self) -> (r: Vec<WireField>)
        ensures
            fields_view(r@) == self.spec_wire(),
    {
        let mut fields: Vec<WireField> = Vec::new();
        fields.push(
            WireField {
                key: "card_identifier".to_owned(),
                value: WireValue::Str(self.card_identifier.clone()),
            },
        );
        fields.push(
            WireField { key: "expiry".to_owned(), value: WireValue::Str(self.expiry.clone()) },
        );
        fields.push(
            WireField { key: "card_type".to_owned(), value: WireValue::Str(self.card_type.clone()) },
        );
        proof {
            assert(fields_view(fields@) =~= self.spec_wire());
        }
        fields
    }

    /// Reads the response out of a parsed wire object; a payload of any
    /// other shape is rejected.
    pub fn from_wire(fields: &Vec<WireField>) -> (r: Option<Self>)
        ensures
            match r {
                Some(resp) => spec_tokenization_response_of(fields_view(fields@))
                    == Some((resp.card_identifier@, resp.expiry@, resp.card_type@)),
                None => spec_tokenization_response_of(fields_view(fields@)) is None,
            },
    {
        proof {
            if fields@.len() > 2 {
                assert(fields_view(fields@)[0] == fields@[0]@);
                assert(fields_view(fields@)[1] == fields@[1]@);
                assert(fields_view(fields@)[2] == fields@[2]@);
            }
        }
        if fields.len() != 3 {
            return None;
        }
        let f0 = &fields[0];
        let f1 = &fields[1];
        let f2 = &fields[2];
        if !str_eq(&f0.key, "card_identifier") || !str_eq(&f1.key, "expiry") || !str_eq(
            &f2.key,
            "card_type",
        ) {
            return None;
        }
        match (&f0.value, &f1.value, &f2.value) {
            (WireValue::Str(ci), WireValue::Str(ex), WireValue::Str(ct)) => Some(
                SagepayCardTokenizationResponse {
                    card_identifier: ci.clone(),
                    expiry: ex.clone(),
                    card_type: ct.clone(),
                },
            ),
            _ => None,
        }
    }
}

/// Round trip: a rendered tokenization response reads back as itself.
pub proof fn lemma_tokenization_response_wire_inverse(resp: SagepayCardTokenizationResponse)
    ensures
        spec_tokenization_response_of(resp.spec_wire()) == Some(
            (resp.card_identifier@, resp.expiry@, resp.card_type@),
        ),
{
}

impl SagepayCardTokenizationRequest {
    /// Takes the inline card of the tokenize pre-task as the body.
    pub fn try_from(item: &PaymentsCardTokenizeRouterData) -> (r: Result<Self, ConnectorError>)
        ensures
            r matches Ok(req) && req.card_details == item.request.card_details,
    {
        Ok(SagepayCardTokenizationRequest { card_details: item.request.card_details.clone() })
    }

    /// The fields this request puts on the wire.
    pub open spec fn spec_wire(&self) -> Seq<SpecField> {
        seq![
            SpecField {
                key: "card_holder_name"@,
                value: SpecValue::Str(self.card_details.card_holder_name@),
            },
            SpecField { key: "card_number"@, value: SpecValue::Str(self.card_details.card_number@) },
            SpecField {
                key: "card_exp_month"@,
                value: SpecValue::Str(self.card_details.card_exp_month@),
            },
            SpecField {
                key: "card_exp_year"@,
                value: SpecValue::Str(self.card_details.card_exp_year@),
            },
            SpecField { key: "card_cvc"@, value: SpecValue::Str(self.card_details.card_cvc@) },
        ]
    }

    /// Renders the request as wire fields.
    pub fn wire_fields(&self) -> (r: Vec<WireField>)
        ensures
            fields_view(r@) == self.spec_wire(),
    {
        let mut fields: Vec<WireField> = Vec::new();
        fields.push(
            WireField {
                key: "card_holder_name".to_owned(),
                value: WireValue::Str(self.card_details.card_holder_name.clone()),
            },
        );
        fields.push(
            WireField {
                key: "card_number".to_owned(),
                value: WireValue::Str(self.card_details.card_number.clone()),
            },
        );
        fields.push(
            WireField {
                key: "card_exp_month".to_owned(),
                value: WireValue::Str(self.card_details.card_exp_month.clone()),
            },
        );
        fields.push(
            WireField {
                key: "card_exp_year".to_owned(),
                value: WireValue::Str(self.card_details.card_exp_year.clone()),
            },
        );
        fields.push(
            WireField {
                key: "card_cvc".to_owned(),
                value: WireValue::Str(self.card_details.card_cvc.clone()),
            },
        );
        proof {
            assert(fields_view(fields@) =~= self.spec_wire());
        }
        fields
    }
}

impl SagepayPaymentsRequest {
    /// Builds the primary authorize body from the envelope. Both pre-task
    /// results must be present: the merchant session key and the card
    /// identifier are embedded verbatim.
    pub fn try_from(item: &PaymentsAuthorizeRouterData) -> (r: Result<Self, ConnectorError>)
        ensures
            match r {
                Ok(req) => {
                    &&& item.session_token matches Some(sk) && req.merchant_session_key == sk
                    &&& item.card_token matches Some(ci) && req.card_identifier == ci
                    &&& req.amount == item.request.amount
                    &&& req.currency == item.request.currency
                },
                Err(e) => {
                    &&& (item.session_token is None || item.card_token is None)
                    &&& e matches ConnectorError::MissingRequiredField { field_name }
                    &&& (item.session_token is None ==> field_name@ == "session_token"@)
                    &&& (item.session_token is Some ==> field_name@ == "card_token"@)
                },
            },
    {
        let merchant_session_key = match &item.session_token {
            Option::Some(sk) => sk.clone(),
            Option::None => {
                return Err(
                    ConnectorError::MissingRequiredField {
                        field_name: "session_token".to_owned(),
                    },
                );
            },
        };
        let card_identifier = match &item.card_token {
            Option::Some(ci) => ci.clone(),
            Option::None => {
                return Err(
                    ConnectorError::MissingRequiredField { field_name: "card_token".to_owned() },
                );
            },
        };
        Ok(
            SagepayPaymentsRequest {
                merchant_session_key,
                card_identifier,
                amount: item.request.amount,
                currency: item.request.currency,
            },
        )
    }

    /// The fields this request puts on the wire.
    pub open spec fn spec_wire(&self) -> Seq<SpecField> {
        seq![
            SpecField {
                key: "merchantSessionKey"@,
                value: SpecValue::Str(self.merchant_session_key@),
            },
            SpecField { key: "cardIdentifier"@, value: SpecValue::Str(self.card_identifier@) },
            SpecField { key: "amount"@, value: SpecValue::Int(self.amount as int) },
            SpecField { key: "currency"@, value: SpecValue::Str(self.currency.spec_code()) },
        ]
    }

    /// Renders the request as wire fields.
    pub fn wire_fields(&self) -> (r: Vec<WireField>)
        ensures
            fields_view(r@) == self.spec_wire(),
    {
        let mut fields: Vec<WireField> = Vec::new();
        fields.push(
            WireField {
                key: "merchantSessionKey".to_owned(),
                value: WireValue::Str(self.merchant_session_key.clone()),
            },
        );
        fields.push(
            WireField {
                key: "cardIdentifier".to_owned(),
                value: WireValue::Str(self.card_identifier.clone()),
            },
        );
        fields.push(WireField { key: "amount".to_owned(), value: WireValue::Int(self.amount) });
        fields.push(
            WireField {
                key: "currency".to_owned(),
                value: WireValue::Str(self.currency.code().to_owned()),
            },
        );
        proof {
            assert(fields_view(fields@) =~= self.spec_wire());
        }
        fields
    }
}

/// The success payload every sagepay pre-task fold produces: no
/// transaction id is assigned yet.
pub open spec fn spec_pretask_transaction_response() -> PaymentsResponseData {
    PaymentsResponseData::TransactionResponse {
        resource_id: ResponseId::NoResponseId,
        redirection_data: None,
        redirect: false,
        mandate_reference: None,
        connector_metadata: None,
    }
}

impl<F, Req> RouterData<F, Req, PaymentsResponseData> {
    /// Folds a session response into the envelope: the merchant session
    /// key becomes the carried session token.
    pub fn from_sagepay_session_response(
        item: ResponseRouterData<F, SagepaySessionResponse, Req, PaymentsResponseData>,
    ) -> (r: Result<Self, ConnectorError>)
        ensures
            r matches Ok(rd) && rd == (RouterData {
                session_token: Some(item.response.session_token),
                response: Ok(spec_pretask_transaction_response()),
                ..item.data
            }),
    {
        Ok(
            RouterData {
                session_token: Some(item.response.session_token),
                response: Ok(pretask_transaction_response()),
                ..item.data
            },
        )
    }

    /// Folds a tokenization response into the envelope: the card
    /// identifier is carried in the session-token slot, as the chained
    /// caller moves it on.
    pub fn from_sagepay_tokenization_response(
        item: ResponseRouterData<F, SagepayCardTokenizationResponse, Req, PaymentsResponseData>,
    ) -> (r: Result<Self, ConnectorError>)
        ensures
            r matches Ok(rd) && rd == (RouterData {
                session_token: Some(item.response.card_identifier),
                response: Ok(spec_pretask_transaction_response()),
                ..item.data
            }),
    {
        Ok(
            RouterData {
                session_token: Some(item.response.card_identifier),
                response: Ok(pretask_transaction_response()),
                ..item.data
            },
        )
    }

    /// Folds a payments response into the envelope: the attempt status is
    /// mapped and the connector's transaction id becomes the resource id.
    pub fn from_sagepay_payments_response(
        item: ResponseRouterData<F, SagepayPaymentsResponse, Req, PaymentsResponseData>,
    ) -> (r: Result<Self, ConnectorError>)
        ensures
            r matches Ok(rd) && rd == (RouterData {
                status: spec_attempt_status_of(item.response.status),
                response: Ok(
                    PaymentsResponseData::TransactionResponse {
                        resource_id: ResponseId::ConnectorTransactionId(item.response.id),
                        redirection_data: None,
                        redirect: false,
                        mandate_reference: None,
                        connector_metadata: None,
                    },
                ),
                ..item.data
            }),
    {
        let status = match item.response.status {
            SagepayPaymentStatus::Succeeded => AttemptStatus::Charged,
            SagepayPaymentStatus::Failed => AttemptStatus::Failure,
            SagepayPaymentStatus::Processing => AttemptStatus::Authorizing,
        };
        Ok(
            RouterData {
                status,
                response: Ok(
                    PaymentsResponseData::TransactionResponse {
                        resource_id: ResponseId::ConnectorTransactionId(item.response.id),
                        redirection_data: None,
                        redirect: false,
                        mandate_reference: None,
                        connector_metadata: None,
                    },
                ),
                ..item.data
            },
        )
    }
}

/// The success payload every sagepay pre-task fold produces.
fn pretask_transaction_response() -> (r: PaymentsResponseData)
    ensures
        r == spec_pretask_transaction_response(),
{
    PaymentsResponseData::TransactionResponse {
        resource_id: ResponseId::NoResponseId,
        redirection_data: None,
        redirect: false,
        mandate_reference: None,
        connector_metadata: None,
    }
}

impl SagepayRefundRequest {
    /// The fields this request puts on the wire: none yet.
    pub open spec fn spec_wire(&self) -> Seq<SpecField> {
        Seq::empty()
    }

    /// Renders the request as wire fields.
    pub fn wire_fields(&self) -> (r: Vec<WireField>)
        ensures
            fields_view(r@) == self.spec_wire(),
    {
        let fields: Vec<WireField> = Vec::new();
        proof {
            assert(fields_view(fields@) =~= Seq::<SpecField>::empty());
        }
        fields
    }

    /// The refund leg of this connector is not wired yet.
    pub fn try_from<F>(_item: &crate::types::RefundsRouterData<F>) -> (r: Result<
        Self,
        ConnectorError,
    >)
        ensures
            r matches Err(e) && e matches ConnectorError::NotImplemented { capability }
                && capability@ == "sagepay refund request"@,
    {
        Err(ConnectorError::NotImplemented { capability: "sagepay refund request".to_owned() })
    }
}

impl crate::types::RefundsRouterData<crate::types::Execute> {
    /// Folding a refund-execute response is not wired yet for this
    /// connector.
    pub fn from_sagepay_refund_response(
        _item: crate::types::RefundsResponseRouterData<crate::types::Execute, RefundResponse>,
    ) -> (r: Result<Self, ConnectorError>)
        ensures
            r matches Err(e) && e matches ConnectorError::NotImplemented { capability }
                && capability@ == "sagepay refund response"@,
    {
        Err(ConnectorError::NotImplemented { capability: "sagepay refund response".to_owned() })
    }
}

impl crate::types::RefundSyncRouterData {
    /// Folding a refund-sync response is not wired yet for this
    /// connector.
    pub fn from_sagepay_refund_sync_response(
        _item: crate::types::RefundsResponseRouterData<crate::types::RSync, RefundResponse>,
    ) -> (r: Result<Self, ConnectorError>)
        ensures
            r matches Err(e) && e matches ConnectorError::NotImplemented { capability }
                && capability@ == "sagepay refund sync response"@,
    {
        Err(
            ConnectorError::NotImplemented { capability: "sagepay refund sync response".to_owned() },
        )
    }
}

} // verus!
