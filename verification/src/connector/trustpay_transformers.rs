//! Wire-level request and response shapes of the Trustpay connector, and
//! the conversions between them and the generic envelope. Authorize
//! bodies go out form-encoded; responses come back as wire objects whose
//! status is a signed code.

use vstd::prelude::*;
use crate::codec::{
    fields_view, str_eq, SpecField, SpecValue, WireField, WireValue,
};
use crate::enums::{AttemptStatus, Currency, RefundStatus as StorageRefundStatus};
use crate::errors::ConnectorError;
use crate::types::{
    ConnectorAuthType, PaymentMethod, PaymentsAuthorizeRouterData, PaymentsResponseData,
    ResponseId, ResponseRouterData, RouterData,
};

verus! {

/// The authorize body: card data plus redirect target, form-encoded.
#[derive(Clone, Debug, PartialEq, Eq)]
pub struct TrustpayPaymentsRequest {
    pub amount: i64,
    pub currency: Currency,
    pub pan: String,
    pub cvv: i64,
    pub exp: String,
    pub redirect_url: String,
}

/// The merchant's credentials in the shape this connector expects.
#[derive(Clone, Debug, PartialEq, Eq)]
pub struct TrustpayAuthType {
    pub api_key: String,
}

impl TrustpayAuthType {
    /// Accepts exactly the single-header credential scheme.
    pub fn try_from(auth_type: &ConnectorAuthType) -> (r: Result<Self, ConnectorError>)
        ensures
            match r {
                Ok(a) => auth_type matches ConnectorAuthType::HeaderKey { api_key }
                    && a.api_key == api_key,
                Err(e) => !(auth_type matches ConnectorAuthType::HeaderKey { .. })
                    && e == ConnectorError::FailedToObtainAuthType,
            },
    {
        match auth_type {
            ConnectorAuthType::HeaderKey { api_key } => Ok(
                TrustpayAuthType { api_key: api_key.clone() },
            ),
            _ => Err(ConnectorError::FailedToObtainAuthType),
        }
    }
}

/// Payment status as this connector reports it: a signed code.
#[derive(Clone, Copy, Debug, PartialEq, Eq, Structural)]
pub enum TrustpayPaymentStatus {
    Success,
    Pending,
    Expired,
    Error,
    ServerCallFailed,
    AbortedByUser,
    Failure,
}

impl Default for TrustpayPaymentStatus {
    /// An unreported status is treated as a failure.
    fn default() -> (r: Self)
        ensures
            r == TrustpayPaymentStatus::Failure,
    {
        TrustpayPaymentStatus::Failure
    }
}

/// The signed wire code of a payment status.
pub open spec fn spec_payment_status_code(s: TrustpayPaymentStatus) -> int {
    match s {
        TrustpayPaymentStatus::Success => 0,
        TrustpayPaymentStatus::Pending => 1,
        TrustpayPaymentStatus::Expired => -1,
        TrustpayPaymentStatus::Error => -2,
        TrustpayPaymentStatus::ServerCallFailed => -3,
        TrustpayPaymentStatus::AbortedByUser => -4,
        TrustpayPaymentStatus::Failure => -255,
    }
}

/// Reads a payment status back from its wire code.
pub open spec fn spec_payment_status_of_code(c: int) -> Option<TrustpayPaymentStatus> {
    if c == 0 {
        Some(TrustpayPaymentStatus::Success)
    } else if c == 1 {
        Some(TrustpayPaymentStatus::Pending)
    } else if c == -1 {
        Some(TrustpayPaymentStatus::Expired)
    } else if c == -2 {
        Some(TrustpayPaymentStatus::Error)
    } else if c == -3 {
        Some(TrustpayPaymentStatus::ServerCallFailed)
    } else if c == -4 {
        Some(TrustpayPaymentStatus::AbortedByUser)
    } else if c == -255 {
        Some(TrustpayPaymentStatus::Failure)
    } else {
        None
    }
}

/// The codes are pairwise distinct, so reading a code back recovers the
/// status.
pub proof fn lemma_payment_status_code_inverse(s: TrustpayPaymentStatus)
    ensures
        spec_payment_status_of_code(spec_payment_status_code(s)) == Some(s),
{
}

impl TrustpayPaymentStatus {
    /// The signed wire code of this status.
    pub fn code(&self) -> (r: i64)
        ensures
            r as int == spec_payment_status_code(*self),
    {
        match self {
            TrustpayPaymentStatus::Success => 0,
            TrustpayPaymentStatus::Pending => 1,
            TrustpayPaymentStatus::Expired => -1,
            TrustpayPaymentStatus::Error => -2,
            TrustpayPaymentStatus::ServerCallFailed => -3,
            TrustpayPaymentStatus::AbortedByUser => -4,
            TrustpayPaymentStatus::Failure => -255,
        }
    }

    /// Reads a status from its signed wire code.
    pub fn from_code(c: i64) -> (r: Option<Self>)
        ensures
            r == spec_payment_status_of_code(c as int),
    {
        if c == 0 {
            Some(TrustpayPaymentStatus::Success)
        } else if c == 1 {
            Some(TrustpayPaymentStatus::Pending)
        } else if c == -1 {
            Some(TrustpayPaymentStatus::Expired)
        } else if c == -2 {
            Some(TrustpayPaymentStatus::Error)
        } else if c == -3 {
            Some(TrustpayPaymentStatus::ServerCallFailed)
        } else if c == -4 {
            Some(TrustpayPaymentStatus::AbortedByUser)
        } else if c == -255 {
            Some(TrustpayPaymentStatus::Failure)
        } else {
            None
        }
    }
}

/// The lifecycle status a connector-reported payment status maps to.
pub open spec fn spec_attempt_status_of(item: TrustpayPaymentStatus) -> AttemptStatus {
    match item {
        TrustpayPaymentStatus::Success => AttemptStatus::Charged,
        TrustpayPaymentStatus::Pending => AttemptStatus::Pending,
        TrustpayPaymentStatus::Error => AttemptStatus::Failure,
        TrustpayPaymentStatus::Failure => AttemptStatus::Failure,
        TrustpayPaymentStatus::ServerCallFailed => AttemptStatus::Failure,
        TrustpayPaymentStatus::Expired => AttemptStatus::AuthorizationFailed,
        TrustpayPaymentStatus::AbortedByUser => AttemptStatus::AuthorizationFailed,
    }
}

impl From<TrustpayPaymentStatus> for AttemptStatus {
    fn from(item: TrustpayPaymentStatus) -> Self {
        match item {
            TrustpayPaymentStatus::Success => AttemptStatus::Charged,
            TrustpayPaymentStatus::Pending => AttemptStatus::Pending,
            TrustpayPaymentStatus::Error => AttemptStatus::Failure,
            TrustpayPaymentStatus::Failure => AttemptStatus::Failure,
            TrustpayPaymentStatus::ServerCallFailed => AttemptStatus::Failure,
            TrustpayPaymentStatus::Expired => AttemptStatus::AuthorizationFailed,
            TrustpayPaymentStatus::AbortedByUser => AttemptStatus::AuthorizationFailed,
        }
    }
}

impl vstd::std_specs::convert::FromSpecImpl<TrustpayPaymentStatus> for AttemptStatus {
    open spec fn obeys_from_spec() -> bool {
        true
    }

    open spec fn from_spec(item: TrustpayPaymentStatus) -> Self {
        spec_attempt_status_of(item)
    }
}

impl TrustpayPaymentsRequest {
    /// Builds the authorize body from the envelope: inline card data is
    /// required, the expiry is spelled `month/year`, and the security
    /// code must read as a plain decimal number.
    pub fn try_from(item: &PaymentsAuthorizeRouterData) -> (r: Result<Self, ConnectorError>)
        ensures
            match r {
                Ok(req) => {
                    &&& item.request.payment_method_data matches PaymentMethod::Card(card)
                    &&& req.amount == item.request.amount
                    &&& req.currency == item.request.currency
                    &&& req.pan == card.card_number
                    &&& crate::codec::spec_parse_decimal(card.card_cvc@) == Some(req.cvv as int)
                    &&& req.exp@ == card.card_exp_month@ + "/"@ + card.card_exp_year@
                    &&& (item.return_url matches Some(u) ==> req.redirect_url == u)
                    &&& (item.return_url is None ==> req.redirect_url@
                        == "https://test-tpgw.trustpay.eu"@)
                },
                Err(e) => {
                    ||| {
                        &&& !(item.request.payment_method_data matches PaymentMethod::Card(..))
                        &&& e matches ConnectorError::NotImplemented { capability }
                        &&& capability@ == "Unknown payment method Type"@
                    }
                    ||| {
                        &&& e == ConnectorError::RequestEncodingFailed
                        &&& item.request.payment_method_data matches PaymentMethod::Card(card)
                        &&& crate::codec::spec_parse_decimal(card.card_cvc@) is None
                    }
                },
            },
    {
        let payment_method = match &item.request.payment_method_data {
            PaymentMethod::Card(ccard) => ccard,
            _ => {
                return Err(
                    ConnectorError::NotImplemented {
                        capability: "Unknown payment method Type".to_owned(),
                    },
                );
            },
        };
        let cvv = match crate::codec::parse_i64_decimal(payment_method.card_cvc.as_str()) {
            Option::Some(v) => v,
            Option::None => {
                return Err(ConnectorError::RequestEncodingFailed);
            },
        };
        let mut exp = payment_method.card_exp_month.clone();
        exp.append("/");
        exp.append(payment_method.card_exp_year.as_str());
        proof {
            reveal_strlit("/");
        }
        let redirect_url = match &item.return_url {
            Option::Some(u) => u.clone(),
            Option::None => "https://test-tpgw.trustpay.eu".to_owned(),
        };
        Ok(
            TrustpayPaymentsRequest {
                amount: item.request.amount,
                currency: item.request.currency,
                pan: payment_method.card_number.clone(),
                cvv,
                exp,
                redirect_url,
            },
        )
    }

    /// The pairs this request puts on the wire, in order.
    pub open spec fn spec_wire(&self) -> Seq<SpecField> {
        seq![
            SpecField { key: "amount"@, value: SpecValue::Int(self.amount as int) },
            SpecField { key: "currency"@, value: SpecValue::Str(self.currency.spec_code()) },
            SpecField { key: "pan"@, value: SpecValue::Str(self.pan@) },
            SpecField { key: "cvv"@, value: SpecValue::Int(self.cvv as int) },
            SpecField { key: "exp"@, value: SpecValue::Str(self.exp@) },
            SpecField { key: "redirectUrl"@, value: SpecValue::Str(self.redirect_url@) },
        ]
    }

    /// Renders the request as wire pairs.
    pub fn wire_fields(&self) -> (r: Vec<WireField>)
        ensures
            fields_view(r@) == self.spec_wire(),
    {
        let mut fields: Vec<WireField> = Vec::new();
        fields.push(WireField { key: "amount".to_owned(), value: WireValue::Int(self.amount) });
        fields.push(
            WireField {
                key: "currency".to_owned(),
                value: WireValue::Str(self.currency.code().to_owned()),
            },
        );
        fields.push(WireField { key: "pan".to_owned(), value: WireValue::Str(self.pan.clone()) });
        fields.push(WireField { key: "cvv".to_owned(), value: WireValue::Int(self.cvv) });
        fields.push(WireField { key: "exp".to_owned(), value: WireValue::Str(self.exp.clone()) });
        fields.push(
            WireField {
                key: "redirectUrl".to_owned(),
                value: WireValue::Str(self.redirect_url.clone()),
            },
        );
        proof {
            assert(fields_view(fields@) =~= self.spec_wire());
        }
        fields
    }
}

/// The primary payment response: a status code, a description, the
/// connector's instance id and a status word.
#[derive(Clone, Debug, PartialEq, Eq)]
pub struct TrustpayPaymentsResponse {
    pub status: TrustpayPaymentStatus,
    pub description: String,
    pub instance_id: String,
    pub payment_status: String,
}

/// What a payments-response wire object means.
pub open spec fn spec_payments_response_of(fs: Seq<SpecField>) -> Option<
    (TrustpayPaymentStatus, Seq<char>, Seq<char>, Seq<char>),
> {
    if fs.len() == 4 && fs[0].key == "status"@ && (fs[0].value matches SpecValue::Int(c))
        && fs[1].key == "description"@ && (fs[1].value matches SpecValue::Str(d)) && fs[2].key
        == "instanceId"@ && (fs[2].value matches SpecValue::Str(iid)) && fs[3].key
        == "paymentStatus"@ && (fs[3].value matches SpecValue::Str(ps)) {
        match spec_payment_status_of_code(fs[0].value->Int_0) {
            Some(st) => Some((st, fs[1].value->Str_0, fs[2].value->Str_0, fs[3].value->Str_0)),
            None => None,
        }
    } else {
        None
    }
}

impl TrustpayPaymentsResponse {
    /// The fields this response puts on the wire.
    pub open spec fn spec_wire(&self) -> Seq<SpecField> {
        seq![
            SpecField { key: "status"@, value: SpecValue::Int(spec_payment_status_code(self.status)) },
            SpecField { key: "description"@, value: SpecValue::Str(self.description@) },
            SpecField { key: "instanceId"@, value: SpecValue::Str(self.instance_id@) },
            SpecField { key: "paymentStatus"@, value: SpecValue::Str(self.payment_status@) },
        ]
    }

    /// Renders the response as wire fields.
    pub fn wire_fields(&self) -> (r: Vec<WireField>)
        ensures
            fields_view(r@) == self.spec_wire(),
    {
        let mut fields: Vec<WireField> = Vec::new();
        fields.push(WireField { key: "status".to_owned(), value: WireValue::Int(self.status.code()) });
        fields.push(
            WireField {
                key: "description".to_owned(),
                value: WireValue::Str(self.description.clone()),
            },
        );
        fields.push(
            WireField {
                key: "instanceId".to_owned(),
                value: WireValue::Str(self.instance_id.clone()),
            },
        );
        fields.push(
            WireField {
                key: "paymentStatus".to_owned(),
                value: WireValue::Str(self.payment_status.clone()),
            },
        );
        proof {
            assert(fields_view(fields@) =~= self.spec_wire());
        }
        fields
    }

    /// Reads the response out of a parsed wire object; a payload of any
    /// other shape is rejected.
    pub fn from_wire(fields: &Vec<WireField>) -> (r: Option<Self>)
        ensures
            match r {
                Some(resp) => spec_payments_response_of(fields_view(fields@)) == Some(
                    (resp.status, resp.description@, resp.instance_id@, resp.payment_status@),
                ),
                None => spec_payments_response_of(fields_view(fields@)) is None,
            },
    {
        proof {
            if fields@.len() > 3 {
                assert(fields_view(fields@)[0] == fields@[0]@);
                assert(fields_view(fields@)[1] == fields@[1]@);
                assert(fields_view(fields@)[2] == fields@[2]@);
                assert(fields_view(fields@)[3] == fields@[3]@);
            }
        }
        if fields.len() != 4 {
            return None;
        }
        let f0 = &fields[0];
        let f1 = &fields[1];
        let f2 = &fields[2];
        let f3 = &fields[3];
        if !str_eq(&f0.key, "status") || !str_eq(&f1.key, "description") || !str_eq(
            &f2.key,
            "instanceId",
        ) || !str_eq(&f3.key, "paymentStatus") {
            return None;
        }
        let status = match &f0.value {
            WireValue::Int(c) => {
                match TrustpayPaymentStatus::from_code(*c) {
                    Some(st) => st,
                    None => {
                        return None;
                    },
                }
            },
            _ => {
                return None;
            },
        };
        match (&f1.value, &f2.value, &f3.value) {
            (WireValue::Str(d), WireValue::Str(iid), WireValue::Str(ps)) => Some(
                TrustpayPaymentsResponse {
                    status,
                    description: d.clone(),
                    instance_id: iid.clone(),
                    payment_status: ps.clone(),
                },
            ),
            _ => None,
        }
    }
}

/// Round trip: a rendered payments response reads back as itself.
pub proof fn lemma_payments_response_wire_inverse(resp: TrustpayPaymentsResponse)
    ensures
        spec_payments_response_of(resp.spec_wire()) == Some(
            (resp.status, resp.description@, resp.instance_id@, resp.payment_status@),
        ),
{
    lemma_payment_status_code_inverse(resp.status);
}

/// Round trip across the wire: parsing the rendering of a success
/// response reconstructs exactly its fields, so the folded envelope's
/// resource id equals the connector's raw transaction identifier.
pub proof fn lemma_response_round_trip(resp: TrustpayPaymentsResponse)
    requires
        crate::codec::object_ok(resp.spec_wire()),
    ensures
        crate::codec::spec_parse_object(crate::codec::object_chars(resp.spec_wire())) == Some(
            resp.spec_wire(),
        ),
        spec_payments_response_of(resp.spec_wire()) == Some(
            (resp.status, resp.description@, resp.instance_id@, resp.payment_status@),
        ),
{
    crate::codec::lemma_parse_render_object(resp.spec_wire());
    lemma_payments_response_wire_inverse(resp);
}

impl<F, Req> RouterData<F, Req, PaymentsResponseData> {
    /// Folds a payments response into the envelope: the attempt status is
    /// mapped and the connector's instance id becomes the resource id.
    pub fn from_trustpay_payments_response(
        item: ResponseRouterData<F, TrustpayPaymentsResponse, Req, PaymentsResponseData>,
    ) -> (r: Result<Self, ConnectorError>)
        ensures
            r matches Ok(rd) && rd == (RouterData {
                status: spec_attempt_status_of(item.response.status),
                response: Ok(
                    PaymentsResponseData::TransactionResponse {
                        resource_id: ResponseId::ConnectorTransactionId(item.response.instance_id),
                        redirection_data: None,
                        redirect: false,
                        mandate_reference: None,
                        connector_metadata: None,
                    },
                ),
                ..item.data
            }),
    {
        let status = AttemptStatus::from(item.response.status);
        Ok(
            RouterData {
                status,
                response: Ok(
                    PaymentsResponseData::TransactionResponse {
                        resource_id: ResponseId::ConnectorTransactionId(item.response.instance_id),
                        redirection_data: None,
                        redirect: false,
                        mandate_reference: None,
                        connector_metadata: None,
                    },
                ),
                ..item.data
            },
        )
    }
}

/// A refund request in the connector's layout.
#[derive(Clone, Debug, PartialEq, Eq)]
pub struct TrustpayRefundRequest {
    pub amount: i64,
    pub instance_id: String,
    pub currency: Currency,
}

impl TrustpayRefundRequest {
    /// Builds the refund body from the envelope: the stored connector
    /// transaction id becomes the instance to refund against.
    pub fn try_from<F>(item: &crate::types::RefundsRouterData<F>) -> (r: Result<
        Self,
        ConnectorError,
    >)
        ensures
            r matches Ok(req) && req == (TrustpayRefundRequest {
                amount: item.request.amount,
                instance_id: item.request.connector_transaction_id,
                currency: item.request.currency,
            }),
    {
        Ok(
            TrustpayRefundRequest {
                amount: item.request.amount,
                instance_id: item.request.connector_transaction_id.clone(),
                currency: item.request.currency,
            },
        )
    }

    /// The fields this request puts on the wire.
    pub open spec fn spec_wire(&self) -> Seq<SpecField> {
        seq![
            SpecField { key: "amount"@, value: SpecValue::Int(self.amount as int) },
            SpecField { key: "instance_id"@, value: SpecValue::Str(self.instance_id@) },
            SpecField { key: "currency"@, value: SpecValue::Str(self.currency.spec_code()) },
        ]
    }

    /// Renders the request as wire fields.
    pub fn wire_fields(&self) -> (r: Vec<WireField>)
        ensures
            fields_view(r@) == self.spec_wire(),
    {
        let mut fields: Vec<WireField> = Vec::new();
        fields.push(WireField { key: "amount".to_owned(), value: WireValue::Int(self.amount) });
        fields.push(
            WireField {
                key: "instance_id".to_owned(),
                value: WireValue::Str(self.instance_id.clone()),
            },
        );
        fields.push(
            WireField {
                key: "currency".to_owned(),
                value: WireValue::Str(self.currency.code().to_owned()),
            },
        );
        proof {
            assert(fields_view(fields@) =~= self.spec_wire());
        }
        fields
    }
}

/// Refund status as this connector reports it.
#[derive(Clone, Copy, Debug, PartialEq, Eq, Structural)]
pub enum RefundStatus {
    Success,
    Pending,
    Failure,
}

impl Default for RefundStatus {
    /// An unreported refund status is treated as a failure.
    fn default() -> (r: Self)
        ensures
            r == RefundStatus::Failure,
    {
        RefundStatus::Failure
    }
}

/// The signed wire code of a refund status.
pub open spec fn spec_refund_status_code(s: RefundStatus) -> int {
    match s {
        RefundStatus::Success => 0,
        RefundStatus::Pending => 1,
        RefundStatus::Failure => -255,
    }
}

/// Reads a refund status back from its wire code.
pub open spec fn spec_refund_status_of_code(c: int) -> Option<RefundStatus> {
    if c == 0 {
        Some(RefundStatus::Success)
    } else if c == 1 {
        Some(RefundStatus::Pending)
    } else if c == -255 {
        Some(RefundStatus::Failure)
    } else {
        None
    }
}

impl RefundStatus {
    /// The signed wire code of this status.
    pub fn code(&self) -> (r: i64)
        ensures
            r as int == spec_refund_status_code(*self),
    {
        match self {
            RefundStatus::Success => 0,
            RefundStatus::Pending => 1,
            RefundStatus::Failure => -255,
        }
    }

    /// Reads a status from its signed wire code.
    pub fn from_code(c: i64) -> (r: Option<Self>)
        ensures
            r == spec_refund_status_of_code(c as int),
    {
        if c == 0 {
            Some(RefundStatus::Success)
        } else if c == 1 {
            Some(RefundStatus::Pending)
        } else if c == -255 {
            Some(RefundStatus::Failure)
        } else {
            None
        }
    }
}

/// The stored refund status a connector-reported refund status maps to.
pub open spec fn spec_refund_status_of(item: RefundStatus) -> StorageRefundStatus {
    match item {
        RefundStatus::Success => StorageRefundStatus::Success,
        RefundStatus::Pending => StorageRefundStatus::Pending,
        RefundStatus::Failure => StorageRefundStatus::Failure,
    }
}

impl From<RefundStatus> for StorageRefundStatus {
    fn from(item: RefundStatus) -> Self {
        match item {
            RefundStatus::Success => StorageRefundStatus::Success,
            RefundStatus::Pending => StorageRefundStatus::Pending,
            RefundStatus::Failure => StorageRefundStatus::Failure,
        }
    }
}

impl vstd::std_specs::convert::FromSpecImpl<RefundStatus> for StorageRefundStatus {
    open spec fn obeys_from_spec() -> bool {
        true
    }

    open spec fn from_spec(item: RefundStatus) -> Self {
        spec_refund_status_of(item)
    }
}

/// A refund response in the connector's layout.
#[derive(Clone, Debug, PartialEq, Eq)]
pub struct RefundResponse {
    pub status: RefundStatus,
    pub description: Option<String>,
    pub instance_id: Option<String>,
    pub payment_status: Option<String>,
}

/// What a refund-response wire object means.
pub open spec fn spec_refund_response_of(fs: Seq<SpecField>) -> Option<
    (RefundStatus, Seq<char>, Seq<char>, Seq<char>),
> {
    if fs.len() == 4 && fs[0].key == "status"@ && (fs[0].value matches SpecValue::Int(c))
        && fs[1].key == "description"@ && (fs[1].value matches SpecValue::Str(d)) && fs[2].key
        == "instance_id"@ && (fs[2].value matches SpecValue::Str(iid)) && fs[3].key
        == "payment_status"@ && (fs[3].value matches SpecValue::Str(ps)) {
        match spec_refund_status_of_code(fs[0].value->Int_0) {
            Some(st) => Some((st, fs[1].value->Str_0, fs[2].value->Str_0, fs[3].value->Str_0)),
            None => None,
        }
    } else {
        None
    }
}

impl RefundResponse {
    /// The fields this response puts on the wire.
    pub open spec fn spec_wire(&self) -> Seq<SpecField> {
        seq![
            SpecField { key: "status"@, value: SpecValue::Int(spec_refund_status_code(self.status)) },
            SpecField {
                key: "description"@,
                value: SpecValue::Str(
                    match self.description {
                        Some(d) => d@,
                        None => Seq::empty(),
                    },
                ),
            },
            SpecField {
                key: "instance_id"@,
                value: SpecValue::Str(
                    match self.instance_id {
                        Some(i) => i@,
                        None => Seq::empty(),
                    },
                ),
            },
            SpecField {
                key: "payment_status"@,
                value: SpecValue::Str(
                    match self.payment_status {
                        Some(p) => p@,
                        None => Seq::empty(),
                    },
                ),
            },
        ]
    }

    /// Reads the response out of a parsed wire object; a payload of any
    /// other shape is rejected.
    pub fn from_wire(fields: &Vec<WireField>) -> (r: Option<Self>)
        ensures
            match r {
                Some(resp) => {
                    &&& resp.description matches Some(d)
                    &&& resp.instance_id matches Some(iid)
                    &&& resp.payment_status matches Some(ps)
                    &&& spec_refund_response_of(fields_view(fields@)) == Some(
                        (resp.status, d@, iid@, ps@),
                    )
                },
                None => spec_refund_response_of(fields_view(fields@)) is None,
            },
    {
        proof {
            if fields@.len() > 3 {
                assert(fields_view(fields@)[0] == fields@[0]@);
                assert(fields_view(fields@)[1] == fields@[1]@);
                assert(fields_view(fields@)[2] == fields@[2]@);
                assert(fields_view(fields@)[3] == fields@[3]@);
            }
        }
        if fields.len() != 4 {
            return None;
        }
        let f0 = &fields[0];
        let f1 = &fields[1];
        let f2 = &fields[2];
        let f3 = &fields[3];
        if !str_eq(&f0.key, "status") || !str_eq(&f1.key, "description") || !str_eq(
            &f2.key,
            "instance_id",
        ) || !str_eq(&f3.key, "payment_status") {
            return None;
        }
        let status = match &f0.value {
            WireValue::Int(c) => {
                match RefundStatus::from_code(*c) {
                    Some(st) => st,
                    None => {
                        return None;
                    },
                }
            },
            _ => {
                return None;
            },
        };
        match (&f1.value, &f2.value, &f3.value) {
            (WireValue::Str(d), WireValue::Str(iid), WireValue::Str(ps)) => Some(
                RefundResponse {
                    status,
                    description: Some(d.clone()),
                    instance_id: Some(iid.clone()),
                    payment_status: Some(ps.clone()),
                },
            ),
            _ => None,
        }
    }
}

impl crate::types::RefundsRouterData<crate::types::Execute> {
    /// Folds a refund-execute response into the envelope: the instance id
    /// must be present, and becomes the connector refund id.
    pub fn from_trustpay_refund_response(
        item: crate::types::RefundsResponseRouterData<crate::types::Execute, RefundResponse>,
    ) -> (r: Result<Self, ConnectorError>)
        ensures
            match r {
                Ok(rd) => {
                    &&& item.response.instance_id matches Some(iid)
                    &&& rd == (RouterData {
                        response: Ok(
                            crate::types::RefundsResponseData {
                                connector_refund_id: iid,
                                refund_status: spec_refund_status_of(item.response.status),
                            },
                        ),
                        ..item.data
                    })
                },
                Err(e) => {
                    &&& item.response.instance_id is None
                    &&& e matches ConnectorError::MissingRequiredField { field_name }
                    &&& field_name@ == "instanceId"@
                },
            },
    {
        let iid = match item.response.instance_id {
            Option::Some(iid) => iid,
            Option::None => {
                return Err(
                    ConnectorError::MissingRequiredField { field_name: "instanceId".to_owned() },
                );
            },
        };
        let refund_status = StorageRefundStatus::from(item.response.status);
        Ok(
            RouterData {
                response: Ok(
                    crate::types::RefundsResponseData { connector_refund_id: iid, refund_status },
                ),
                ..item.data
            },
        )
    }
}

impl crate::types::RefundSyncRouterData {
    /// Folding a refund-sync response is not wired yet for this
    /// connector.
    pub fn from_trustpay_refund_sync_response(
        _item: crate::types::RefundsResponseRouterData<crate::types::RSync, RefundResponse>,
    ) -> (r: Result<Self, ConnectorError>)
        ensures
            r matches Err(e) && e matches ConnectorError::NotImplemented { capability }
                && capability@ == "trustpay refund sync response"@,
    {
        Err(
            ConnectorError::NotImplemented {
                capability: "trustpay refund sync response".to_owned(),
            },
        )
    }
}

/// The connector's error payload.
#[derive(Clone, Debug, PartialEq, Eq)]
pub struct TrustpayErrorResponse {
    pub status: i64,
    pub description: String,
    pub errors: Vec<ErrorType>,
}

/// One entry of the connector's error list.
#[derive(Clone, Debug, PartialEq, Eq)]
pub struct ErrorType {
    pub code: i64,
    pub description: String,
}

/// What an error-response wire object means: a status code and a
/// description.
pub open spec fn spec_error_response_of(fs: Seq<SpecField>) -> Option<(int, Seq<char>)> {
    if fs.len() == 2 && fs[0].key == "status"@ && (fs[0].value matches SpecValue::Int(c))
        && fs[1].key == "description"@ && (fs[1].value matches SpecValue::Str(d)) {
        Some((fs[0].value->Int_0, fs[1].value->Str_0))
    } else {
        None
    }
}

impl TrustpayErrorResponse {
    /// The fields this payload puts on the wire.
    pub open spec fn spec_wire(&self) -> Seq<SpecField> {
        seq![
            SpecField { key: "status"@, value: SpecValue::Int(self.status as int) },
            SpecField { key: "description"@, value: SpecValue::Str(self.description@) },
        ]
    }

    /// Renders the payload as wire fields.
    pub fn wire_fields(&self) -> (r: Vec<WireField>)
        ensures
            fields_view(r@) == self.spec_wire(),
    {
        let mut fields: Vec<WireField> = Vec::new();
        fields.push(WireField { key: "status".to_owned(), value: WireValue::Int(self.status) });
        fields.push(
            WireField {
                key: "description".to_owned(),
                value: WireValue::Str(self.description.clone()),
            },
        );
        proof {
            assert(fields_view(fields@) =~= self.spec_wire());
        }
        fields
    }

    /// Reads the payload out of a parsed wire object.
    pub fn from_wire(fields: &Vec<WireField>) -> (r: Option<Self>)
        ensures
            match r {
                Some(resp) => spec_error_response_of(fields_view(fields@)) == Some(
                    (resp.status as int, resp.description@),
                ) && resp.errors@.len() == 0,
                None => spec_error_response_of(fields_view(fields@)) is None,
            },
    {
        proof {
            if fields@.len() > 1 {
                assert(fields_view(fields@)[0] == fields@[0]@);
                assert(fields_view(fields@)[1] == fields@[1]@);
            }
        }
        if fields.len() != 2 {
            return None;
        }
        let f0 = &fields[0];
        let f1 = &fields[1];
        if !str_eq(&f0.key, "status") || !str_eq(&f1.key, "description") {
            return None;
        }
        match (&f0.value, &f1.value) {
            (WireValue::Int(c), WireValue::Str(d)) => Some(
                TrustpayErrorResponse {
                    status: *c,
                    description: d.clone(),
                    errors: Vec::new(),
                },
            ),
            _ => None,
        }
    }
}

/// The sync response in the connector's layout.
#[derive(Clone, Debug, PartialEq, Eq)]
pub struct TrustPaySyncResponse {
    pub status: TrustpayPaymentStatus,
    pub instance_id: String,
    pub created: String,
    pub amount: String,
    pub currency: String,
    pub reference: Option<String>,
    pub payment_status: Option<String>,
    pub payment_status_details: Option<PaymentStatusD>,
    pub three_dsecure: Option<ThreeDS>,
    pub card: Option<Card>,
}

/// A generic call response in the connector's layout.
#[derive(Clone, Debug, PartialEq, Eq)]
pub struct TrustPayGenericResponse {
    pub status: TrustpayPaymentStatus,
    pub description: Option<String>,
    pub instance_id: Option<String>,
    pub redirect_url: Option<String>,
    pub payment_statusdetails: Option<PaymentStatusD>,
    pub redirect_params: Option<String>,
    pub preconditions: Option<String>,
    pub payment_status: Option<String>,
}

impl<F, Req> RouterData<F, Req, PaymentsResponseData> {
    /// Folds a sync response into the envelope: the attempt status is
    /// mapped and the instance id becomes the resource id.
    pub fn from_trustpay_sync_response(
        item: ResponseRouterData<F, TrustPaySyncResponse, Req, PaymentsResponseData>,
    ) -> (r: Result<Self, ConnectorError>)
        ensures
            r matches Ok(rd) && rd == (RouterData {
                status: spec_attempt_status_of(item.response.status),
                response: Ok(
                    PaymentsResponseData::TransactionResponse {
                        resource_id: ResponseId::ConnectorTransactionId(item.response.instance_id),
                        redirection_data: None,
                        redirect: false,
                        mandate_reference: None,
                        connector_metadata: None,
                    },
                ),
                ..item.data
            }),
    {
        let status = AttemptStatus::from(item.response.status);
        Ok(
            RouterData {
                status,
                response: Ok(
                    PaymentsResponseData::TransactionResponse {
                        resource_id: ResponseId::ConnectorTransactionId(item.response.instance_id),
                        redirection_data: None,
                        redirect: false,
                        mandate_reference: None,
                        connector_metadata: None,
                    },
                ),
                ..item.data
            },
        )
    }
}

/// Extended status details of a payment.
#[derive(Clone, Debug, PartialEq, Eq)]
pub struct PaymentStatusD {
    pub extended_description: String,
    pub scheme_response_code: String,
}

/// Three-D-Secure result details.
#[derive(Clone, Debug, PartialEq, Eq)]
pub struct ThreeDS {
    pub eci: String,
}

/// Masked card details the connector echoes back.
#[derive(Clone, Debug, PartialEq, Eq)]
pub struct Card {
    pub masked_pan: String,
    pub expiration: String,
    pub description: Option<String>,
}

/// A capture request in the connector's layout.
#[derive(Clone, Debug, PartialEq, Eq)]
pub struct TrustpayCaptureRequest {
    pub amount: i64,
    pub instance_id: String,
    pub currency: String,
}

} // verus!
