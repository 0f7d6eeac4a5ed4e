//! The Trustpay adapter: a single-call card processor with form-encoded
//! authorize bodies and a sync flow addressed by the stored connector
//! transaction id.

use vstd::prelude::*;
use vstd::string::StringExecFns;
use crate::codec;
use crate::codec::{
    form_chars, int_chars, object_chars, object_ok, spec_parse_object, SpecField, SpecValue,
};
use crate::connector::trustpay_transformers as transformers;
use crate::enums::Currency;
use crate::errors::ConnectorError;
use crate::payments::{CallConnectorAction, IncomingWebhookEvent};
use crate::settings::Connectors;
use crate::types::{
    Card, ConnectorAuthType, ErrorResponse, Method, PaymentMethod, PaymentsAuthorizeRouterData,
    PaymentsCancelRouterData, PaymentsResponseData, Request, RequestBuilder, Response,
    ResponseRouterData, RouterData, spec_core_preserved, spec_txn_response_with_id,
};

verus! {

/// The Trustpay connector.
#[derive(Clone, Copy, Debug)]
pub struct Trustpay;

/// The security code of an inline card, as the wire carries it.
pub open spec fn spec_cvv_of(card: Card) -> int {
    match crate::codec::spec_parse_decimal(card.card_cvc@) {
        Some(v) => v,
        None => 0,
    }
}

/// The form pairs of an authorize body, determined by the request alone.
pub open spec fn spec_authorize_wire(
    amount: int,
    currency: Currency,
    card: Card,
    return_url: Option<String>,
) -> Seq<SpecField> {
    seq![
        SpecField { key: "amount"@, value: SpecValue::Int(amount) },
        SpecField { key: "currency"@, value: SpecValue::Str(currency.spec_code()) },
        SpecField { key: "pan"@, value: SpecValue::Str(card.card_number@) },
        SpecField { key: "cvv"@, value: SpecValue::Int(spec_cvv_of(card)) },
        SpecField {
            key: "exp"@,
            value: SpecValue::Str(card.card_exp_month@ + "/"@ + card.card_exp_year@),
        },
        SpecField {
            key: "redirectUrl"@,
            value: SpecValue::Str(
                match return_url {
                    Some(u) => u@,
                    None => "https://test-tpgw.trustpay.eu"@,
                },
            ),
        },
    ]
}

impl Trustpay {
    /// The connector's registered name.
    pub fn id(&self) -> (r: &'static str)
        ensures
            r@ == "trustpay"@,
    {
        "trustpay"
    }

    /// The content type of every body this connector accepts.
    pub fn common_get_content_type(&self) -> (r: &'static str)
        ensures
            r@ == "application/x-www-form-urlencoded"@,
    {
        "application/x-www-form-urlencoded"
    }

    /// Per-flow content type; every flow shares the common one.
    pub fn get_content_type(&self) -> (r: &'static str)
        ensures
            r@ == "application/x-www-form-urlencoded"@,
    {
        self.common_get_content_type()
    }

    /// The connector's configured endpoint root.
    pub fn base_url<'a>(&self, connectors: &'a Connectors) -> (r: &'a str)
        ensures
            r@ == connectors.trustpay.base_url@,
    {
        connectors.trustpay.base_url.as_str()
    }

    /// The authorization header derived from the merchant's credentials.
    pub fn get_auth_header(&self, auth_type: &ConnectorAuthType) -> (r: Result<
        Vec<(String, String)>,
        ConnectorError,
    >)
        ensures
            match r {
                Ok(h) => {
                    &&& auth_type matches ConnectorAuthType::HeaderKey { api_key }
                    &&& h@.len() == 1
                    &&& h@[0].0@ == "Authorization"@
                    &&& h@[0].1 == api_key
                },
                Err(e) => !(auth_type matches ConnectorAuthType::HeaderKey { .. }) && e
                    == ConnectorError::FailedToObtainAuthType,
            },
    {
        let auth = match transformers::TrustpayAuthType::try_from(auth_type) {
            Ok(a) => a,
            Err(e) => {
                return Err(e);
            },
        };
        let mut headers: Vec<(String, String)> = Vec::new();
        headers.push(("Authorization".to_owned(), auth.api_key));
        Ok(headers)
    }

    /// The full header list of an outbound call: the content type and the
    /// connector's API-key header.
    pub fn build_headers<F, Req, Res>(
        &self,
        req: &RouterData<F, Req, Res>,
        _connectors: &Connectors,
    ) -> (r: Result<Vec<(String, String)>, ConnectorError>)
        ensures
            match r {
                Ok(h) => {
                    &&& req.connector_auth_type matches ConnectorAuthType::HeaderKey { api_key }
                    &&& h@.len() == 2
                    &&& h@[0].0@ == "Content-Type"@
                    &&& h@[0].1@ == "application/x-www-form-urlencoded"@
                    &&& h@[1].0@ == "X-Api-Key"@
                    &&& h@[1].1 == api_key
                },
                Err(e) => !(req.connector_auth_type matches ConnectorAuthType::HeaderKey { .. })
                    && e == ConnectorError::FailedToObtainAuthType,
            },
    {
        let auth = match transformers::TrustpayAuthType::try_from(&req.connector_auth_type) {
            Ok(a) => a,
            Err(e) => {
                return Err(e);
            },
        };
        let mut headers: Vec<(String, String)> = Vec::new();
        headers.push(("Content-Type".to_owned(), self.get_content_type().to_owned()));
        headers.push(("X-Api-Key".to_owned(), auth.api_key));
        Ok(headers)
    }

    /// Parses a connector error payload into the common representation:
    /// the reported status code becomes the error code, the description
    /// the message.
    pub fn build_error_response(&self, res: &Response) -> (r: Result<ErrorResponse, ConnectorError>)
        ensures
            match r {
                Ok(er) => {
                    &&& spec_parse_object(res.response@) matches Some(fs)
                    &&& transformers::spec_error_response_of(fs) matches Some(p)
                    &&& er.code@ == int_chars(p.0)
                    &&& er.message@ == p.1
                    &&& er.reason is None
                    &&& er.status_code == res.status_code
                },
                Err(e) => {
                    &&& e == ConnectorError::ResponseDeserializationFailed
                    &&& match spec_parse_object(res.response@) {
                        Some(fs) => transformers::spec_error_response_of(fs) is None,
                        None => true,
                    }
                },
            },
    {
        let fields = match codec::decode_json_object(res.response.as_str()) {
            Option::Some(f) => f,
            Option::None => {
                return Err(ConnectorError::ResponseDeserializationFailed);
            },
        };
        let parsed = match transformers::TrustpayErrorResponse::from_wire(&fields) {
            Option::Some(p) => p,
            Option::None => {
                return Err(ConnectorError::ResponseDeserializationFailed);
            },
        };
        Ok(
            ErrorResponse {
                code: codec::i64_to_dec(parsed.status),
                message: parsed.description,
                reason: Option::None,
                status_code: res.status_code,
            },
        )
    }

    /// Per-flow error parsing delegates to the common one.
    pub fn get_error_response(&self, res: &Response) -> (r: Result<ErrorResponse, ConnectorError>)
        ensures
            match r {
                Ok(er) => {
                    &&& spec_parse_object(res.response@) matches Some(fs)
                    &&& transformers::spec_error_response_of(fs) matches Some(p)
                    &&& er.code@ == int_chars(p.0)
                    &&& er.message@ == p.1
                    &&& er.reason is None
                    &&& er.status_code == res.status_code
                },
                Err(e) => {
                    &&& e == ConnectorError::ResponseDeserializationFailed
                    &&& match spec_parse_object(res.response@) {
                        Some(fs) => transformers::spec_error_response_of(fs) is None,
                        None => true,
                    }
                },
            },
    {
        self.build_error_response(res)
    }

    /// URL of the sync flow: the stored instance, addressed by the
    /// connector transaction id. Construction fails with the
    /// missing-identifier condition exactly when no non-empty id is
    /// stored.
    pub fn psync_get_url(
        &self,
        req: &crate::types::PaymentsSyncRouterData,
        connectors: &Connectors,
    ) -> (r: Result<String, ConnectorError>)
        ensures
            match r {
                Ok(u) => {
                    &&& req.request.connector_transaction_id.has_transaction_id()
                    &&& req.request.connector_transaction_id
                        matches crate::types::ResponseId::ConnectorTransactionId(tid)
                    &&& u@ == connectors.trustpay.base_url@ + "instance/"@ + tid@
                },
                Err(e) => {
                    &&& e == ConnectorError::MissingConnectorTransactionID
                    &&& !req.request.connector_transaction_id.has_transaction_id()
                },
            },
    {
        let id = match req.request.connector_transaction_id.get_connector_transaction_id() {
            Ok(id) => id,
            Err(e) => {
                return Err(e);
            },
        };
        let mut url = connectors.trustpay.base_url.clone();
        url.append("instance/");
        url.append(id.as_str());
        Ok(url)
    }

    /// Composes the sync request: a bare authenticated read of the
    /// instance. The missing-identifier condition is checked before the
    /// credentials.
    pub fn psync_build_request(
        &self,
        req: &crate::types::PaymentsSyncRouterData,
        connectors: &Connectors,
    ) -> (r: Result<Option<Request>, ConnectorError>)
        ensures
            match r {
                Ok(o) => {
                    &&& req.request.connector_transaction_id.has_transaction_id()
                    &&& req.request.connector_transaction_id
                        matches crate::types::ResponseId::ConnectorTransactionId(tid)
                    &&& req.connector_auth_type matches ConnectorAuthType::HeaderKey { api_key }
                    &&& o matches Some(request)
                    &&& request.method == Method::Get
                    &&& request.url@ == connectors.trustpay.base_url@ + "instance/"@ + tid@
                    &&& request.headers@.len() == 2
                    &&& request.headers@[0].0@ == "Content-Type"@
                    &&& request.headers@[0].1@ == "application/x-www-form-urlencoded"@
                    &&& request.headers@[1].0@ == "X-Api-Key"@
                    &&& request.headers@[1].1 == api_key
                    &&& request.body is None
                },
                Err(e) => {
                    ||| {
                        &&& e == ConnectorError::MissingConnectorTransactionID
                        &&& !req.request.connector_transaction_id.has_transaction_id()
                    }
                    ||| {
                        &&& e == ConnectorError::FailedToObtainAuthType
                        &&& req.request.connector_transaction_id.has_transaction_id()
                        &&& !(req.connector_auth_type matches ConnectorAuthType::HeaderKey { .. })
                    }
                },
            },
    {
        let url = match self.psync_get_url(req, connectors) {
            Ok(u) => u,
            Err(e) => {
                return Err(e);
            },
        };
        let headers = match self.build_headers(req, connectors) {
            Ok(h) => h,
            Err(e) => {
                return Err(e);
            },
        };
        Ok(
            Some(
                RequestBuilder::new().method(Method::Get).url(url).headers(headers).build(),
            ),
        )
    }

    /// Parses and folds a primary payment response. The same shape serves
    /// the sync, capture and authorize flows.
    pub fn payments_handle_response<F, Req>(
        &self,
        data: RouterData<F, Req, PaymentsResponseData>,
        res: &Response,
    ) -> (r: Result<RouterData<F, Req, PaymentsResponseData>, ConnectorError>)
        ensures
            match r {
                Ok(rd) => {
                    &&& spec_parse_object(res.response@) matches Some(fs)
                    &&& transformers::spec_payments_response_of(fs) matches Some(p)
                    &&& rd.status == transformers::spec_attempt_status_of(p.0)
                    &&& spec_txn_response_with_id(rd.response, p.2)
                    &&& spec_core_preserved(data, rd)
                    &&& rd.session_token == data.session_token
                    &&& rd.card_token == data.card_token
                },
                Err(e) => {
                    &&& e == ConnectorError::ResponseDeserializationFailed
                    &&& match spec_parse_object(res.response@) {
                        Some(fs) => transformers::spec_payments_response_of(fs) is None,
                        None => true,
                    }
                },
            },
    {
        let fields = match codec::decode_json_object(res.response.as_str()) {
            Option::Some(f) => f,
            Option::None => {
                return Err(ConnectorError::ResponseDeserializationFailed);
            },
        };
        let response = match transformers::TrustpayPaymentsResponse::from_wire(&fields) {
            Option::Some(p) => p,
            Option::None => {
                return Err(ConnectorError::ResponseDeserializationFailed);
            },
        };
        RouterData::from_trustpay_payments_response(
            ResponseRouterData { response, data, http_code: res.status_code },
        )
    }

    /// The capture flow of this connector is not wired yet.
    pub fn capture_get_url(
        &self,
        _req: &crate::types::PaymentsCaptureRouterData,
        _connectors: &Connectors,
    ) -> (r: Result<String, ConnectorError>)
        ensures
            r matches Err(e) && e matches ConnectorError::NotImplemented { capability }
                && capability@ == "trustpay payments capture url"@,
    {
        Err(
            ConnectorError::NotImplemented {
                capability: "trustpay payments capture url".to_owned(),
            },
        )
    }

    /// The capture body of this connector is not wired yet.
    pub fn capture_get_request_body(&self, _req: &crate::types::PaymentsCaptureRouterData) -> (r:
        Result<Option<String>, ConnectorError>)
        ensures
            r matches Err(e) && e matches ConnectorError::NotImplemented { capability }
                && capability@ == "trustpay payments capture body"@,
    {
        Err(
            ConnectorError::NotImplemented {
                capability: "trustpay payments capture body".to_owned(),
            },
        )
    }

    /// Composes the capture request; it fails while the capture URL is
    /// not wired.
    pub fn capture_build_request(
        &self,
        req: &crate::types::PaymentsCaptureRouterData,
        connectors: &Connectors,
    ) -> (r: Result<Option<Request>, ConnectorError>)
        ensures
            r matches Err(e) && e matches ConnectorError::NotImplemented { capability }
                && capability@ == "trustpay payments capture url"@,
    {
        let url = match self.capture_get_url(req, connectors) {
            Ok(u) => u,
            Err(e) => {
                return Err(e);
            },
        };
        let headers = match self.build_headers(req, connectors) {
            Ok(h) => h,
            Err(e) => {
                return Err(e);
            },
        };
        Ok(
            Some(
                RequestBuilder::new().method(Method::Post).url(url).headers(headers).build(),
            ),
        )
    }

    /// The fixed authorize endpoint of this connector.
    pub fn authorize_get_url(
        &self,
        _req: &PaymentsAuthorizeRouterData,
        _connectors: &Connectors,
    ) -> (r: Result<String, ConnectorError>)
        ensures
            r matches Ok(u) && u@ == "https://amapi.trustpay.eu/mapi5/Card/PayPopup"@,
    {
        Ok("https://amapi.trustpay.eu/mapi5/Card/PayPopup".to_owned())
    }

    /// Body of the authorize call: the card data and redirect target,
    /// form-encoded.
    pub fn authorize_get_request_body(&self, req: &PaymentsAuthorizeRouterData) -> (r: Result<
        Option<String>,
        ConnectorError,
    >)
        ensures
            match r {
                Ok(b) => {
                    &&& req.request.payment_method_data matches PaymentMethod::Card(card)
                    &&& crate::codec::spec_parse_decimal(card.card_cvc@) is Some
                    &&& b matches Some(body)
                    &&& body@ == form_chars(
                        spec_authorize_wire(
                            req.request.amount as int,
                            req.request.currency,
                            card,
                            req.return_url,
                        ),
                    )
                },
                Err(e) => {
                    ||| {
                        &&& !(req.request.payment_method_data matches PaymentMethod::Card(..))
                        &&& e matches ConnectorError::NotImplemented { capability }
                        &&& capability@ == "Unknown payment method Type"@
                    }
                    ||| {
                        &&& req.request.payment_method_data matches PaymentMethod::Card(card)
                        &&& e == ConnectorError::RequestEncodingFailed
                        &&& crate::codec::spec_parse_decimal(card.card_cvc@) is None
                    }
                },
            },
    {
        let req_obj = match transformers::TrustpayPaymentsRequest::try_from(req) {
            Ok(o) => o,
            Err(e) => {
                return Err(e);
            },
        };
        let fields = req_obj.wire_fields();
        proof {
            if let PaymentMethod::Card(card) = &req.request.payment_method_data {
                assert(req_obj.spec_wire() =~= spec_authorize_wire(
                    req.request.amount as int,
                    req.request.currency,
                    *card,
                    req.return_url,
                ));
            }
        }
        Ok(Some(codec::encode_form(&fields)))
    }

    /// Composes the authorize request: the fixed endpoint, the API-key
    /// headers and the form body.
    pub fn authorize_build_request(
        &self,
        req: &PaymentsAuthorizeRouterData,
        connectors: &Connectors,
    ) -> (r: Result<Option<Request>, ConnectorError>)
        ensures
            match r {
                Ok(o) => {
                    &&& req.connector_auth_type matches ConnectorAuthType::HeaderKey { api_key }
                    &&& req.request.payment_method_data matches PaymentMethod::Card(card)
                    &&& o matches Some(request)
                    &&& request.method == Method::Post
                    &&& request.url@ == "https://amapi.trustpay.eu/mapi5/Card/PayPopup"@
                    &&& request.headers@.len() == 2
                    &&& request.headers@[0].0@ == "Content-Type"@
                    &&& request.headers@[0].1@ == "application/x-www-form-urlencoded"@
                    &&& request.headers@[1].0@ == "X-Api-Key"@
                    &&& request.headers@[1].1 == api_key
                    &&& request.body matches Some(body)
                    &&& body@ == form_chars(
                        spec_authorize_wire(
                            req.request.amount as int,
                            req.request.currency,
                            card,
                            req.return_url,
                        ),
                    )
                },
                Err(e) => {
                    ||| {
                        &&& e == ConnectorError::FailedToObtainAuthType
                        &&& !(req.connector_auth_type matches ConnectorAuthType::HeaderKey { .. })
                    }
                    ||| {
                        &&& req.connector_auth_type matches ConnectorAuthType::HeaderKey { .. }
                        &&& !(req.request.payment_method_data matches PaymentMethod::Card(..))
                        &&& e matches ConnectorError::NotImplemented { capability }
                        &&& capability@ == "Unknown payment method Type"@
                    }
                    ||| {
                        &&& req.connector_auth_type matches ConnectorAuthType::HeaderKey { .. }
                        &&& req.request.payment_method_data matches PaymentMethod::Card(card)
                        &&& e == ConnectorError::RequestEncodingFailed
                        &&& crate::codec::spec_parse_decimal(card.card_cvc@) is None
                    }
                },
            },
    {
        let url = match self.authorize_get_url(req, connectors) {
            Ok(u) => u,
            Err(e) => {
                return Err(e);
            },
        };
        let headers = match self.build_headers(req, connectors) {
            Ok(h) => h,
            Err(e) => {
                return Err(e);
            },
        };
        let body = match self.authorize_get_request_body(req) {
            Ok(b) => b,
            Err(e) => {
                return Err(e);
            },
        };
        Ok(
            Some(
                RequestBuilder::new().method(Method::Post).url(url).headers(headers).body(
                    body,
                ).build(),
            ),
        )
    }

    /// The void flow issues no outbound call for this connector: there is
    /// no request to build.
    pub fn void_build_request(
        &self,
        _req: &PaymentsCancelRouterData,
        _connectors: &Connectors,
    ) -> (r: Result<Option<Request>, ConnectorError>)
        ensures
            r == Result::<Option<Request>, ConnectorError>::Ok(None),
    {
        Ok(None)
    }

    /// The refund URL of this connector is not wired yet.
    pub fn refund_execute_get_url(
        &self,
        _req: &crate::types::RefundsRouterData<crate::types::Execute>,
        _connectors: &Connectors,
    ) -> (r: Result<String, ConnectorError>)
        ensures
            r matches Err(e) && e matches ConnectorError::NotImplemented { capability }
                && capability@ == "trustpay refund execute url"@,
    {
        Err(
            ConnectorError::NotImplemented { capability: "trustpay refund execute url".to_owned() },
        )
    }

    /// Body of the refund call: amount, instance and currency as a wire
    /// object.
    pub fn refund_execute_get_request_body(
        &self,
        req: &crate::types::RefundsRouterData<crate::types::Execute>,
    ) -> (r: Result<Option<String>, ConnectorError>)
        ensures
            match r {
                Ok(b) => {
                    &&& b matches Some(body)
                    &&& object_ok(
                        (transformers::TrustpayRefundRequest {
                            amount: req.request.amount,
                            instance_id: req.request.connector_transaction_id,
                            currency: req.request.currency,
                        }).spec_wire(),
                    )
                    &&& body@ == object_chars(
                        (transformers::TrustpayRefundRequest {
                            amount: req.request.amount,
                            instance_id: req.request.connector_transaction_id,
                            currency: req.request.currency,
                        }).spec_wire(),
                    )
                },
                Err(e) => {
                    &&& e == ConnectorError::RequestEncodingFailed
                    &&& !object_ok(
                        (transformers::TrustpayRefundRequest {
                            amount: req.request.amount,
                            instance_id: req.request.connector_transaction_id,
                            currency: req.request.currency,
                        }).spec_wire(),
                    )
                },
            },
    {
        let req_obj = match transformers::TrustpayRefundRequest::try_from(req) {
            Ok(o) => o,
            Err(e) => {
                return Err(e);
            },
        };
        let fields = req_obj.wire_fields();
        match codec::encode_json_object(&fields) {
            Ok(body) => Ok(Some(body)),
            Err(e) => Err(e),
        }
    }

    /// Composes the refund request; it fails while the refund URL is not
    /// wired.
    pub fn refund_execute_build_request(
        &self,
        req: &crate::types::RefundsRouterData<crate::types::Execute>,
        connectors: &Connectors,
    ) -> (r: Result<Option<Request>, ConnectorError>)
        ensures
            r matches Err(e) && e matches ConnectorError::NotImplemented { capability }
                && capability@ == "trustpay refund execute url"@,
    {
        let url = match self.refund_execute_get_url(req, connectors) {
            Ok(u) => u,
            Err(e) => {
                return Err(e);
            },
        };
        let headers = match self.build_headers(req, connectors) {
            Ok(h) => h,
            Err(e) => {
                return Err(e);
            },
        };
        let body = match self.refund_execute_get_request_body(req) {
            Ok(b) => b,
            Err(e) => {
                return Err(e);
            },
        };
        Ok(
            Some(
                RequestBuilder::new().method(Method::Post).url(url).headers(headers).body(
                    body,
                ).build(),
            ),
        )
    }

    /// Parses and folds a refund-execute response: the reported instance
    /// becomes the connector refund id.
    pub fn refund_execute_handle_response(
        &self,
        data: crate::types::RefundsRouterData<crate::types::Execute>,
        res: &Response,
    ) -> (r: Result<crate::types::RefundsRouterData<crate::types::Execute>, ConnectorError>)
        ensures
            match r {
                Ok(rd) => {
                    &&& spec_parse_object(res.response@) matches Some(fs)
                    &&& transformers::spec_refund_response_of(fs) matches Some(p)
                    &&& rd.response matches Ok(rrd)
                    &&& rrd.connector_refund_id@ == p.2
                    &&& rrd.refund_status == transformers::spec_refund_status_of(p.0)
                    &&& spec_core_preserved(data, rd)
                    &&& rd.status == data.status
                    &&& rd.session_token == data.session_token
                    &&& rd.card_token == data.card_token
                },
                Err(e) => {
                    &&& e == ConnectorError::RequestEncodingFailed
                    &&& match spec_parse_object(res.response@) {
                        Some(fs) => transformers::spec_refund_response_of(fs) is None,
                        None => true,
                    }
                },
            },
    {
        let fields = match codec::decode_json_object(res.response.as_str()) {
            Option::Some(f) => f,
            Option::None => {
                return Err(ConnectorError::RequestEncodingFailed);
            },
        };
        let response = match transformers::RefundResponse::from_wire(&fields) {
            Option::Some(p) => p,
            Option::None => {
                return Err(ConnectorError::RequestEncodingFailed);
            },
        };
        crate::types::RefundsRouterData::<crate::types::Execute>::from_trustpay_refund_response(
            ResponseRouterData { response, data, http_code: res.status_code },
        )
    }

    /// The refund-sync URL of this connector is not wired yet.
    pub fn rsync_get_url(
        &self,
        _req: &crate::types::RefundSyncRouterData,
        _connectors: &Connectors,
    ) -> (r: Result<String, ConnectorError>)
        ensures
            r matches Err(e) && e matches ConnectorError::NotImplemented { capability }
                && capability@ == "trustpay refund sync url"@,
    {
        Err(ConnectorError::NotImplemented { capability: "trustpay refund sync url".to_owned() })
    }

    /// Composes the refund-sync request; it fails while the refund-sync
    /// URL is not wired.
    pub fn rsync_build_request(
        &self,
        req: &crate::types::RefundSyncRouterData,
        connectors: &Connectors,
    ) -> (r: Result<Option<Request>, ConnectorError>)
        ensures
            r matches Err(e) && e matches ConnectorError::NotImplemented { capability }
                && capability@ == "trustpay refund sync url"@,
    {
        let url = match self.rsync_get_url(req, connectors) {
            Ok(u) => u,
            Err(e) => {
                return Err(e);
            },
        };
        let headers = match self.build_headers(req, connectors) {
            Ok(h) => h,
            Err(e) => {
                return Err(e);
            },
        };
        Ok(
            Some(
                RequestBuilder::new().method(Method::Get).url(url).headers(headers).build(),
            ),
        )
    }

    /// Parses and folds a refund-sync response; folding is not wired yet,
    /// so every parsed payload still reports the missing capability.
    pub fn rsync_handle_response(
        &self,
        data: crate::types::RefundSyncRouterData,
        res: &Response,
    ) -> (r: Result<crate::types::RefundSyncRouterData, ConnectorError>)
        ensures
            match r {
                Ok(_) => false,
                Err(e) => {
                    ||| {
                        &&& e == ConnectorError::ResponseDeserializationFailed
                        &&& match spec_parse_object(res.response@) {
                            Some(fs) => transformers::spec_refund_response_of(fs) is None,
                            None => true,
                        }
                    }
                    ||| {
                        &&& e matches ConnectorError::NotImplemented { capability }
                        &&& capability@ == "trustpay refund sync response"@
                        &&& spec_parse_object(res.response@) matches Some(fs)
                        &&& transformers::spec_refund_response_of(fs) is Some
                    }
                },
            },
    {
        let fields = match codec::decode_json_object(res.response.as_str()) {
            Option::Some(f) => f,
            Option::None => {
                return Err(ConnectorError::ResponseDeserializationFailed);
            },
        };
        let response = match transformers::RefundResponse::from_wire(&fields) {
            Option::Some(p) => p,
            Option::None => {
                return Err(ConnectorError::ResponseDeserializationFailed);
            },
        };
        crate::types::RefundSyncRouterData::from_trustpay_refund_sync_response(
            ResponseRouterData { response, data, http_code: res.status_code },
        )
    }

    /// This connector exposes no inbound webhooks.
    pub fn get_webhook_object_reference_id(&self, _body: &Vec<u8>) -> (r: Result<
        String,
        ConnectorError,
    >)
        ensures
            r == Result::<String, ConnectorError>::Err(ConnectorError::WebhooksNotImplemented),
    {
        Err(ConnectorError::WebhooksNotImplemented)
    }

    /// This connector exposes no inbound webhooks.
    pub fn get_webhook_event_type(&self, _body: &Vec<u8>) -> (r: Result<
        IncomingWebhookEvent,
        ConnectorError,
    >)
        ensures
            r == Result::<IncomingWebhookEvent, ConnectorError>::Err(
                ConnectorError::WebhooksNotImplemented,
            ),
    {
        Err(ConnectorError::WebhooksNotImplemented)
    }

    /// This connector exposes no inbound webhooks.
    pub fn get_webhook_resource_object(&self, _body: &Vec<u8>) -> (r: Result<
        String,
        ConnectorError,
    >)
        ensures
            r == Result::<String, ConnectorError>::Err(ConnectorError::WebhooksNotImplemented),
    {
        Err(ConnectorError::WebhooksNotImplemented)
    }

    /// A browser redirect back to us always re-triggers the outbound
    /// call for this connector.
    pub fn get_flow_type(&self, _query_params: &str) -> (r: Result<
        CallConnectorAction,
        ConnectorError,
    >)
        ensures
            r == Result::<CallConnectorAction, ConnectorError>::Ok(CallConnectorAction::Trigger),
    {
        Ok(CallConnectorAction::Trigger)
    }
}

} // verus!
