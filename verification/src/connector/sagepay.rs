//! The Sagepay adapter: a card processor whose authorization is chained.
//! A merchant session key is obtained first, then a card identifier, and
//! only then may the primary authorize body be built; a failure at any
//! step stops the chain before the next network call.

use vstd::prelude::*;
use vstd::string::StringExecFns;
use crate::codec;
use crate::codec::{fields_view, object_chars, object_ok, spec_parse_object, SpecField, SpecValue};
use crate::connector::sagepay_transformers as transformers;
use crate::errors::ConnectorError;
use crate::payments::{CallConnectorAction, IncomingWebhookEvent, PretaskError, PretaskRun, PretaskStep};
use crate::settings::Connectors;
use crate::types::{
    ConnectorAuthType, ErrorResponse, Method, PaymentMethod, PaymentsAuthorizeRouterData,
    PaymentsCancelRouterData, PaymentsCardTokenizeRouterData, PaymentsPreAuthorizeRouterData,
    PaymentsResponseData, Request, RequestBuilder, Response, ResponseRouterData, RouterData,
    spec_core_preserved, spec_txn_response_with_id,
};

verus! {

/// The Sagepay connector.
#[derive(Clone, Copy, Debug)]
pub struct Sagepay;

/// The wire fields of the session request this connector always sends
/// for its pre-authorize step.
pub open spec fn spec_session_wire() -> Seq<SpecField> {
    seq![SpecField { key: "vendor_name"@, value: SpecValue::Str("sandbox"@) }]
}

/// What one pre-authorize exchange yields: the merchant session key, or
/// the reason the step failed.
pub open spec fn spec_preauth_outcome(res: Response) -> Result<Seq<char>, ConnectorError> {
    if !(200 <= res.status_code < 300) {
        Err(ConnectorError::ResponseHandlingFailed)
    } else {
        match spec_parse_object(res.response@) {
            Some(fs) => match transformers::spec_session_response_of(fs) {
                Some(tok) => Ok(tok),
                None => Err(ConnectorError::ResponseDeserializationFailed),
            },
            None => Err(ConnectorError::ResponseDeserializationFailed),
        }
    }
}

/// What one card-tokenize exchange yields: the card identifier, or the
/// reason the step failed.
pub open spec fn spec_tokenize_outcome(res: Response) -> Result<Seq<char>, ConnectorError> {
    if !(200 <= res.status_code < 300) {
        Err(ConnectorError::ResponseHandlingFailed)
    } else {
        match spec_parse_object(res.response@) {
            Some(fs) => match transformers::spec_tokenization_response_of(fs) {
                Some(p) => Ok(p.0),
                None => Err(ConnectorError::ResponseDeserializationFailed),
            },
            None => Err(ConnectorError::ResponseDeserializationFailed),
        }
    }
}

impl Sagepay {
    /// The connector's registered name.
    pub fn id(&self) -> (r: &'static str)
        ensures
            r@ == "sagepay"@,
    {
        "sagepay"
    }

    /// The content type of every body this connector accepts.
    pub fn common_get_content_type(&self) -> (r: &'static str)
        ensures
            r@ == "application/json"@,
    {
        "application/json"
    }

    /// Per-flow content type; every flow shares the common one.
    pub fn get_content_type(&self) -> (r: &'static str)
        ensures
            r@ == "application/json"@,
    {
        self.common_get_content_type()
    }

    /// The connector's configured endpoint root.
    pub fn base_url<'a>(&self, connectors: &'a Connectors) -> (r: &'a str)
        ensures
            r@ == connectors.sagepay.base_url@,
    {
        self.connectors_base(connectors)
    }

    /// Reads this connector's entry out of the configuration.
    fn connectors_base<'a>(&self, connectors: &'a Connectors) -> (r: &'a str)
        ensures
            r@ == connectors.sagepay.base_url@,
    {
        connectors.sagepay.base_url.as_str()
    }

    /// The authorization header derived from the merchant's credentials.
    pub fn get_auth_header(&self, auth_type: &ConnectorAuthType) -> (r: Result<
        Vec<(String, String)>,
        ConnectorError,
    >)
        ensures
            match r {
                Ok(h) => {
                    &&& auth_type matches ConnectorAuthType::HeaderKey { api_key }
                    &&& h@.len() == 1
                    &&& h@[0].0@ == "Authorization"@
                    &&& h@[0].1 == api_key
                },
                Err(e) => !(auth_type matches ConnectorAuthType::HeaderKey { .. }) && e
                    == ConnectorError::FailedToObtainAuthType,
            },
    {
        let auth = match transformers::SagepayAuthType::try_from(auth_type) {
            Ok(a) => a,
            Err(e) => {
                return Err(e);
            },
        };
        let mut headers: Vec<(String, String)> = Vec::new();
        headers.push(("Authorization".to_owned(), auth.api_key));
        Ok(headers)
    }

    /// The full header list of an outbound call: the content type and the
    /// authorization header.
    pub fn build_headers<F, Req, Res>(
        &self,
        req: &RouterData<F, Req, Res>,
        _connectors: &Connectors,
    ) -> (r: Result<Vec<(String, String)>, ConnectorError>)
        ensures
            match r {
                Ok(h) => {
                    &&& req.connector_auth_type matches ConnectorAuthType::HeaderKey { api_key }
                    &&& h@.len() == 2
                    &&& h@[0].0@ == "Content-Type"@
                    &&& h@[0].1@ == "application/json"@
                    &&& h@[1].0@ == "Authorization"@
                    &&& h@[1].1 == api_key
                },
                Err(e) => !(req.connector_auth_type matches ConnectorAuthType::HeaderKey { .. })
                    && e == ConnectorError::FailedToObtainAuthType,
            },
    {
        let auth = match transformers::SagepayAuthType::try_from(&req.connector_auth_type) {
            Ok(a) => a,
            Err(e) => {
                return Err(e);
            },
        };
        let mut headers: Vec<(String, String)> = Vec::new();
        headers.push(("Content-Type".to_owned(), self.get_content_type().to_owned()));
        headers.push(("Authorization".to_owned(), auth.api_key));
        Ok(headers)
    }

    /// Parses a connector error payload into the common representation.
    /// This connector's error body carries no fields of its own, so only
    /// the transport status code is kept.
    pub fn build_error_response(&self, res: &Response) -> (r: Result<ErrorResponse, ConnectorError>)
        ensures
            match r {
                Ok(er) => {
                    &&& spec_parse_object(res.response@) == Some(Seq::<SpecField>::empty())
                    &&& er.code@.len() == 0
                    &&& er.message@.len() == 0
                    &&& er.reason is None
                    &&& er.status_code == res.status_code
                },
                Err(e) => {
                    &&& e == ConnectorError::ResponseDeserializationFailed
                    &&& spec_parse_object(res.response@) != Some(Seq::<SpecField>::empty())
                },
            },
    {
        let fields = match codec::decode_json_object(res.response.as_str()) {
            Option::Some(f) => f,
            Option::None => {
                return Err(ConnectorError::ResponseDeserializationFailed);
            },
        };
        if fields.len() != 0 {
            proof {
                assert(fields_view(fields@).len() == fields@.len());
            }
            return Err(ConnectorError::ResponseDeserializationFailed);
        }
        proof {
            assert(fields_view(fields@) =~= Seq::<SpecField>::empty());
        }
        Ok(
            ErrorResponse {
                code: String::new(),
                message: String::new(),
                reason: Option::None,
                status_code: res.status_code,
            },
        )
    }

    /// Per-flow error parsing delegates to the common one.
    pub fn get_error_response(&self, res: &Response) -> (r: Result<ErrorResponse, ConnectorError>)
        ensures
            match r {
                Ok(er) => {
                    &&& spec_parse_object(res.response@) == Some(Seq::<SpecField>::empty())
                    &&& er.code@.len() == 0
                    &&& er.message@.len() == 0
                    &&& er.reason is None
                    &&& er.status_code == res.status_code
                },
                Err(e) => {
                    &&& e == ConnectorError::ResponseDeserializationFailed
                    &&& spec_parse_object(res.response@) != Some(Seq::<SpecField>::empty())
                },
            },
    {
        self.build_error_response(res)
    }

    /// The sync flow of this connector is not wired yet.
    pub fn psync_get_url(
        &self,
        _req: &crate::types::PaymentsSyncRouterData,
        _connectors: &Connectors,
    ) -> (r: Result<String, ConnectorError>)
        ensures
            r matches Err(e) && e matches ConnectorError::NotImplemented { capability }
                && capability@ == "sagepay payments sync url"@,
    {
        Err(ConnectorError::NotImplemented { capability: "sagepay payments sync url".to_owned() })
    }

    /// Composes the sync request; it fails while the sync URL is not
    /// wired.
    pub fn psync_build_request(
        &self,
        req: &crate::types::PaymentsSyncRouterData,
        connectors: &Connectors,
    ) -> (r: Result<Option<Request>, ConnectorError>)
        ensures
            r matches Err(e) && e matches ConnectorError::NotImplemented { capability }
                && capability@ == "sagepay payments sync url"@,
    {
        let url = match self.psync_get_url(req, connectors) {
            Ok(u) => u,
            Err(e) => {
                return Err(e);
            },
        };
        let headers = match self.build_headers(req, connectors) {
            Ok(h) => h,
            Err(e) => {
                return Err(e);
            },
        };
        Ok(
            Some(
                RequestBuilder::new().method(Method::Get).url(url).headers(headers).build(),
            ),
        )
    }

    /// The capture flow of this connector is not wired yet.
    pub fn capture_get_url(
        &self,
        _req: &crate::types::PaymentsCaptureRouterData,
        _connectors: &Connectors,
    ) -> (r: Result<String, ConnectorError>)
        ensures
            r matches Err(e) && e matches ConnectorError::NotImplemented { capability }
                && capability@ == "sagepay payments capture url"@,
    {
        Err(
            ConnectorError::NotImplemented {
                capability: "sagepay payments capture url".to_owned(),
            },
        )
    }

    /// The capture body of this connector is not wired yet.
    pub fn capture_get_request_body(&self, _req: &crate::types::PaymentsCaptureRouterData) -> (r:
        Result<Option<String>, ConnectorError>)
        ensures
            r matches Err(e) && e matches ConnectorError::NotImplemented { capability }
                && capability@ == "sagepay payments capture body"@,
    {
        Err(
            ConnectorError::NotImplemented {
                capability: "sagepay payments capture body".to_owned(),
            },
        )
    }

    /// Composes the capture request; it fails while the capture URL is
    /// not wired.
    pub fn capture_build_request(
        &self,
        req: &crate::types::PaymentsCaptureRouterData,
        connectors: &Connectors,
    ) -> (r: Result<Option<Request>, ConnectorError>)
        ensures
            r matches Err(e) && e matches ConnectorError::NotImplemented { capability }
                && capability@ == "sagepay payments capture url"@,
    {
        let url = match self.capture_get_url(req, connectors) {
            Ok(u) => u,
            Err(e) => {
                return Err(e);
            },
        };
        let headers = match self.build_headers(req, connectors) {
            Ok(h) => h,
            Err(e) => {
                return Err(e);
            },
        };
        Ok(
            Some(
                RequestBuilder::new().method(Method::Post).url(url).headers(headers).build(),
            ),
        )
    }

    /// Parses and folds a primary payment response. The same shape serves
    /// the sync, capture and authorize flows.
    pub fn payments_handle_response<F, Req>(
        &self,
        data: RouterData<F, Req, PaymentsResponseData>,
        res: &Response,
    ) -> (r: Result<RouterData<F, Req, PaymentsResponseData>, ConnectorError>)
        ensures
            match r {
                Ok(rd) => {
                    &&& spec_parse_object(res.response@) matches Some(fs)
                    &&& transformers::spec_payments_response_of(fs) matches Some(p)
                    &&& rd.status == transformers::spec_attempt_status_of(p.0)
                    &&& spec_txn_response_with_id(rd.response, p.1)
                    &&& spec_core_preserved(data, rd)
                    &&& rd.session_token == data.session_token
                    &&& rd.card_token == data.card_token
                },
                Err(e) => {
                    &&& e == ConnectorError::ResponseDeserializationFailed
                    &&& match spec_parse_object(res.response@) {
                        Some(fs) => transformers::spec_payments_response_of(fs) is None,
                        None => true,
                    }
                },
            },
    {
        let fields = match codec::decode_json_object(res.response.as_str()) {
            Option::Some(f) => f,
            Option::None => {
                return Err(ConnectorError::ResponseDeserializationFailed);
            },
        };
        let response = match transformers::SagepayPaymentsResponse::from_wire(&fields) {
            Option::Some(p) => p,
            Option::None => {
                return Err(ConnectorError::ResponseDeserializationFailed);
            },
        };
        RouterData::from_sagepay_payments_response(
            ResponseRouterData { response, data, http_code: res.status_code },
        )
    }

    /// URL of the card-tokenize pre-task call.
    pub fn tokenize_get_url(&self, connectors: &Connectors) -> (r: String)
        ensures
            r@ == connectors.sagepay.base_url@ + "v1/card-identifiers"@,
    {
        let mut url = connectors.sagepay.base_url.clone();
        url.append("v1/card-identifiers");
        url
    }

    /// Body of the card-tokenize pre-task call: the inline card rendered
    /// as a wire object.
    pub fn tokenize_get_request_body(&self, req: &PaymentsCardTokenizeRouterData) -> (r: Result<
        Option<String>,
        ConnectorError,
    >)
        ensures
            match r {
                Ok(b) => {
                    &&& b matches Some(body)
                    &&& object_ok(
                        (transformers::SagepayCardTokenizationRequest {
                            card_details: req.request.card_details,
                        }).spec_wire(),
                    )
                    &&& body@ == object_chars(
                        (transformers::SagepayCardTokenizationRequest {
                            card_details: req.request.card_details,
                        }).spec_wire(),
                    )
                },
                Err(e) => {
                    &&& e == ConnectorError::RequestEncodingFailed
                    &&& !object_ok(
                        (transformers::SagepayCardTokenizationRequest {
                            card_details: req.request.card_details,
                        }).spec_wire(),
                    )
                },
            },
    {
        let req_obj = match transformers::SagepayCardTokenizationRequest::try_from(req) {
            Ok(o) => o,
            Err(e) => {
                return Err(e);
            },
        };
        let fields = req_obj.wire_fields();
        match codec::encode_json_object(&fields) {
            Ok(body) => Ok(Some(body)),
            Err(e) => Err(e),
        }
    }

    /// Parses and folds a card-tokenize pre-task response: the card
    /// identifier is carried onward in the session-token slot.
    pub fn tokenize_handle_response(
        &self,
        data: PaymentsCardTokenizeRouterData,
        res: &Response,
    ) -> (r: Result<PaymentsCardTokenizeRouterData, ConnectorError>)
        ensures
            match r {
                Ok(rd) => {
                    &&& spec_parse_object(res.response@) matches Some(fs)
                    &&& transformers::spec_tokenization_response_of(fs) matches Some(p)
                    &&& rd.session_token matches Some(t)
                    &&& t@ == p.0
                    &&& rd.response == Result::<PaymentsResponseData, ErrorResponse>::Ok(
                        transformers::spec_pretask_transaction_response(),
                    )
                    &&& spec_core_preserved(data, rd)
                    &&& rd.status == data.status
                    &&& rd.card_token == data.card_token
                },
                Err(e) => {
                    &&& e == ConnectorError::ResponseDeserializationFailed
                    &&& match spec_parse_object(res.response@) {
                        Some(fs) => transformers::spec_tokenization_response_of(fs) is None,
                        None => true,
                    }
                },
            },
    {
        let fields = match codec::decode_json_object(res.response.as_str()) {
            Option::Some(f) => f,
            Option::None => {
                return Err(ConnectorError::ResponseDeserializationFailed);
            },
        };
        let response = match transformers::SagepayCardTokenizationResponse::from_wire(&fields) {
            Option::Some(p) => p,
            Option::None => {
                return Err(ConnectorError::ResponseDeserializationFailed);
            },
        };
        RouterData::from_sagepay_tokenization_response(
            ResponseRouterData { response, data, http_code: res.status_code },
        )
    }

    /// URL of the pre-authorize pre-task call.
    pub fn preauthorize_get_url(&self, connectors: &Connectors) -> (r: String)
        ensures
            r@ == connectors.sagepay.base_url@ + "v1/merchant-session-keys"@,
    {
        let mut url = connectors.sagepay.base_url.clone();
        url.append("v1/merchant-session-keys");
        url
    }

    /// Body of the pre-authorize pre-task call: the vendor name rendered
    /// as a wire object.
    pub fn preauthorize_get_request_body(&self, req: &PaymentsPreAuthorizeRouterData) -> (r: Result<
        Option<String>,
        ConnectorError,
    >)
        ensures
            match r {
                Ok(b) => {
                    &&& b matches Some(body)
                    &&& object_ok(spec_session_wire())
                    &&& body@ == object_chars(spec_session_wire())
                },
                Err(e) => e == ConnectorError::RequestEncodingFailed && !object_ok(
                    spec_session_wire(),
                ),
            },
    {
        let req_obj = match transformers::SagepaySessionRequest::try_from(req) {
            Ok(o) => o,
            Err(e) => {
                return Err(e);
            },
        };
        let fields = req_obj.wire_fields();
        proof {
            assert(fields_view(fields@) =~= spec_session_wire());
        }
        match codec::encode_json_object(&fields) {
            Ok(body) => Ok(Some(body)),
            Err(e) => Err(e),
        }
    }

    /// Composes the card-tokenize pre-task request: the tokenize
    /// endpoint, the common headers and the card body.
    pub fn tokenize_build_request(
        &self,
        req: &PaymentsCardTokenizeRouterData,
        connectors: &Connectors,
    ) -> (r: Result<Option<Request>, ConnectorError>)
        ensures
            match r {
                Ok(o) => {
                    &&& req.connector_auth_type matches ConnectorAuthType::HeaderKey { api_key }
                    &&& object_ok(
                        (transformers::SagepayCardTokenizationRequest {
                            card_details: req.request.card_details,
                        }).spec_wire(),
                    )
                    &&& o matches Some(request)
                    &&& request.method == Method::Post
                    &&& request.url@ == connectors.sagepay.base_url@ + "v1/card-identifiers"@
                    &&& request.headers@.len() == 2
                    &&& request.headers@[0].0@ == "Content-Type"@
                    &&& request.headers@[0].1@ == "application/json"@
                    &&& request.headers@[1].0@ == "Authorization"@
                    &&& request.headers@[1].1 == api_key
                    &&& request.body matches Some(body)
                    &&& body@ == object_chars(
                        (transformers::SagepayCardTokenizationRequest {
                            card_details: req.request.card_details,
                        }).spec_wire(),
                    )
                },
                Err(e) => {
                    ||| {
                        &&& e == ConnectorError::FailedToObtainAuthType
                        &&& !(req.connector_auth_type matches ConnectorAuthType::HeaderKey { .. })
                    }
                    ||| {
                        &&& e == ConnectorError::RequestEncodingFailed
                        &&& req.connector_auth_type matches ConnectorAuthType::HeaderKey { .. }
                        &&& !object_ok(
                            (transformers::SagepayCardTokenizationRequest {
                                card_details: req.request.card_details,
                            }).spec_wire(),
                        )
                    }
                },
            },
    {
        let url = self.tokenize_get_url(connectors);
        let headers = match self.build_headers(req, connectors) {
            Ok(h) => h,
            Err(e) => {
                return Err(e);
            },
        };
        let body = match self.tokenize_get_request_body(req) {
            Ok(b) => b,
            Err(e) => {
                return Err(e);
            },
        };
        Ok(
            Some(
                RequestBuilder::new().method(Method::Post).url(url).headers(headers).body(
                    body,
                ).build(),
            ),
        )
    }

    /// Composes the pre-authorize pre-task request: the session-key
    /// endpoint, the common headers and the vendor body.
    pub fn preauthorize_build_request(
        &self,
        req: &PaymentsPreAuthorizeRouterData,
        connectors: &Connectors,
    ) -> (r: Result<Option<Request>, ConnectorError>)
        ensures
            match r {
                Ok(o) => {
                    &&& req.connector_auth_type matches ConnectorAuthType::HeaderKey { api_key }
                    &&& object_ok(spec_session_wire())
                    &&& o matches Some(request)
                    &&& request.method == Method::Post
                    &&& request.url@ == connectors.sagepay.base_url@ + "v1/merchant-session-keys"@
                    &&& request.headers@.len() == 2
                    &&& request.headers@[0].0@ == "Content-Type"@
                    &&& request.headers@[0].1@ == "application/json"@
                    &&& request.headers@[1].0@ == "Authorization"@
                    &&& request.headers@[1].1 == api_key
                    &&& request.body matches Some(body)
                    &&& body@ == object_chars(spec_session_wire())
                },
                Err(e) => {
                    ||| {
                        &&& e == ConnectorError::FailedToObtainAuthType
                        &&& !(req.connector_auth_type matches ConnectorAuthType::HeaderKey { .. })
                    }
                    ||| {
                        &&& e == ConnectorError::RequestEncodingFailed
                        &&& req.connector_auth_type matches ConnectorAuthType::HeaderKey { .. }
                        &&& !object_ok(spec_session_wire())
                    }
                },
            },
    {
        let url = self.preauthorize_get_url(connectors);
        let headers = match self.build_headers(req, connectors) {
            Ok(h) => h,
            Err(e) => {
                return Err(e);
            },
        };
        let body = match self.preauthorize_get_request_body(req) {
            Ok(b) => b,
            Err(e) => {
                return Err(e);
            },
        };
        Ok(
            Some(
                RequestBuilder::new().method(Method::Post).url(url).headers(headers).body(
                    body,
                ).build(),
            ),
        )
    }

    /// Parses and folds a pre-authorize pre-task response: the merchant
    /// session key is carried onward in the session-token slot.
    pub fn preauthorize_handle_response(
        &self,
        data: PaymentsPreAuthorizeRouterData,
        res: &Response,
    ) -> (r: Result<PaymentsPreAuthorizeRouterData, ConnectorError>)
        ensures
            match r {
                Ok(rd) => {
                    &&& spec_parse_object(res.response@) matches Some(fs)
                    &&& transformers::spec_session_response_of(fs) matches Some(tok)
                    &&& rd.session_token matches Some(t)
                    &&& t@ == tok
                    &&& rd.response == Result::<PaymentsResponseData, ErrorResponse>::Ok(
                        transformers::spec_pretask_transaction_response(),
                    )
                    &&& spec_core_preserved(data, rd)
                    &&& rd.status == data.status
                    &&& rd.card_token == data.card_token
                },
                Err(e) => {
                    &&& e == ConnectorError::ResponseDeserializationFailed
                    &&& match spec_parse_object(res.response@) {
                        Some(fs) => transformers::spec_session_response_of(fs) is None,
                        None => true,
                    }
                },
            },
    {
        let fields = match codec::decode_json_object(res.response.as_str()) {
            Option::Some(f) => f,
            Option::None => {
                return Err(ConnectorError::ResponseDeserializationFailed);
            },
        };
        let response = match transformers::SagepaySessionResponse::from_wire(&fields) {
            Option::Some(p) => p,
            Option::None => {
                return Err(ConnectorError::ResponseDeserializationFailed);
            },
        };
        RouterData::from_sagepay_session_response(
            ResponseRouterData { response, data, http_code: res.status_code },
        )
    }

    /// The primary authorize URL of this connector is not wired yet.
    pub fn authorize_get_url(
        &self,
        _req: &PaymentsAuthorizeRouterData,
        _connectors: &Connectors,
    ) -> (r: Result<String, ConnectorError>)
        ensures
            r matches Err(e) && e matches ConnectorError::NotImplemented { capability }
                && capability@ == "sagepay payments authorize url"@,
    {
        Err(
            ConnectorError::NotImplemented {
                capability: "sagepay payments authorize url".to_owned(),
            },
        )
    }

    /// Body of the primary authorize call: both pre-task results embedded
    /// beside the amount.
    pub fn authorize_get_request_body(&self, req: &PaymentsAuthorizeRouterData) -> (r: Result<
        Option<String>,
        ConnectorError,
    >)
        ensures
            match r {
                Ok(b) => {
                    &&& req.session_token matches Some(sk)
                    &&& req.card_token matches Some(ci)
                    &&& b matches Some(body)
                    &&& body@ == object_chars(
                        (transformers::SagepayPaymentsRequest {
                            merchant_session_key: sk,
                            card_identifier: ci,
                            amount: req.request.amount,
                            currency: req.request.currency,
                        }).spec_wire(),
                    )
                },
                Err(e) => {
                    ||| {
                        &&& req.session_token is None
                        &&& e matches ConnectorError::MissingRequiredField { field_name }
                        &&& field_name@ == "session_token"@
                    }
                    ||| {
                        &&& req.session_token is Some
                        &&& req.card_token is None
                        &&& e matches ConnectorError::MissingRequiredField { field_name }
                        &&& field_name@ == "card_token"@
                    }
                    ||| {
                        &&& req.session_token is Some
                        &&& req.card_token is Some
                        &&& e == ConnectorError::RequestEncodingFailed
                        &&& !object_ok(
                            (transformers::SagepayPaymentsRequest {
                                merchant_session_key: req.session_token->Some_0,
                                card_identifier: req.card_token->Some_0,
                                amount: req.request.amount,
                                currency: req.request.currency,
                            }).spec_wire(),
                        )
                    }
                },
            },
    {
        let req_obj = match transformers::SagepayPaymentsRequest::try_from(req) {
            Ok(o) => o,
            Err(e) => {
                return Err(e);
            },
        };
        let fields = req_obj.wire_fields();
        proof {
            assert(req_obj.spec_wire() =~= (transformers::SagepayPaymentsRequest {
                merchant_session_key: req.session_token->Some_0,
                card_identifier: req.card_token->Some_0,
                amount: req.request.amount,
                currency: req.request.currency,
            }).spec_wire());
        }
        match codec::encode_json_object(&fields) {
            Ok(body) => Ok(Some(body)),
            Err(e) => Err(e),
        }
    }

    /// Composes the authorize request; it fails while the authorize URL
    /// is not wired.
    pub fn authorize_build_request(
        &self,
        req: &PaymentsAuthorizeRouterData,
        connectors: &Connectors,
    ) -> (r: Result<Option<Request>, ConnectorError>)
        ensures
            r matches Err(e) && e matches ConnectorError::NotImplemented { capability }
                && capability@ == "sagepay payments authorize url"@,
    {
        let url = match self.authorize_get_url(req, connectors) {
            Ok(u) => u,
            Err(e) => {
                return Err(e);
            },
        };
        let headers = match self.build_headers(req, connectors) {
            Ok(h) => h,
            Err(e) => {
                return Err(e);
            },
        };
        let body = match self.authorize_get_request_body(req) {
            Ok(b) => b,
            Err(e) => {
                return Err(e);
            },
        };
        Ok(
            Some(
                RequestBuilder::new().method(Method::Post).url(url).headers(headers).body(
                    body,
                ).build(),
            ),
        )
    }

    /// The void flow issues no outbound call for this connector: there is
    /// no request to build.
    pub fn void_build_request(
        &self,
        _req: &PaymentsCancelRouterData,
        _connectors: &Connectors,
    ) -> (r: Result<Option<Request>, ConnectorError>)
        ensures
            r == Result::<Option<Request>, ConnectorError>::Ok(None),
    {
        Ok(None)
    }

    /// Runs the ordered pre-task chain: pre-authorize first, card
    /// tokenization second, each feeding the next. `responses` holds the
    /// transport's answer for each planned step, in order; entries after
    /// the first failure are never consulted, and `requests` records
    /// exactly the calls that were issued before the chain stopped.
    pub fn execute_pretasks(
        &self,
        router_data: &mut PaymentsAuthorizeRouterData,
        connectors: &Connectors,
        responses: &Vec<Response>,
    ) -> (r: PretaskRun)
        requires
            responses@.len() == 2,
        ensures
            r.requests@.len() <= 2,
            match r.result {
                Ok(()) => {
                    &&& old(router_data).connector_auth_type matches ConnectorAuthType::HeaderKey {
                        ..
                    }
                    &&& object_ok(spec_session_wire())
                    &&& spec_preauth_outcome(responses@[0]) matches Ok(tok)
                    &&& old(router_data).request.payment_method_data matches PaymentMethod::Card(
                        card,
                    )
                    &&& object_ok(
                        (transformers::SagepayCardTokenizationRequest {
                            card_details: card,
                        }).spec_wire(),
                    )
                    &&& spec_tokenize_outcome(responses@[1]) matches Ok(ci)
                    &&& final(router_data).session_token matches Some(t)
                    &&& t@ == tok
                    &&& final(router_data).card_token matches Some(c)
                    &&& c@ == ci
                    &&& *final(router_data) == (RouterData {
                        session_token: final(router_data).session_token,
                        card_token: final(router_data).card_token,
                        ..*old(router_data)
                    })
                    &&& r.requests@.len() == 2
                    &&& r.requests@[0].method == Method::Post
                    &&& r.requests@[0].url@ == connectors.sagepay.base_url@
                        + "v1/merchant-session-keys"@
                    &&& r.requests@[0].body matches Some(b0)
                    &&& b0@ == object_chars(spec_session_wire())
                    &&& r.requests@[1].method == Method::Post
                    &&& r.requests@[1].url@ == connectors.sagepay.base_url@
                        + "v1/card-identifiers"@
                    &&& r.requests@[1].body matches Some(b1)
                    &&& b1@ == object_chars(
                        (transformers::SagepayCardTokenizationRequest {
                            card_details: card,
                        }).spec_wire(),
                    )
                },
                Err(pe) => match pe.step {
                    PretaskStep::PreAuthorize => {
                        &&& *final(router_data) == *old(router_data)
                        &&& {
                            ||| {
                                &&& !(old(router_data).connector_auth_type
                                    matches ConnectorAuthType::HeaderKey { .. })
                                &&& r.requests@.len() == 0
                                &&& pe.error == ConnectorError::FailedToObtainAuthType
                            }
                            ||| {
                                &&& old(router_data).connector_auth_type
                                    matches ConnectorAuthType::HeaderKey { .. }
                                &&& !object_ok(spec_session_wire())
                                &&& r.requests@.len() == 0
                                &&& pe.error == ConnectorError::RequestEncodingFailed
                            }
                            ||| {
                                &&& old(router_data).connector_auth_type
                                    matches ConnectorAuthType::HeaderKey { .. }
                                &&& object_ok(spec_session_wire())
                                &&& r.requests@.len() == 1
                                &&& spec_preauth_outcome(responses@[0]) == Result::<Seq<char>, ConnectorError>::Err(pe.error)
                            }
                        }
                    },
                    PretaskStep::CardTokenize => {
                        &&& spec_preauth_outcome(responses@[0]) matches Ok(tok)
                        &&& final(router_data).session_token matches Some(t)
                        &&& t@ == tok
                        &&& *final(router_data) == (RouterData {
                            session_token: final(router_data).session_token,
                            ..*old(router_data)
                        })
                        &&& {
                            ||| {
                                &&& !(old(router_data).request.payment_method_data
                                    matches PaymentMethod::Card(..))
                                &&& r.requests@.len() == 1
                                &&& pe.error matches ConnectorError::MissingRequiredField {
                                    field_name,
                                }
                                &&& field_name@ == "card_details"@
                            }
                            ||| {
                                &&& old(router_data).request.payment_method_data
                                    matches PaymentMethod::Card(card)
                                &&& !object_ok(
                                    (transformers::SagepayCardTokenizationRequest {
                                        card_details: card,
                                    }).spec_wire(),
                                )
                                &&& r.requests@.len() == 1
                                &&& pe.error == ConnectorError::RequestEncodingFailed
                            }
                            ||| {
                                &&& old(router_data).request.payment_method_data
                                    matches PaymentMethod::Card(card)
                                &&& object_ok(
                                    (transformers::SagepayCardTokenizationRequest {
                                        card_details: card,
                                    }).spec_wire(),
                                )
                                &&& r.requests@.len() == 2
                                &&& spec_tokenize_outcome(responses@[1]) == Result::<Seq<char>, ConnectorError>::Err(pe.error)
                            }
                        }
                    },
                },
            },
    {
        let mut requests: Vec<Request> = Vec::new();
        // Step one: obtain the merchant session key.
        let headers = match self.build_headers(router_data, connectors) {
            Ok(h) => h,
            Err(e) => {
                return PretaskRun {
                    requests,
                    result: Err(PretaskError { step: PretaskStep::PreAuthorize, error: e }),
                };
            },
        };
        let session_req = transformers::SagepaySessionRequest { vendor_name: "sandbox".to_owned() };
        let wire = session_req.wire_fields();
        proof {
            assert(fields_view(wire@) =~= spec_session_wire());
        }
        let body = match codec::encode_json_object(&wire) {
            Ok(b) => b,
            Err(e) => {
                return PretaskRun {
                    requests,
                    result: Err(PretaskError { step: PretaskStep::PreAuthorize, error: e }),
                };
            },
        };
        let url = self.preauthorize_get_url(connectors);
        requests.push(
            RequestBuilder::new().method(Method::Post).url(url).headers(headers).body(
                Some(body),
            ).build(),
        );
        let res0 = &responses[0];
        if !(res0.status_code >= 200 && res0.status_code < 300) {
            return PretaskRun {
                requests,
                result: Err(
                    PretaskError {
                        step: PretaskStep::PreAuthorize,
                        error: ConnectorError::ResponseHandlingFailed,
                    },
                ),
            };
        }
        let fields0 = match codec::decode_json_object(res0.response.as_str()) {
            Option::Some(f) => f,
            Option::None => {
                return PretaskRun {
                    requests,
                    result: Err(
                        PretaskError {
                            step: PretaskStep::PreAuthorize,
                            error: ConnectorError::ResponseDeserializationFailed,
                        },
                    ),
                };
            },
        };
        let session_resp = match transformers::SagepaySessionResponse::from_wire(&fields0) {
            Option::Some(s) => s,
            Option::None => {
                return PretaskRun {
                    requests,
                    result: Err(
                        PretaskError {
                            step: PretaskStep::PreAuthorize,
                            error: ConnectorError::ResponseDeserializationFailed,
                        },
                    ),
                };
            },
        };
        router_data.session_token = Some(session_resp.session_token);
        // Step two: exchange the card for an identifier, under the key
        // obtained above.
        let card = match &router_data.request.payment_method_data {
            PaymentMethod::Card(c) => c.clone(),
            _ => {
                return PretaskRun {
                    requests,
                    result: Err(
                        PretaskError {
                            step: PretaskStep::CardTokenize,
                            error: ConnectorError::MissingRequiredField {
                                field_name: "card_details".to_owned(),
                            },
                        },
                    ),
                };
            },
        };
        let tok_req = transformers::SagepayCardTokenizationRequest { card_details: card };
        let wire1 = tok_req.wire_fields();
        let body1 = match codec::encode_json_object(&wire1) {
            Ok(b) => b,
            Err(e) => {
                return PretaskRun {
                    requests,
                    result: Err(PretaskError { step: PretaskStep::CardTokenize, error: e }),
                };
            },
        };
        let headers1 = match self.build_headers(router_data, connectors) {
            Ok(h) => h,
            Err(e) => {
                return PretaskRun {
                    requests,
                    result: Err(PretaskError { step: PretaskStep::CardTokenize, error: e }),
                };
            },
        };
        let url1 = self.tokenize_get_url(connectors);
        requests.push(
            RequestBuilder::new().method(Method::Post).url(url1).headers(headers1).body(
                Some(body1),
            ).build(),
        );
        let res1 = &responses[1];
        if !(res1.status_code >= 200 && res1.status_code < 300) {
            return PretaskRun {
                requests,
                result: Err(
                    PretaskError {
                        step: PretaskStep::CardTokenize,
                        error: ConnectorError::ResponseHandlingFailed,
                    },
                ),
            };
        }
        let fields1 = match codec::decode_json_object(res1.response.as_str()) {
            Option::Some(f) => f,
            Option::None => {
                return PretaskRun {
                    requests,
                    result: Err(
                        PretaskError {
                            step: PretaskStep::CardTokenize,
                            error: ConnectorError::ResponseDeserializationFailed,
                        },
                    ),
                };
            },
        };
        let tok_resp = match transformers::SagepayCardTokenizationResponse::from_wire(&fields1) {
            Option::Some(s) => s,
            Option::None => {
                return PretaskRun {
                    requests,
                    result: Err(
                        PretaskError {
                            step: PretaskStep::CardTokenize,
                            error: ConnectorError::ResponseDeserializationFailed,
                        },
                    ),
                };
            },
        };
        router_data.card_token = Some(tok_resp.card_identifier);
        PretaskRun { requests, result: Ok(()) }
    }

    /// The refund leg of this connector is not wired yet.
    pub fn refund_execute_get_url(
        &self,
        _req: &crate::types::RefundsRouterData<crate::types::Execute>,
        _connectors: &Connectors,
    ) -> (r: Result<String, ConnectorError>)
        ensures
            r matches Err(e) && e matches ConnectorError::NotImplemented { capability }
                && capability@ == "sagepay refund execute url"@,
    {
        Err(
            ConnectorError::NotImplemented { capability: "sagepay refund execute url".to_owned() },
        )
    }

    /// The refund body of this connector is not wired yet.
    pub fn refund_execute_get_request_body(
        &self,
        req: &crate::types::RefundsRouterData<crate::types::Execute>,
    ) -> (r: Result<Option<String>, ConnectorError>)
        ensures
            r matches Err(e) && e matches ConnectorError::NotImplemented { capability }
                && capability@ == "sagepay refund request"@,
    {
        match transformers::SagepayRefundRequest::try_from(req) {
            Ok(req_obj) => {
                let fields = req_obj.wire_fields();
                match codec::encode_json_object(&fields) {
                    Ok(body) => Ok(Some(body)),
                    Err(e) => Err(e),
                }
            },
            Err(e) => Err(e),
        }
    }

    /// Composes the refund request; it fails while the refund URL is not
    /// wired.
    pub fn refund_execute_build_request(
        &self,
        req: &crate::types::RefundsRouterData<crate::types::Execute>,
        connectors: &Connectors,
    ) -> (r: Result<Option<Request>, ConnectorError>)
        ensures
            r matches Err(e) && e matches ConnectorError::NotImplemented { capability }
                && capability@ == "sagepay refund execute url"@,
    {
        let url = match self.refund_execute_get_url(req, connectors) {
            Ok(u) => u,
            Err(e) => {
                return Err(e);
            },
        };
        let headers = match self.build_headers(req, connectors) {
            Ok(h) => h,
            Err(e) => {
                return Err(e);
            },
        };
        let body = match self.refund_execute_get_request_body(req) {
            Ok(b) => b,
            Err(e) => {
                return Err(e);
            },
        };
        Ok(
            Some(
                RequestBuilder::new().method(Method::Post).url(url).headers(headers).body(
                    body,
                ).build(),
            ),
        )
    }

    /// Parses and folds a refund-execute response; folding is not wired
    /// yet, so every parsed payload still reports the missing capability.
    pub fn refund_execute_handle_response(
        &self,
        data: crate::types::RefundsRouterData<crate::types::Execute>,
        res: &Response,
    ) -> (r: Result<crate::types::RefundsRouterData<crate::types::Execute>, ConnectorError>)
        ensures
            match r {
                Ok(_) => false,
                Err(e) => {
                    ||| {
                        &&& e == ConnectorError::RequestEncodingFailed
                        &&& spec_parse_object(res.response@) != Some(Seq::<SpecField>::empty())
                    }
                    ||| {
                        &&& e matches ConnectorError::NotImplemented { capability }
                        &&& capability@ == "sagepay refund response"@
                        &&& spec_parse_object(res.response@) == Some(Seq::<SpecField>::empty())
                    }
                },
            },
    {
        let fields = match codec::decode_json_object(res.response.as_str()) {
            Option::Some(f) => f,
            Option::None => {
                return Err(ConnectorError::RequestEncodingFailed);
            },
        };
        if fields.len() != 0 {
            proof {
                assert(fields_view(fields@).len() == fields@.len());
            }
            return Err(ConnectorError::RequestEncodingFailed);
        }
        proof {
            assert(fields_view(fields@) =~= Seq::<SpecField>::empty());
        }
        let response = transformers::RefundResponse {  };
        crate::types::RefundsRouterData::<crate::types::Execute>::from_sagepay_refund_response(
            ResponseRouterData { response, data, http_code: res.status_code },
        )
    }

    /// The refund-sync leg of this connector is not wired yet.
    pub fn rsync_get_url(
        &self,
        _req: &crate::types::RefundSyncRouterData,
        _connectors: &Connectors,
    ) -> (r: Result<String, ConnectorError>)
        ensures
            r matches Err(e) && e matches ConnectorError::NotImplemented { capability }
                && capability@ == "sagepay refund sync url"@,
    {
        Err(ConnectorError::NotImplemented { capability: "sagepay refund sync url".to_owned() })
    }

    /// Composes the refund-sync request; it fails while the refund-sync
    /// URL is not wired.
    pub fn rsync_build_request(
        &self,
        req: &crate::types::RefundSyncRouterData,
        connectors: &Connectors,
    ) -> (r: Result<Option<Request>, ConnectorError>)
        ensures
            r matches Err(e) && e matches ConnectorError::NotImplemented { capability }
                && capability@ == "sagepay refund sync url"@,
    {
        let url = match self.rsync_get_url(req, connectors) {
            Ok(u) => u,
            Err(e) => {
                return Err(e);
            },
        };
        let headers = match self.build_headers(req, connectors) {
            Ok(h) => h,
            Err(e) => {
                return Err(e);
            },
        };
        Ok(
            Some(
                RequestBuilder::new().method(Method::Get).url(url).headers(headers).build(),
            ),
        )
    }

    /// Parses and folds a refund-sync response; folding is not wired yet.
    pub fn rsync_handle_response(
        &self,
        data: crate::types::RefundSyncRouterData,
        res: &Response,
    ) -> (r: Result<crate::types::RefundSyncRouterData, ConnectorError>)
        ensures
            match r {
                Ok(_) => false,
                Err(e) => {
                    ||| {
                        &&& e == ConnectorError::ResponseDeserializationFailed
                        &&& spec_parse_object(res.response@) != Some(Seq::<SpecField>::empty())
                    }
                    ||| {
                        &&& e matches ConnectorError::NotImplemented { capability }
                        &&& capability@ == "sagepay refund sync response"@
                        &&& spec_parse_object(res.response@) == Some(Seq::<SpecField>::empty())
                    }
                },
            },
    {
        let fields = match codec::decode_json_object(res.response.as_str()) {
            Option::Some(f) => f,
            Option::None => {
                return Err(ConnectorError::ResponseDeserializationFailed);
            },
        };
        if fields.len() != 0 {
            proof {
                assert(fields_view(fields@).len() == fields@.len());
            }
            return Err(ConnectorError::ResponseDeserializationFailed);
        }
        proof {
            assert(fields_view(fields@) =~= Seq::<SpecField>::empty());
        }
        let response = transformers::RefundResponse {  };
        crate::types::RefundSyncRouterData::from_sagepay_refund_sync_response(
            ResponseRouterData { response, data, http_code: res.status_code },
        )
    }

    /// This connector exposes no inbound webhooks.
    pub fn get_webhook_object_reference_id(&self, _body: &Vec<u8>) -> (r: Result<
        String,
        ConnectorError,
    >)
        ensures
            r == Result::<String, ConnectorError>::Err(ConnectorError::WebhooksNotImplemented),
    {
        Err(ConnectorError::WebhooksNotImplemented)
    }

    /// This connector exposes no inbound webhooks.
    pub fn get_webhook_event_type(&self, _body: &Vec<u8>) -> (r: Result<
        IncomingWebhookEvent,
        ConnectorError,
    >)
        ensures
            r == Result::<IncomingWebhookEvent, ConnectorError>::Err(
                ConnectorError::WebhooksNotImplemented,
            ),
    {
        Err(ConnectorError::WebhooksNotImplemented)
    }

    /// This connector exposes no inbound webhooks.
    pub fn get_webhook_resource_object(&self, _body: &Vec<u8>) -> (r: Result<
        String,
        ConnectorError,
    >)
        ensures
            r == Result::<String, ConnectorError>::Err(ConnectorError::WebhooksNotImplemented),
    {
        Err(ConnectorError::WebhooksNotImplemented)
    }

    /// A browser redirect back to us always re-triggers the outbound
    /// call for this connector.
    pub fn get_flow_type(&self, _query_params: &str) -> (r: Result<
        CallConnectorAction,
        ConnectorError,
    >)
        ensures
            r == Result::<CallConnectorAction, ConnectorError>::Ok(CallConnectorAction::Trigger),
    {
        Ok(CallConnectorAction::Trigger)
    }
}

} // verus!
