use router::codec::encode_json_object;
use router::connector::sagepay::Sagepay;
use router::connector::sagepay_transformers::{SagepayPaymentStatus, SagepayPaymentsResponse};
use router::connector::trustpay::Trustpay;
use router::connector::trustpay_transformers::{
    RefundResponse, RefundStatus, TrustpayPaymentStatus, TrustpayPaymentsRequest,
    TrustpayPaymentsResponse,
};
use router::enums::{AttemptStatus, Currency, RefundStatus as StorageRefundStatus};
use router::errors::ConnectorError;
use router::payments::make_pm_data;
use router::types::{
    Authorize, Card, ConnectorAuthType, ErrorResponse, Execute, PaymentMethod,
    PaymentsAuthorizeData, PaymentsAuthorizeRouterData, PaymentsResponseData, RefundsData,
    RefundsResponseRouterData, RefundsRouterData, Response, ResponseId, ResponseRouterData,
    RouterData,
};

fn no_response_yet() -> ErrorResponse {
    ErrorResponse {
        code: String::new(),
        message: String::new(),
        reason: None,
        status_code: 0,
    }
}

fn card() -> Card {
    Card {
        card_number: "4111111111111111".to_string(),
        card_exp_month: "10".to_string(),
        card_exp_year: "25".to_string(),
        card_holder_name: "Ada Lovelace".to_string(),
        card_cvc: "737".to_string(),
    }
}

fn authorize_data() -> PaymentsAuthorizeRouterData {
    RouterData {
        flow: Authorize,
        merchant_id: "m1".to_string(),
        payment_id: "pay_1".to_string(),
        attempt_id: "att_1".to_string(),
        status: AttemptStatus::Started,
        connector_auth_type: ConnectorAuthType::HeaderKey {
            api_key: "key_abc".to_string(),
        },
        return_url: None,
        session_token: None,
        card_token: None,
        request: PaymentsAuthorizeData {
            amount: 1000,
            currency: Currency::USD,
            payment_method_data: PaymentMethod::Card(card()),
        },
        response: Err(no_response_yet()),
    }
}

fn refunds_data() -> RefundsRouterData<Execute> {
    RouterData {
        flow: Execute,
        merchant_id: "m1".to_string(),
        payment_id: "pay_1".to_string(),
        attempt_id: "att_1".to_string(),
        status: AttemptStatus::Charged,
        connector_auth_type: ConnectorAuthType::HeaderKey {
            api_key: "key_abc".to_string(),
        },
        return_url: None,
        session_token: None,
        card_token: None,
        request: RefundsData {
            refund_id: "ref_1".to_string(),
            connector_transaction_id: "tx_42".to_string(),
            amount: 700,
            currency: Currency::EUR,
        },
        response: Err(no_response_yet()),
    }
}

fn ok_response(body: &str) -> Response {
    Response {
        status_code: 200,
        response: body.to_string(),
    }
}

fn resource_id_of(rd: &Result<PaymentsResponseData, ErrorResponse>) -> ResponseId {
    match rd {
        Ok(PaymentsResponseData::TransactionResponse { resource_id, .. }) => resource_id.clone(),
        other => panic!("expected a transaction response, got {:?}", other),
    }
}

#[test]
fn trustpay_success_response_reconstructs_the_transaction_id() {
    let data = authorize_data();
    let body = "{\"status\":0,\"description\":\"ok\",\"instanceId\":\"inst_7\",\"paymentStatus\":\"paid\"}";
    let rd = Trustpay
        .payments_handle_response(data, &ok_response(body))
        .unwrap();
    assert_eq!(rd.status, AttemptStatus::Charged);
    assert_eq!(
        resource_id_of(&rd.response),
        ResponseId::ConnectorTransactionId("inst_7".to_string())
    );
}

#[test]
fn encoding_then_decoding_a_response_round_trips() {
    // A response rendered by the wire codec and folded back yields a
    // resource id equal to the raw transaction identifier it carried.
    let connector_view = TrustpayPaymentsResponse {
        status: TrustpayPaymentStatus::Pending,
        description: "processing".to_string(),
        instance_id: "inst_round_trip".to_string(),
        payment_status: "pending".to_string(),
    };
    let body = encode_json_object(&connector_view.wire_fields()).unwrap();
    let rd = Trustpay
        .payments_handle_response(authorize_data(), &ok_response(&body))
        .unwrap();
    assert_eq!(rd.status, AttemptStatus::Pending);
    assert_eq!(
        resource_id_of(&rd.response),
        ResponseId::ConnectorTransactionId("inst_round_trip".to_string())
    );
}

#[test]
fn mismatched_response_shapes_are_never_accepted() {
    for body in [
        "{}",
        "{\"status\":0}",
        "{\"status\":\"0\",\"description\":\"d\",\"instanceId\":\"i\",\"paymentStatus\":\"p\"}",
        "{\"status\":7,\"description\":\"d\",\"instanceId\":\"i\",\"paymentStatus\":\"p\"}",
        "not json at all",
    ] {
        let result = Trustpay.payments_handle_response(authorize_data(), &ok_response(body));
        assert_eq!(
            result.unwrap_err(),
            ConnectorError::ResponseDeserializationFailed,
            "{:?} must be rejected",
            body
        );
    }
}

#[test]
fn trustpay_status_codes_map_onto_the_lifecycle() {
    assert_eq!(
        AttemptStatus::from(TrustpayPaymentStatus::Success),
        AttemptStatus::Charged
    );
    assert_eq!(
        AttemptStatus::from(TrustpayPaymentStatus::Pending),
        AttemptStatus::Pending
    );
    assert_eq!(
        AttemptStatus::from(TrustpayPaymentStatus::Error),
        AttemptStatus::Failure
    );
    assert_eq!(
        AttemptStatus::from(TrustpayPaymentStatus::Expired),
        AttemptStatus::AuthorizationFailed
    );
    assert_eq!(
        AttemptStatus::from(TrustpayPaymentStatus::AbortedByUser),
        AttemptStatus::AuthorizationFailed
    );
    assert_eq!(TrustpayPaymentStatus::from_code(-255), Some(TrustpayPaymentStatus::Failure));
    assert_eq!(TrustpayPaymentStatus::from_code(17), None);
}

#[test]
fn sagepay_success_response_reconstructs_the_transaction_id() {
    let rd = Sagepay
        .payments_handle_response(
            authorize_data(),
            &ok_response("{\"status\":\"succeeded\",\"id\":\"abc\"}"),
        )
        .unwrap();
    assert_eq!(rd.status, AttemptStatus::Charged);
    assert_eq!(
        resource_id_of(&rd.response),
        ResponseId::ConnectorTransactionId("abc".to_string())
    );
    let view = SagepayPaymentsResponse {
        status: SagepayPaymentStatus::Failed,
        id: "zzz".to_string(),
    };
    let body = encode_json_object(&view.wire_fields()).unwrap();
    let rd = Sagepay
        .payments_handle_response(authorize_data(), &ok_response(&body))
        .unwrap();
    assert_eq!(rd.status, AttemptStatus::Failure);
    assert_eq!(
        resource_id_of(&rd.response),
        ResponseId::ConnectorTransactionId("zzz".to_string())
    );
}

#[test]
fn trustpay_authorize_body_is_form_encoded() {
    let body = Trustpay
        .authorize_get_request_body(&authorize_data())
        .unwrap()
        .unwrap();
    assert_eq!(
        body,
        "amount=1000&currency=USD&pan=4111111111111111&cvv=737&exp=10/25&redirectUrl=https://test-tpgw.trustpay.eu"
    );
}

#[test]
fn trustpay_authorize_rejects_non_card_methods() {
    let mut data = authorize_data();
    data.request.payment_method_data = PaymentMethod::Paypal;
    match Trustpay.authorize_get_request_body(&data) {
        Err(ConnectorError::NotImplemented { capability }) => {
            assert_eq!(capability, "Unknown payment method Type");
        }
        other => panic!("expected a non-card rejection, got {:?}", other),
    }
}

#[test]
fn trustpay_authorize_rejects_unreadable_security_codes() {
    let mut data = authorize_data();
    if let PaymentMethod::Card(ref mut c) = data.request.payment_method_data {
        c.card_cvc = "73x".to_string();
    }
    assert_eq!(
        Trustpay.authorize_get_request_body(&data),
        Err(ConnectorError::RequestEncodingFailed)
    );
}

#[test]
fn trustpay_authorize_reads_zero_padded_security_codes() {
    let mut data = authorize_data();
    if let PaymentMethod::Card(ref mut c) = data.request.payment_method_data {
        c.card_cvc = "007".to_string();
    }
    let req = TrustpayPaymentsRequest::try_from(&data).unwrap();
    assert_eq!(req.cvv, 7);
    let body = Trustpay.authorize_get_request_body(&data).unwrap().unwrap();
    assert!(body.contains("cvv=7"));
}

#[test]
fn trustpay_refund_fold_keeps_the_instance() {
    let body = "{\"status\":0,\"description\":\"d\",\"instance_id\":\"i9\",\"payment_status\":\"p\"}";
    let rd = Trustpay
        .refund_execute_handle_response(refunds_data(), &ok_response(body))
        .unwrap();
    let refund = rd.response.unwrap();
    assert_eq!(refund.connector_refund_id, "i9");
    assert_eq!(refund.refund_status, StorageRefundStatus::Success);
}

#[test]
fn trustpay_refund_fold_requires_the_instance() {
    let item: RefundsResponseRouterData<Execute, RefundResponse> = ResponseRouterData {
        response: RefundResponse {
            status: RefundStatus::Pending,
            description: None,
            instance_id: None,
            payment_status: None,
        },
        data: refunds_data(),
        http_code: 200,
    };
    match RefundsRouterData::<Execute>::from_trustpay_refund_response(item) {
        Err(ConnectorError::MissingRequiredField { field_name }) => {
            assert_eq!(field_name, "instanceId");
        }
        other => panic!("expected a missing instance id, got {:?}", other),
    }
}

#[test]
fn trustpay_refund_request_carries_the_transaction() {
    let body = Trustpay
        .refund_execute_get_request_body(&refunds_data())
        .unwrap()
        .unwrap();
    assert_eq!(
        body,
        "{\"amount\":700,\"instance_id\":\"tx_42\",\"currency\":\"EUR\"}"
    );
}

#[test]
fn trustpay_error_payloads_are_classified() {
    let res = Response {
        status_code: 400,
        response: "{\"status\":-2,\"description\":\"card declined\"}".to_string(),
    };
    let er = Trustpay.build_error_response(&res).unwrap();
    assert_eq!(er.code, "-2");
    assert_eq!(er.message, "card declined");
    assert_eq!(er.reason, None);
    assert_eq!(er.status_code, 400);
    let res = Response {
        status_code: 400,
        response: "half a payload".to_string(),
    };
    assert_eq!(
        Trustpay.build_error_response(&res),
        Err(ConnectorError::ResponseDeserializationFailed)
    );
}

#[test]
fn header_construction_requires_the_header_key_scheme() {
    let data = authorize_data();
    let headers = Trustpay.build_headers(&data, &trivial_connectors()).unwrap();
    assert_eq!(
        headers,
        vec![
            (
                "Content-Type".to_string(),
                "application/x-www-form-urlencoded".to_string()
            ),
            ("X-Api-Key".to_string(), "key_abc".to_string()),
        ]
    );
    let mut data = authorize_data();
    data.connector_auth_type = ConnectorAuthType::BodyKey {
        api_key: "a".to_string(),
        key1: "b".to_string(),
    };
    assert_eq!(
        Trustpay.build_headers(&data, &trivial_connectors()),
        Err(ConnectorError::FailedToObtainAuthType)
    );
    assert_eq!(
        Sagepay.get_auth_header(&ConnectorAuthType::HeaderKey {
            api_key: "k".to_string()
        }),
        Ok(vec![("Authorization".to_string(), "k".to_string())])
    );
}

fn trivial_connectors() -> router::settings::Connectors {
    router::settings::Connectors {
        sagepay: router::settings::ConnectorParams {
            base_url: "https://pi-test.sagepay.com/api/".to_string(),
        },
        trustpay: router::settings::ConnectorParams {
            base_url: "https://test-tpgw.trustpay.eu/".to_string(),
        },
    }
}

#[test]
fn webhooks_report_the_missing_capability_without_failing_the_core() {
    let body: Vec<u8> = Vec::new();
    assert_eq!(
        Trustpay.get_webhook_object_reference_id(&body),
        Err(ConnectorError::WebhooksNotImplemented)
    );
    assert_eq!(
        Sagepay.get_webhook_event_type(&body),
        Err(ConnectorError::WebhooksNotImplemented)
    );
    assert_eq!(
        Sagepay.get_flow_type("state=ok").unwrap(),
        router::payments::CallConnectorAction::Trigger
    );
}

#[test]
fn inline_card_verification_code_is_substituted() {
    let request = Some(PaymentMethod::Card(card()));
    let token = Some("tok_1".to_string());
    let (pm, tok) = make_pm_data(
        None,
        &"att_1".to_string(),
        &sample_attempt(),
        &request,
        &token,
        Some("999".to_string()),
    );
    match pm {
        Some(PaymentMethod::Card(c)) => assert_eq!(c.card_cvc, "999"),
        other => panic!("expected a card, got {:?}", other),
    }
    assert_eq!(tok, Some("tok_1".to_string()));
}

fn sample_attempt() -> router::storage::PaymentAttempt {
    router::storage::PaymentAttempt {
        payment_id: "pay_1".to_string(),
        merchant_id: "m1".to_string(),
        attempt_id: "att_1".to_string(),
        status: AttemptStatus::Started,
        amount: 1000,
        currency: Some(Currency::USD),
        connector: None,
        cancellation_reason: None,
        payment_method: None,
    }
}

#[test]
fn trustpay_request_builder_assembles_all_parts() {
    let request = Trustpay
        .authorize_build_request(&authorize_data(), &trivial_connectors())
        .unwrap()
        .unwrap();
    assert_eq!(request.url, "https://amapi.trustpay.eu/mapi5/Card/PayPopup");
    assert_eq!(request.method, router::types::Method::Post);
    assert_eq!(
        request.headers,
        vec![
            (
                "Content-Type".to_string(),
                "application/x-www-form-urlencoded".to_string()
            ),
            ("X-Api-Key".to_string(), "key_abc".to_string()),
        ]
    );
    assert!(request.body.is_some());
}

#[test]
fn trustpay_payments_request_reads_the_card() {
    let req = TrustpayPaymentsRequest::try_from(&authorize_data()).unwrap();
    assert_eq!(req.amount, 1000);
    assert_eq!(req.currency, Currency::USD);
    assert_eq!(req.pan, "4111111111111111");
    assert_eq!(req.cvv, 737);
    assert_eq!(req.exp, "10/25");
    assert_eq!(req.redirect_url, "https://test-tpgw.trustpay.eu");
}
