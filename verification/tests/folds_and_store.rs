use router::connector::sagepay::Sagepay;
use router::connector::sagepay_transformers::{SagepayAuthType, SagepayRefundRequest};
use router::connector::trustpay::Trustpay;
use router::enums::{AttemptStatus, Currency, MerchantStorageScheme};
use router::errors::{ApiErrorResponse, ConnectorError, StorageError};
use router::payments::PaymentIdType;
use router::settings::{ConnectorParams, Connectors};
use router::storage::{
    apply_attempt_update, MemoryStore, PaymentAttempt, PaymentAttemptUpdate,
};
use router::types::{
    CardTokenize, CardTokenizeData, ConnectorAuthType, ErrorResponse, Execute, Method,
    PaymentsCardTokenizeRouterData, PaymentsPreAuthorizeRouterData, PreAuthorize,
    PreAuthorizeData, RefundsData, RefundsRouterData, RequestBuilder, Response, ResponseId,
    RouterData,
};

fn connectors() -> Connectors {
    Connectors {
        sagepay: ConnectorParams {
            base_url: "https://pi-test.sagepay.com/api/".to_string(),
        },
        trustpay: ConnectorParams {
            base_url: "https://test-tpgw.trustpay.eu/".to_string(),
        },
    }
}

fn no_response_yet() -> ErrorResponse {
    ErrorResponse {
        code: String::new(),
        message: String::new(),
        reason: None,
        status_code: 0,
    }
}

fn header_auth() -> ConnectorAuthType {
    ConnectorAuthType::HeaderKey {
        api_key: "key_abc".to_string(),
    }
}

fn preauth_data() -> PaymentsPreAuthorizeRouterData {
    RouterData {
        flow: PreAuthorize,
        merchant_id: "m1".to_string(),
        payment_id: "pay_1".to_string(),
        attempt_id: "att_1".to_string(),
        status: AttemptStatus::Started,
        connector_auth_type: header_auth(),
        return_url: None,
        session_token: None,
        card_token: None,
        request: PreAuthorizeData {
            amount: 1000,
            currency: Currency::USD,
        },
        response: Err(no_response_yet()),
    }
}

fn tokenize_data() -> PaymentsCardTokenizeRouterData {
    RouterData {
        flow: CardTokenize,
        merchant_id: "m1".to_string(),
        payment_id: "pay_1".to_string(),
        attempt_id: "att_1".to_string(),
        status: AttemptStatus::Started,
        connector_auth_type: header_auth(),
        return_url: None,
        session_token: Some("sk_123".to_string()),
        card_token: None,
        request: CardTokenizeData {
            card_details: router::types::Card {
                card_number: "4111111111111111".to_string(),
                card_exp_month: "10".to_string(),
                card_exp_year: "25".to_string(),
                card_holder_name: "Ada Lovelace".to_string(),
                card_cvc: "737".to_string(),
            },
        },
        response: Err(no_response_yet()),
    }
}

fn ok_response(body: &str) -> Response {
    Response {
        status_code: 200,
        response: body.to_string(),
    }
}

#[test]
fn session_response_becomes_the_carried_token() {
    let rd = Sagepay
        .preauthorize_handle_response(preauth_data(), &ok_response("{\"session_token\":\"sk_9\"}"))
        .unwrap();
    assert_eq!(rd.session_token, Some("sk_9".to_string()));
    assert!(rd.response.is_ok());
}

#[test]
fn tokenization_response_carries_the_card_identifier() {
    let rd = Sagepay
        .tokenize_handle_response(
            tokenize_data(),
            &ok_response("{\"card_identifier\":\"ci_1\",\"expiry\":\"1025\",\"card_type\":\"visa\"}"),
        )
        .unwrap();
    assert_eq!(rd.session_token, Some("ci_1".to_string()));
}

#[test]
fn pretask_requests_compose_fully() {
    let req = Sagepay
        .preauthorize_build_request(&preauth_data(), &connectors())
        .unwrap()
        .unwrap();
    assert_eq!(req.method, Method::Post);
    assert_eq!(
        req.url,
        "https://pi-test.sagepay.com/api/v1/merchant-session-keys"
    );
    assert_eq!(req.body.as_deref(), Some("{\"vendor_name\":\"sandbox\"}"));
    let req = Sagepay
        .tokenize_build_request(&tokenize_data(), &connectors())
        .unwrap()
        .unwrap();
    assert_eq!(req.url, "https://pi-test.sagepay.com/api/v1/card-identifiers");
    let body = req.body.unwrap();
    assert!(body.contains("4111111111111111"));
    assert!(body.contains("Ada Lovelace"));
}

#[test]
fn sagepay_refund_leg_reports_missing_capabilities() {
    let refunds: RefundsRouterData<Execute> = RouterData {
        flow: Execute,
        merchant_id: "m1".to_string(),
        payment_id: "pay_1".to_string(),
        attempt_id: "att_1".to_string(),
        status: AttemptStatus::Charged,
        connector_auth_type: header_auth(),
        return_url: None,
        session_token: None,
        card_token: None,
        request: RefundsData {
            refund_id: "ref_1".to_string(),
            connector_transaction_id: "tx_1".to_string(),
            amount: 100,
            currency: Currency::GBP,
        },
        response: Err(no_response_yet()),
    };
    match SagepayRefundRequest::try_from(&refunds) {
        Err(ConnectorError::NotImplemented { capability }) => {
            assert_eq!(capability, "sagepay refund request");
        }
        other => panic!("expected a missing capability, got {:?}", other),
    }
    match Sagepay.refund_execute_handle_response(refunds, &ok_response("{}")) {
        Err(ConnectorError::NotImplemented { capability }) => {
            assert_eq!(capability, "sagepay refund response");
        }
        other => panic!("expected a missing capability, got {:?}", other),
    }
}

#[test]
fn sagepay_error_body_is_the_empty_object() {
    let er = Sagepay
        .build_error_response(&Response {
            status_code: 402,
            response: "{}".to_string(),
        })
        .unwrap();
    assert_eq!(er.status_code, 402);
    assert_eq!(er.code, "");
    assert_eq!(
        Sagepay.build_error_response(&Response {
            status_code: 402,
            response: "{\"unexpected\":1}".to_string(),
        }),
        Err(ConnectorError::ResponseDeserializationFailed)
    );
}

#[test]
fn auth_type_conversion_accepts_only_the_header_scheme() {
    let auth = SagepayAuthType::try_from(&header_auth()).unwrap();
    assert_eq!(auth.api_key, "key_abc");
    assert_eq!(
        SagepayAuthType::try_from(&ConnectorAuthType::BodyKey {
            api_key: "a".to_string(),
            key1: "b".to_string(),
        }),
        Err(ConnectorError::FailedToObtainAuthType)
    );
}

#[test]
fn payment_id_kinds_other_than_intent_are_rejected() {
    assert_eq!(
        PaymentIdType::PaymentIntentId("pay_1".to_string())
            .get_payment_intent_id()
            .unwrap(),
        "pay_1"
    );
    assert_eq!(
        PaymentIdType::ConnectorTransactionId("tx_1".to_string()).get_payment_intent_id(),
        Err(ApiErrorResponse::PaymentNotFound)
    );
    assert_eq!(
        PaymentIdType::PaymentAttemptId("att_1".to_string()).get_payment_intent_id(),
        Err(ApiErrorResponse::PaymentNotFound)
    );
}

#[test]
fn stored_transaction_ids_must_be_present_and_non_empty() {
    assert_eq!(
        ResponseId::ConnectorTransactionId("tx".to_string())
            .get_connector_transaction_id()
            .unwrap(),
        "tx"
    );
    assert_eq!(
        ResponseId::ConnectorTransactionId(String::new()).get_connector_transaction_id(),
        Err(ConnectorError::MissingConnectorTransactionID)
    );
    assert_eq!(
        ResponseId::NoResponseId.get_connector_transaction_id(),
        Err(ConnectorError::MissingConnectorTransactionID)
    );
    assert_eq!(
        ResponseId::EncodedData("blob".to_string()).get_connector_transaction_id(),
        Err(ConnectorError::MissingConnectorTransactionID)
    );
}

#[test]
fn store_lookups_find_the_first_match_and_updates_touch_one_row() {
    let mut store = MemoryStore::new();
    let attempt = |aid: &str, status: AttemptStatus| PaymentAttempt {
        payment_id: "pay_1".to_string(),
        merchant_id: "m1".to_string(),
        attempt_id: aid.to_string(),
        status,
        amount: 100,
        currency: Some(Currency::USD),
        connector: None,
        cancellation_reason: None,
        payment_method: None,
    };
    store.payment_attempts.push(attempt("att_1", AttemptStatus::Started));
    store.payment_attempts.push(attempt("att_2", AttemptStatus::Charged));
    let found = store
        .find_payment_attempt_by_payment_id_merchant_id(
            &"pay_1".to_string(),
            &"m1".to_string(),
            MerchantStorageScheme::PostgresOnly,
        )
        .unwrap();
    assert_eq!(found.attempt_id, "att_1");
    let updated = store
        .update_payment_attempt(
            attempt("att_2", AttemptStatus::Charged),
            PaymentAttemptUpdate::VoidUpdate {
                status: AttemptStatus::VoidInitiated,
                cancellation_reason: Some("why".to_string()),
            },
            MerchantStorageScheme::PostgresOnly,
        )
        .unwrap();
    assert_eq!(updated.status, AttemptStatus::VoidInitiated);
    assert_eq!(store.payment_attempts[0].status, AttemptStatus::Started);
    assert_eq!(store.payment_attempts[1].status, AttemptStatus::VoidInitiated);
    assert_eq!(
        store.payment_attempts[1].cancellation_reason,
        Some("why".to_string())
    );
    let missing = store.update_payment_attempt(
        attempt("att_9", AttemptStatus::Charged),
        PaymentAttemptUpdate::VoidUpdate {
            status: AttemptStatus::VoidInitiated,
            cancellation_reason: None,
        },
        MerchantStorageScheme::PostgresOnly,
    );
    assert_eq!(missing, Err(StorageError::ValueNotFound));
}

#[test]
fn applying_a_void_delta_rewrites_only_its_fields() {
    let base = PaymentAttempt {
        payment_id: "pay_1".to_string(),
        merchant_id: "m1".to_string(),
        attempt_id: "att_1".to_string(),
        status: AttemptStatus::Authorizing,
        amount: 5000,
        currency: Some(Currency::USD),
        connector: Some("trustpay".to_string()),
        cancellation_reason: None,
        payment_method: None,
    };
    let updated = apply_attempt_update(
        base,
        PaymentAttemptUpdate::VoidUpdate {
            status: AttemptStatus::VoidInitiated,
            cancellation_reason: Some("fraud".to_string()),
        },
    );
    assert_eq!(updated.status, AttemptStatus::VoidInitiated);
    assert_eq!(updated.cancellation_reason, Some("fraud".to_string()));
    assert_eq!(updated.amount, 5000);
    assert_eq!(updated.connector, Some("trustpay".to_string()));
}

#[test]
fn request_builder_collects_every_part() {
    let request = RequestBuilder::new()
        .method(Method::Put)
        .url("https://example.invalid/x".to_string())
        .headers(vec![("A".to_string(), "b".to_string())])
        .body(Some("payload".to_string()))
        .build();
    assert_eq!(request.method, Method::Put);
    assert_eq!(request.url, "https://example.invalid/x");
    assert_eq!(request.headers, vec![("A".to_string(), "b".to_string())]);
    assert_eq!(request.body, Some("payload".to_string()));
}

#[test]
fn connector_identities_and_currencies_are_stable() {
    assert_eq!(Sagepay.id(), "sagepay");
    assert_eq!(Trustpay.id(), "trustpay");
    assert_eq!(Sagepay.common_get_content_type(), "application/json");
    assert_eq!(
        Trustpay.common_get_content_type(),
        "application/x-www-form-urlencoded"
    );
    assert_eq!(Sagepay.base_url(&connectors()), "https://pi-test.sagepay.com/api/");
    assert_eq!(Currency::USD.code(), "USD");
    assert_eq!(Currency::EUR.code(), "EUR");
    assert_eq!(Currency::GBP.code(), "GBP");
    assert_eq!(Currency::CZK.code(), "CZK");
}
