use router::connector::sagepay::Sagepay;
use router::connector::trustpay::Trustpay;
use router::enums::{AttemptStatus, Currency};
use router::errors::ConnectorError;
use router::payments::PretaskStep;
use router::settings::{ConnectorParams, Connectors};
use router::types::{
    Authorize, Card, ConnectorAuthType, ErrorResponse, Method, PSync, PaymentMethod,
    PaymentsAuthorizeData, PaymentsAuthorizeRouterData, PaymentsSyncData, PaymentsSyncRouterData,
    Response, ResponseId, RouterData,
};

fn connectors() -> Connectors {
    Connectors {
        sagepay: ConnectorParams {
            base_url: "https://pi-test.sagepay.com/api/".to_string(),
        },
        trustpay: ConnectorParams {
            base_url: "https://test-tpgw.trustpay.eu/".to_string(),
        },
    }
}

fn no_response_yet() -> ErrorResponse {
    ErrorResponse {
        code: String::new(),
        message: String::new(),
        reason: None,
        status_code: 0,
    }
}

fn card() -> Card {
    Card {
        card_number: "4111111111111111".to_string(),
        card_exp_month: "10".to_string(),
        card_exp_year: "25".to_string(),
        card_holder_name: "Ada Lovelace".to_string(),
        card_cvc: "737".to_string(),
    }
}

fn sync_data(id: ResponseId) -> PaymentsSyncRouterData {
    RouterData {
        flow: PSync,
        merchant_id: "m1".to_string(),
        payment_id: "pay_1".to_string(),
        attempt_id: "att_1".to_string(),
        status: AttemptStatus::Pending,
        connector_auth_type: ConnectorAuthType::HeaderKey {
            api_key: "key_abc".to_string(),
        },
        return_url: None,
        session_token: None,
        card_token: None,
        request: PaymentsSyncData {
            connector_transaction_id: id,
        },
        response: Err(no_response_yet()),
    }
}

fn authorize_data() -> PaymentsAuthorizeRouterData {
    RouterData {
        flow: Authorize,
        merchant_id: "m1".to_string(),
        payment_id: "pay_1".to_string(),
        attempt_id: "att_1".to_string(),
        status: AttemptStatus::Started,
        connector_auth_type: ConnectorAuthType::HeaderKey {
            api_key: "key_abc".to_string(),
        },
        return_url: None,
        session_token: None,
        card_token: None,
        request: PaymentsAuthorizeData {
            amount: 1000,
            currency: Currency::USD,
            payment_method_data: PaymentMethod::Card(card()),
        },
        response: Err(no_response_yet()),
    }
}

fn ok_response(body: &str) -> Response {
    Response {
        status_code: 200,
        response: body.to_string(),
    }
}

#[test]
fn sync_url_embeds_the_stored_transaction_id() {
    let req = sync_data(ResponseId::ConnectorTransactionId("tx_42".to_string()));
    let url = Trustpay.psync_get_url(&req, &connectors()).unwrap();
    assert_eq!(url, "https://test-tpgw.trustpay.eu/instance/tx_42");
}

#[test]
fn sync_url_fails_without_any_stored_id() {
    let req = sync_data(ResponseId::NoResponseId);
    assert_eq!(
        Trustpay.psync_get_url(&req, &connectors()),
        Err(ConnectorError::MissingConnectorTransactionID)
    );
}

#[test]
fn sync_with_empty_id_fails_before_any_network_call() {
    let req = sync_data(ResponseId::ConnectorTransactionId(String::new()));
    assert_eq!(
        Trustpay.psync_get_url(&req, &connectors()),
        Err(ConnectorError::MissingConnectorTransactionID)
    );
    // No transport request is ever composed on this path.
    assert_eq!(
        Trustpay.psync_build_request(&req, &connectors()),
        Err(ConnectorError::MissingConnectorTransactionID)
    );
}

#[test]
fn sync_request_is_an_authenticated_read() {
    let req = sync_data(ResponseId::ConnectorTransactionId("tx_42".to_string()));
    let request = Trustpay
        .psync_build_request(&req, &connectors())
        .unwrap()
        .unwrap();
    assert_eq!(request.method, Method::Get);
    assert_eq!(request.url, "https://test-tpgw.trustpay.eu/instance/tx_42");
    assert_eq!(request.body, None);
    assert_eq!(
        request.headers,
        vec![
            (
                "Content-Type".to_string(),
                "application/x-www-form-urlencoded".to_string()
            ),
            ("X-Api-Key".to_string(), "key_abc".to_string()),
        ]
    );
}

#[test]
fn sagepay_sync_reports_the_missing_capability() {
    let req = sync_data(ResponseId::ConnectorTransactionId("tx_42".to_string()));
    match Sagepay.psync_get_url(&req, &connectors()) {
        Err(ConnectorError::NotImplemented { capability }) => {
            assert_eq!(capability, "sagepay payments sync url");
        }
        other => panic!("expected a missing capability, got {:?}", other),
    }
}

#[test]
fn chained_authorize_threads_both_tokens() {
    let mut data = authorize_data();
    let responses = vec![
        ok_response("{\"session_token\":\"sk_123\"}"),
        ok_response("{\"card_identifier\":\"ci_456\",\"expiry\":\"1025\",\"card_type\":\"visa\"}"),
    ];
    let run = Sagepay.execute_pretasks(&mut data, &connectors(), &responses);
    assert!(run.result.is_ok());
    assert_eq!(data.session_token, Some("sk_123".to_string()));
    assert_eq!(data.card_token, Some("ci_456".to_string()));
    assert_eq!(run.requests.len(), 2);
    assert_eq!(
        run.requests[0].url,
        "https://pi-test.sagepay.com/api/v1/merchant-session-keys"
    );
    assert_eq!(
        run.requests[0].body.as_deref(),
        Some("{\"vendor_name\":\"sandbox\"}")
    );
    assert_eq!(
        run.requests[1].url,
        "https://pi-test.sagepay.com/api/v1/card-identifiers"
    );
    // The primary authorize body embeds the card identifier obtained by
    // the chain.
    let body = Sagepay
        .authorize_get_request_body(&data)
        .unwrap()
        .unwrap();
    assert_eq!(
        body,
        "{\"merchantSessionKey\":\"sk_123\",\"cardIdentifier\":\"ci_456\",\"amount\":1000,\"currency\":\"USD\"}"
    );
    assert!(body.contains("ci_456"));
}

#[test]
fn failing_first_pretask_stops_the_chain() {
    let mut data = authorize_data();
    let responses = vec![
        Response {
            status_code: 500,
            response: "{}".to_string(),
        },
        ok_response("{\"card_identifier\":\"ci_456\",\"expiry\":\"1025\",\"card_type\":\"visa\"}"),
    ];
    let run = Sagepay.execute_pretasks(&mut data, &connectors(), &responses);
    let err = run.result.unwrap_err();
    assert_eq!(err.step, PretaskStep::PreAuthorize);
    assert_eq!(err.error, ConnectorError::ResponseHandlingFailed);
    assert_eq!(run.requests.len(), 1);
    assert_eq!(data.session_token, None);
    assert_eq!(data.card_token, None);
}

#[test]
fn failing_second_pretask_names_the_step() {
    let mut data = authorize_data();
    let responses = vec![
        ok_response("{\"session_token\":\"sk_123\"}"),
        ok_response("{\"unexpected\":\"shape\"}"),
    ];
    let run = Sagepay.execute_pretasks(&mut data, &connectors(), &responses);
    let err = run.result.unwrap_err();
    assert_eq!(err.step, PretaskStep::CardTokenize);
    assert_eq!(err.error, ConnectorError::ResponseDeserializationFailed);
    assert_eq!(run.requests.len(), 2);
    // The first step's output is kept for a retry; the second never
    // produced one.
    assert_eq!(data.session_token, Some("sk_123".to_string()));
    assert_eq!(data.card_token, None);
}

#[test]
fn pretasks_with_bad_credentials_never_call_out() {
    let mut data = authorize_data();
    data.connector_auth_type = ConnectorAuthType::BodyKey {
        api_key: "a".to_string(),
        key1: "b".to_string(),
    };
    let responses = vec![ok_response("{}"), ok_response("{}")];
    let run = Sagepay.execute_pretasks(&mut data, &connectors(), &responses);
    let err = run.result.unwrap_err();
    assert_eq!(err.step, PretaskStep::PreAuthorize);
    assert_eq!(err.error, ConnectorError::FailedToObtainAuthType);
    assert_eq!(run.requests.len(), 0);
}

#[test]
fn authorize_body_requires_the_chain_results() {
    let data = authorize_data();
    match Sagepay.authorize_get_request_body(&data) {
        Err(ConnectorError::MissingRequiredField { field_name }) => {
            assert_eq!(field_name, "session_token");
        }
        other => panic!("expected a missing session token, got {:?}", other),
    }
    let mut with_session = authorize_data();
    with_session.session_token = Some("sk_1".to_string());
    match Sagepay.authorize_get_request_body(&with_session) {
        Err(ConnectorError::MissingRequiredField { field_name }) => {
            assert_eq!(field_name, "card_token");
        }
        other => panic!("expected a missing card token, got {:?}", other),
    }
}
