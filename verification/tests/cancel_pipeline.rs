use router::enums::{
    AttemptStatus, Connector, Currency, IntentStatus, MerchantStorageScheme, PaymentMethodType,
};
use router::errors::ApiErrorResponse;
use router::payment_cancel::{payments_cancel_core, PaymentCancel};
use router::payments::{get_connector_default, PaymentIdType, PaymentsCancelRequest};
use router::storage::{
    ConnectorResponse, MemoryStore, MerchantAccount, PaymentAttempt, PaymentIntent,
};

fn store_with(status: IntentStatus) -> MemoryStore {
    let mut store = MemoryStore::new();
    store.payment_intents.push(PaymentIntent {
        payment_id: "pay_123".to_string(),
        merchant_id: "m1".to_string(),
        status,
        amount: 5000,
        currency: Some(Currency::USD),
        customer_id: Some("cust_1".to_string()),
        shipping_address_id: None,
        billing_address_id: None,
    });
    store.payment_attempts.push(PaymentAttempt {
        payment_id: "pay_123".to_string(),
        merchant_id: "m1".to_string(),
        attempt_id: "att_1".to_string(),
        status: AttemptStatus::Authorizing,
        amount: 5000,
        currency: Some(Currency::USD),
        connector: Some("trustpay".to_string()),
        cancellation_reason: None,
        payment_method: Some(PaymentMethodType::Card),
    });
    store.connector_responses.push(ConnectorResponse {
        payment_id: "pay_123".to_string(),
        merchant_id: "m1".to_string(),
        attempt_id: "att_1".to_string(),
        connector_transaction_id: Some("txn_9".to_string()),
    });
    store
}

fn merchant() -> MerchantAccount {
    MerchantAccount {
        merchant_id: "m1".to_string(),
        storage_scheme: MerchantStorageScheme::PostgresOnly,
        default_connector: Some(Connector::Trustpay),
    }
}

fn cancel_request(reason: Option<&str>) -> PaymentsCancelRequest {
    PaymentsCancelRequest {
        payment_id: "pay_123".to_string(),
        cancellation_reason: reason.map(|r| r.to_string()),
    }
}

#[test]
fn cancel_happy_path_sets_void_initiated() {
    let mut store = store_with(IntentStatus::RequiresCapture);
    let result = payments_cancel_core(&mut store, &merchant(), &cancel_request(Some("fraud")));
    let pd = result.expect("cancel must succeed in RequiresCapture");
    assert_eq!(pd.payment_attempt.status, AttemptStatus::VoidInitiated);
    assert_eq!(pd.amount, 5000);
    assert_eq!(pd.currency, Currency::USD);
    assert_eq!(store.payment_attempts[0].status, AttemptStatus::VoidInitiated);
}

#[test]
fn cancel_persists_reason_verbatim() {
    let mut store = store_with(IntentStatus::RequiresCapture);
    let result = payments_cancel_core(
        &mut store,
        &merchant(),
        &cancel_request(Some("requested_by_customer")),
    );
    let pd = result.unwrap();
    assert_eq!(
        pd.payment_attempt.cancellation_reason,
        Some("requested_by_customer".to_string())
    );
    assert_eq!(
        store.payment_attempts[0].cancellation_reason,
        Some("requested_by_customer".to_string())
    );
}

#[test]
fn cancel_without_reason_persists_none() {
    let mut store = store_with(IntentStatus::RequiresCapture);
    let pd = payments_cancel_core(&mut store, &merchant(), &cancel_request(None)).unwrap();
    assert_eq!(pd.payment_attempt.status, AttemptStatus::VoidInitiated);
    assert_eq!(pd.payment_attempt.cancellation_reason, None);
}

#[test]
fn cancel_illegal_state_fails_with_message_and_no_write() {
    let mut store = store_with(IntentStatus::Charged);
    let attempts_before = store.payment_attempts.clone();
    let intents_before = store.payment_intents.clone();
    let result = payments_cancel_core(&mut store, &merchant(), &cancel_request(Some("late")));
    match result {
        Err(ApiErrorResponse::InvalidRequestData { message }) => {
            assert_eq!(
                message,
                "You cannot cancel the payment that has not been authorized"
            );
        }
        other => panic!("expected an illegal-state failure, got {:?}", other),
    }
    assert_eq!(store.payment_attempts, attempts_before);
    assert_eq!(store.payment_intents, intents_before);
}

#[test]
fn cancel_rejected_for_every_non_capturable_status() {
    for status in [
        IntentStatus::RequiresPaymentMethod,
        IntentStatus::RequiresConfirmation,
        IntentStatus::Processing,
        IntentStatus::Charged,
        IntentStatus::Failed,
        IntentStatus::Cancelled,
    ] {
        let mut store = store_with(status);
        let attempts_before = store.payment_attempts.clone();
        let result = payments_cancel_core(&mut store, &merchant(), &cancel_request(None));
        assert!(
            matches!(result, Err(ApiErrorResponse::InvalidRequestData { .. })),
            "status {:?} must reject cancel",
            status
        );
        assert_eq!(store.payment_attempts, attempts_before);
    }
}

#[test]
fn cancel_unknown_payment_reports_not_found() {
    let mut store = MemoryStore::new();
    let result = payments_cancel_core(&mut store, &merchant(), &cancel_request(None));
    assert_eq!(result.unwrap_err(), ApiErrorResponse::PaymentNotFound);
}

#[test]
fn cancel_without_stored_currency_reports_missing_field() {
    let mut store = store_with(IntentStatus::RequiresCapture);
    store.payment_attempts[0].currency = None;
    let result = payments_cancel_core(&mut store, &merchant(), &cancel_request(None));
    match result {
        Err(ApiErrorResponse::MissingRequiredField { field_name }) => {
            assert_eq!(field_name, "currency");
        }
        other => panic!("expected a missing-currency failure, got {:?}", other),
    }
}

#[test]
fn tracker_loads_are_idempotent_before_any_update() {
    let store = store_with(IntentStatus::RequiresCapture);
    let op = PaymentCancel;
    let pid = PaymentIdType::PaymentIntentId("pay_123".to_string());
    let mid = "m1".to_string();
    let request = cancel_request(Some("dup"));
    let first = op.get_trackers(
        &store,
        &pid,
        &mid,
        &request,
        None,
        MerchantStorageScheme::PostgresOnly,
    );
    let second = op.get_trackers(
        &store,
        &pid,
        &mid,
        &request,
        None,
        MerchantStorageScheme::PostgresOnly,
    );
    assert_eq!(first, second);
}

#[test]
fn validator_emits_intent_id_and_routing_hints() {
    let op = PaymentCancel;
    let v = op
        .validate_request(&cancel_request(None), &merchant())
        .unwrap();
    assert_eq!(v.merchant_id, "m1");
    assert_eq!(
        v.payment_id,
        PaymentIdType::PaymentIntentId("pay_123".to_string())
    );
    assert_eq!(v.mandate_type, None);
    assert_eq!(v.storage_scheme, MerchantStorageScheme::PostgresOnly);
}

#[test]
fn connector_selection_override_wins() {
    let account = merchant();
    assert_eq!(
        get_connector_default(&account, Some(Connector::Sagepay)).unwrap(),
        Connector::Sagepay
    );
    assert_eq!(
        get_connector_default(&account, None).unwrap(),
        Connector::Trustpay
    );
}

#[test]
fn connector_selection_without_any_configuration_is_fatal() {
    let account = MerchantAccount {
        merchant_id: "m1".to_string(),
        storage_scheme: MerchantStorageScheme::RedisKv,
        default_connector: None,
    };
    match get_connector_default(&account, None) {
        Err(ApiErrorResponse::InvalidRequestData { message }) => {
            assert_eq!(message, "no connector is configured for the merchant");
        }
        other => panic!("expected a routing failure, got {:?}", other),
    }
}
