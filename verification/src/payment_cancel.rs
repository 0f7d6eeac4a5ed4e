//! The cancel operation: validate the request, load the trackers, check
//! the cancel precondition, resolve the domain data, and persist the
//! void. The Tracker Updater is the only point that writes, and it runs
//! only after every earlier stage has succeeded; the void flow issues no
//! outbound connector call (both connectors build no request for it), so
//! the early `VoidInitiated` write is safe to retry through a later sync.

use vstd::prelude::*;
use crate::enums::{AttemptStatus, IntentStatus, MerchantStorageScheme};
use crate::errors::{ApiErrorResponse, StorageError};
use crate::payments::{
    get_connector_default, get_customer_from_details, make_pm_data, CustomerDetails, MandateTxnType,
    PaymentAddress, PaymentData, PaymentIdType, PaymentsCancelRequest, ValidateResult,
};
use crate::storage::{
    clone_opt_string, lemma_attempt_index_props, lemma_attempt_row_index_props, Address, Customer,
    MemoryStore, MerchantAccount, PaymentAttempt, PaymentAttemptUpdate, spec_apply_attempt_update,
    spec_attempt_row_index, spec_find_address, spec_find_attempt, spec_find_connector_response,
    spec_find_intent,
};
use crate::types::Void;

verus! {

/// The cancel operation of the pipeline.
#[derive(Clone, Copy, Debug)]
pub struct PaymentCancel;

/// Whether two pipeline errors carry the same code and message.
pub open spec fn api_error_eq(e1: ApiErrorResponse, e2: ApiErrorResponse) -> bool {
    match (e1, e2) {
        (ApiErrorResponse::PaymentNotFound, ApiErrorResponse::PaymentNotFound) => true,
        (
            ApiErrorResponse::InvalidRequestData { message: m1 },
            ApiErrorResponse::InvalidRequestData { message: m2 },
        ) => m1@ == m2@,
        (
            ApiErrorResponse::MissingRequiredField { field_name: f1 },
            ApiErrorResponse::MissingRequiredField { field_name: f2 },
        ) => f1@ == f2@,
        _ => false,
    }
}

/// Exactly what the Tracker Loader returns for a cancel, for every store
/// and request: which lookups must succeed, in which order the failures
/// are reported, and what the assembled working bundle holds.
pub open spec fn get_trackers_post(
    store: MemoryStore,
    payment_id: PaymentIdType,
    merchant_id: Seq<char>,
    request: PaymentsCancelRequest,
    r: Result<(PaymentData<Void>, Option<CustomerDetails>), ApiErrorResponse>,
) -> bool {
    if !(payment_id matches PaymentIdType::PaymentIntentId(..)) {
        r matches Err(e) && e == ApiErrorResponse::PaymentNotFound
    } else {
        let pid = payment_id->PaymentIntentId_0@;
        match spec_find_intent(store.payment_intents@, pid, merchant_id) {
            None => r matches Err(e) && e == ApiErrorResponse::PaymentNotFound,
            Some(intent) => match spec_find_attempt(store.payment_attempts@, pid, merchant_id) {
                None => r matches Err(e) && e == ApiErrorResponse::PaymentNotFound,
                Some(attempt) => match spec_find_connector_response(
                    store.connector_responses@,
                    attempt.payment_id@,
                    attempt.merchant_id@,
                    attempt.attempt_id@,
                ) {
                    None => r matches Err(e) && e == ApiErrorResponse::PaymentNotFound,
                    Some(connector_response) => match attempt.currency {
                        None => r matches Err(e)
                            && (e matches ApiErrorResponse::MissingRequiredField { field_name }
                            && field_name@ == "currency"@),
                        Some(currency) => {
                            if intent.status != IntentStatus::RequiresCapture {
                                r matches Err(e)
                                    && (e matches ApiErrorResponse::InvalidRequestData { message }
                                    && message@
                                    == "You cannot cancel the payment that has not been authorized"@)
                            } else {
                                r matches Ok(ok) && {
                                    let (pd, cd) = ok;
                                    &&& pd.flow == Void
                                    &&& pd.payment_intent == intent
                                    &&& pd.payment_attempt == (PaymentAttempt {
                                        cancellation_reason: request.cancellation_reason,
                                        ..attempt
                                    })
                                    &&& pd.currency == currency
                                    &&& pd.amount == attempt.amount
                                    &&& pd.mandate_id is None
                                    &&& pd.setup_mandate is None
                                    &&& pd.token is None
                                    &&& pd.address.shipping == (match intent.shipping_address_id {
                                        Some(aid) => spec_find_address(store.addresses@, aid@),
                                        None => None::<Address>,
                                    })
                                    &&& pd.address.billing == (match intent.billing_address_id {
                                        Some(aid) => spec_find_address(store.addresses@, aid@),
                                        None => None::<Address>,
                                    })
                                    &&& pd.confirm is None
                                    &&& pd.payment_method_data is None
                                    &&& pd.force_sync is None
                                    &&& pd.refunds@.len() == 0
                                    &&& pd.connector_response == connector_response
                                    &&& pd.sessions_token@.len() == 0
                                    &&& pd.card_cvc is None
                                    &&& cd is None
                                }
                            }
                        },
                    },
                },
            },
        }
    }
}

impl PaymentCancel {
    /// The Request Validator of the cancel flow: pure, no storage is
    /// touched. The inbound payment id is taken as an intent-level
    /// identifier and the merchant's storage mode becomes the routing
    /// hint.
    pub fn validate_request(
        &self,
        request: &PaymentsCancelRequest,
        merchant_account: &MerchantAccount,
    ) -> (r: Result<ValidateResult, ApiErrorResponse>)
        ensures
            r matches Ok(v) && v == (ValidateResult {
                merchant_id: merchant_account.merchant_id,
                payment_id: PaymentIdType::PaymentIntentId(request.payment_id),
                mandate_type: None,
                storage_scheme: merchant_account.storage_scheme,
            }),
    {
        Ok(
            ValidateResult {
                merchant_id: merchant_account.merchant_id.clone(),
                payment_id: PaymentIdType::PaymentIntentId(request.payment_id.clone()),
                mandate_type: Option::None,
                storage_scheme: merchant_account.storage_scheme,
            },
        )
    }

    /// The Tracker Loader of the cancel flow: reads intent, attempt,
    /// addresses and the stored connector response, enforces the cancel
    /// precondition, and assembles the working bundle. A failure reports
    /// not-found, a missing currency, or the illegal-state condition, in
    /// that order; the store is never written.
    pub fn get_trackers(
        &self,
        store: &MemoryStore,
        payment_id: &PaymentIdType,
        merchant_id: &String,
        request: &PaymentsCancelRequest,
        _mandate_type: Option<MandateTxnType>,
        storage_scheme: MerchantStorageScheme,
    ) -> (r: Result<(PaymentData<Void>, Option<CustomerDetails>), ApiErrorResponse>)
        ensures
            get_trackers_post(*store, *payment_id, merchant_id@, *request, r),
    {
        let pid = match payment_id.get_payment_intent_id() {
            Ok(p) => p,
            Err(e) => {
                return Err(e);
            },
        };
        let payment_intent = match store.find_payment_intent_by_payment_id_merchant_id(
            &pid,
            merchant_id,
            storage_scheme,
        ) {
            Ok(p) => p,
            Err(_) => {
                return Err(ApiErrorResponse::PaymentNotFound);
            },
        };
        let mut payment_attempt = match store.find_payment_attempt_by_payment_id_merchant_id(
            &pid,
            merchant_id,
            storage_scheme,
        ) {
            Ok(a) => a,
            Err(_) => {
                return Err(ApiErrorResponse::PaymentNotFound);
            },
        };
        let shipping_address = match &payment_intent.shipping_address_id {
            Option::Some(aid) => store.find_address_by_address_id(aid),
            Option::None => Option::None,
        };
        let billing_address = match &payment_intent.billing_address_id {
            Option::Some(aid) => store.find_address_by_address_id(aid),
            Option::None => Option::None,
        };
        let connector_response = match store.find_connector_response_by_payment_id_merchant_id_txn_id(
            &payment_attempt.payment_id,
            &payment_attempt.merchant_id,
            &payment_attempt.attempt_id,
            storage_scheme,
        ) {
            Ok(c) => c,
            Err(_) => {
                return Err(ApiErrorResponse::PaymentNotFound);
            },
        };
        let currency = match payment_attempt.currency {
            Option::Some(c) => c,
            Option::None => {
                return Err(
                    ApiErrorResponse::MissingRequiredField { field_name: "currency".to_owned() },
                );
            },
        };
        let amount = payment_attempt.amount;
        payment_attempt.cancellation_reason = clone_opt_string(&request.cancellation_reason);
        if payment_intent.status != IntentStatus::RequiresCapture {
            return Err(
                ApiErrorResponse::InvalidRequestData {
                    message: "You cannot cancel the payment that has not been authorized"
                        .to_owned(),
                },
            );
        }
        Ok(
            (
                PaymentData {
                    flow: Void,
                    payment_intent,
                    payment_attempt,
                    currency,
                    amount,
                    mandate_id: Option::None,
                    setup_mandate: Option::None,
                    token: Option::None,
                    address: PaymentAddress { shipping: shipping_address, billing: billing_address },
                    confirm: Option::None,
                    payment_method_data: Option::None,
                    force_sync: Option::None,
                    refunds: Vec::new(),
                    connector_response,
                    sessions_token: Vec::new(),
                    card_cvc: Option::None,
                },
                Option::None,
            ),
        )
    }

    /// Resolves the customer named by the intent; the cancel flow takes
    /// no inbound customer details.
    pub fn get_or_create_customer_details(
        &self,
        store: &MemoryStore,
        payment_data: &PaymentData<Void>,
        _request: Option<CustomerDetails>,
        merchant_id: &String,
    ) -> (r: Result<Option<Customer>, StorageError>)
        ensures
            match r {
                Ok(c) => match payment_data.payment_intent.customer_id {
                    Some(cid) => c == crate::storage::spec_find_customer(
                        store.customers@,
                        cid@,
                        merchant_id@,
                    ),
                    None => c is None,
                },
                Err(_) => false,
            },
    {
        get_customer_from_details(
            store,
            clone_opt_string(&payment_data.payment_intent.customer_id),
            merchant_id,
        )
    }

    /// Resolves the payment-method material; the cancel flow passes the
    /// request material through the common resolution.
    pub fn make_pm_data(
        &self,
        payment_method: Option<crate::enums::PaymentMethodType>,
        txn_id: &String,
        payment_attempt: &PaymentAttempt,
        request: &Option<crate::types::PaymentMethod>,
        token: &Option<String>,
        card_cvc: Option<String>,
    ) -> (r: (Option<crate::types::PaymentMethod>, Option<String>))
        ensures
            r.1 == token,
            match request {
                Some(pm) => r.0 is Some,
                None => r.0 is None,
            },
    {
        make_pm_data(payment_method, txn_id, payment_attempt, request, token, card_cvc)
    }

    /// Picks the connector for the attempt through the common routing
    /// rule.
    pub fn get_connector(
        &self,
        merchant_account: &MerchantAccount,
        request_connector: Option<crate::enums::Connector>,
    ) -> (r: Result<crate::enums::Connector, ApiErrorResponse>)
        ensures
            match r {
                Ok(c) => match request_connector {
                    Some(rc) => c == rc,
                    None => merchant_account.default_connector == Some(c),
                },
                Err(e) => {
                    &&& request_connector is None
                    &&& merchant_account.default_connector is None
                    &&& e matches ApiErrorResponse::InvalidRequestData { message }
                    &&& message@ == "no connector is configured for the merchant"@
                },
            },
    {
        get_connector_default(merchant_account, request_connector)
    }

    /// The Tracker Updater of the cancel flow: the sole writer. The
    /// attempt row becomes `VoidInitiated` and the cancellation reason is
    /// persisted verbatim from the working bundle, before any outbound
    /// void call is confirmed; every other row and table is untouched.
    pub fn update_trackers(
        &self,
        store: &mut MemoryStore,
        payment_data: PaymentData<Void>,
        storage_scheme: MerchantStorageScheme,
    ) -> (r: Result<PaymentData<Void>, ApiErrorResponse>)
        ensures
            final(store).payment_intents == old(store).payment_intents,
            final(store).connector_responses == old(store).connector_responses,
            final(store).customers == old(store).customers,
            final(store).addresses == old(store).addresses,
            match r {
                Ok(pd) => {
                    &&& spec_attempt_row_index(
                        old(store).payment_attempts@,
                        payment_data.payment_attempt.payment_id@,
                        payment_data.payment_attempt.merchant_id@,
                        payment_data.payment_attempt.attempt_id@,
                    ) matches Some(k)
                    &&& pd.payment_attempt == spec_apply_attempt_update(
                        payment_data.payment_attempt,
                        PaymentAttemptUpdate::VoidUpdate {
                            status: AttemptStatus::VoidInitiated,
                            cancellation_reason: payment_data.payment_attempt.cancellation_reason,
                        },
                    )
                    &&& final(store).payment_attempts@ == old(store).payment_attempts@.update(
                        k,
                        pd.payment_attempt,
                    )
                    &&& pd == (PaymentData { payment_attempt: pd.payment_attempt, ..payment_data })
                    &&& pd.payment_attempt.status == AttemptStatus::VoidInitiated
                    &&& pd.payment_attempt.cancellation_reason
                        == payment_data.payment_attempt.cancellation_reason
                },
                Err(e) => {
                    &&& e == ApiErrorResponse::PaymentNotFound
                    &&& spec_attempt_row_index(
                        old(store).payment_attempts@,
                        payment_data.payment_attempt.payment_id@,
                        payment_data.payment_attempt.merchant_id@,
                        payment_data.payment_attempt.attempt_id@,
                    ) is None
                    &&& final(store).payment_attempts == old(store).payment_attempts
                },
            },
    {
        let mut payment_data = payment_data;
        let cancellation_reason = clone_opt_string(&payment_data.payment_attempt.cancellation_reason);
        let attempt = payment_data.payment_attempt;
        let updated = match store.update_payment_attempt(
            attempt,
            PaymentAttemptUpdate::VoidUpdate {
                status: AttemptStatus::VoidInitiated,
                cancellation_reason,
            },
            storage_scheme,
        ) {
            Ok(a) => a,
            Err(_) => {
                return Err(ApiErrorResponse::PaymentNotFound);
            },
        };
        payment_data.payment_attempt = updated;
        Ok(payment_data)
    }
}

/// The whole cancel pipeline on one store: validate, load, resolve,
/// decide the (absent) connector call, and persist the void. On any
/// failure the store is exactly as the loader found it; on success the
/// attempt row alone has changed, to `VoidInitiated` with the request's
/// reason.
pub fn payments_cancel_core(
    store: &mut MemoryStore,
    merchant_account: &MerchantAccount,
    request: &PaymentsCancelRequest,
) -> (r: Result<PaymentData<Void>, ApiErrorResponse>)
    ensures
        final(store).payment_intents == old(store).payment_intents,
        final(store).connector_responses == old(store).connector_responses,
        final(store).customers == old(store).customers,
        final(store).addresses == old(store).addresses,
        match r {
            Ok(pd) => {
                &&& spec_find_intent(
                    old(store).payment_intents@,
                    request.payment_id@,
                    merchant_account.merchant_id@,
                ) matches Some(intent)
                &&& intent.status == IntentStatus::RequiresCapture
                &&& pd.payment_attempt.status == AttemptStatus::VoidInitiated
                &&& pd.payment_attempt.cancellation_reason == request.cancellation_reason
                &&& spec_attempt_row_index(
                    old(store).payment_attempts@,
                    pd.payment_attempt.payment_id@,
                    pd.payment_attempt.merchant_id@,
                    pd.payment_attempt.attempt_id@,
                ) matches Some(k)
                &&& final(store).payment_attempts@ == old(store).payment_attempts@.update(
                    k,
                    pd.payment_attempt,
                )
            },
            Err(e) => {
                &&& *final(store) == *old(store)
                &&& {
                    ||| get_trackers_post(
                        *old(store),
                        PaymentIdType::PaymentIntentId(request.payment_id),
                        merchant_account.merchant_id@,
                        *request,
                        Err(e),
                    )
                    ||| {
                        &&& merchant_account.default_connector is None
                        &&& e matches ApiErrorResponse::InvalidRequestData { message }
                        &&& message@ == "no connector is configured for the merchant"@
                    }
                }
            },
        },
{
    let op = PaymentCancel;
    let validate = match op.validate_request(request, merchant_account) {
        Ok(v) => v,
        Err(e) => {
            return Err(e);
        },
    };
    let loaded = match op.get_trackers(
        store,
        &validate.payment_id,
        &validate.merchant_id,
        request,
        Option::None,
        validate.storage_scheme,
    ) {
        Ok(x) => x,
        Err(e) => {
            return Err(e);
        },
    };
    let (payment_data, _customer_details) = loaded;
    let mut payment_data = payment_data;
    let _customer = match op.get_or_create_customer_details(
        store,
        &payment_data,
        Option::None,
        &validate.merchant_id,
    ) {
        Ok(c) => c,
        Err(_) => {
            return Err(ApiErrorResponse::PaymentNotFound);
        },
    };
    let resolved = op.make_pm_data(
        payment_data.payment_attempt.payment_method,
        &payment_data.payment_attempt.attempt_id,
        &payment_data.payment_attempt,
        &payment_data.payment_method_data,
        &payment_data.token,
        clone_opt_string(&payment_data.card_cvc),
    );
    payment_data.payment_method_data = resolved.0;
    payment_data.token = resolved.1;
    let _connector = match op.get_connector(merchant_account, Option::None) {
        Ok(c) => c,
        Err(e) => {
            return Err(e);
        },
    };
    // The call orchestrator: the void flow of every connector here builds
    // no transport request, so the connector interaction is already
    // resolved and the updater may run.
    proof {
        let pid = request.payment_id@;
        let mid = merchant_account.merchant_id@;
        lemma_attempt_index_props(old(store).payment_attempts@, pid, mid);
        lemma_attempt_row_index_props(
            store.payment_attempts@,
            payment_data.payment_attempt.payment_id@,
            payment_data.payment_attempt.merchant_id@,
            payment_data.payment_attempt.attempt_id@,
        );
    }
    match op.update_trackers(store, payment_data, validate.storage_scheme) {
        Ok(pd) => Ok(pd),
        Err(_) => Err(ApiErrorResponse::PaymentNotFound),
    }
}

/// Idempotence of the Tracker Loader: before any Updater call, two reads
/// for the same identifier on the same store return identical payment
/// data, and identical failures.
pub proof fn lemma_get_trackers_idempotent(
    store: MemoryStore,
    payment_id: PaymentIdType,
    merchant_id: Seq<char>,
    request: PaymentsCancelRequest,
    r1: Result<(PaymentData<Void>, Option<CustomerDetails>), ApiErrorResponse>,
    r2: Result<(PaymentData<Void>, Option<CustomerDetails>), ApiErrorResponse>,
)
    requires
        get_trackers_post(store, payment_id, merchant_id, request, r1),
        get_trackers_post(store, payment_id, merchant_id, request, r2),
    ensures
        match (r1, r2) {
            (Ok(ok1), Ok(ok2)) => {
                &&& ok1.0.payment_intent == ok2.0.payment_intent
                &&& ok1.0.payment_attempt == ok2.0.payment_attempt
                &&& ok1.0.currency == ok2.0.currency
                &&& ok1.0.amount == ok2.0.amount
                &&& ok1.0.address == ok2.0.address
                &&& ok1.0.connector_response == ok2.0.connector_response
                &&& ok1.0.mandate_id == ok2.0.mandate_id
                &&& ok1.0.setup_mandate == ok2.0.setup_mandate
                &&& ok1.0.token == ok2.0.token
                &&& ok1.0.confirm == ok2.0.confirm
                &&& ok1.0.payment_method_data == ok2.0.payment_method_data
                &&& ok1.0.force_sync == ok2.0.force_sync
                &&& ok1.0.card_cvc == ok2.0.card_cvc
                &&& ok1.0.refunds@ == ok2.0.refunds@
                &&& ok1.0.sessions_token@ == ok2.0.sessions_token@
                &&& ok1.1 == ok2.1
            },
            (Err(e1), Err(e2)) => api_error_eq(e1, e2),
            _ => false,
        },
{
    if r1 is Ok && r2 is Ok {
        let pd1 = r1->Ok_0.0;
        let pd2 = r2->Ok_0.0;
        assert(pd1.refunds@ =~= pd2.refunds@);
        assert(pd1.sessions_token@ =~= pd2.sessions_token@);
        assert(pd1.address == pd2.address) by {
            assert(pd1.address.shipping == pd2.address.shipping);
            assert(pd1.address.billing == pd2.address.billing);
        }
    }
}

} // verus!
