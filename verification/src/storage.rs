//! The durable records and the keyed store they live in. The store is the
//! pipeline's model of the persistence layer: every lookup and update is a
//! verified function, lookups never mutate, and the single update
//! operation states exactly which row changes and how.

use vstd::prelude::*;
use crate::enums::{AttemptStatus, Currency, IntentStatus, MerchantStorageScheme, PaymentMethodType};
use crate::errors::StorageError;

verus! {

/// Clones an optional text, preserving the value.
pub fn clone_opt_string(o: &Option<String>) -> (r: Option<String>)
    ensures
        r == o,
{
    match o {
        Option::Some(s) => Option::Some(s.clone()),
        Option::None => Option::None,
    }
}

/// The merchant-scoped payment-level record.
#[derive(Debug, PartialEq, Eq)]
pub struct PaymentIntent {
    pub payment_id: String,
    pub merchant_id: String,
    pub status: IntentStatus,
    pub amount: i64,
    pub currency: Option<Currency>,
    pub customer_id: Option<String>,
    pub shipping_address_id: Option<String>,
    pub billing_address_id: Option<String>,
}

impl Clone for PaymentIntent {
    fn clone(&self) -> (r: Self)
        ensures
            r == self,
    {
        PaymentIntent {
            payment_id: self.payment_id.clone(),
            merchant_id: self.merchant_id.clone(),
            status: self.status,
            amount: self.amount,
            currency: self.currency,
            customer_id: clone_opt_string(&self.customer_id),
            shipping_address_id: clone_opt_string(&self.shipping_address_id),
            billing_address_id: clone_opt_string(&self.billing_address_id),
        }
    }
}

/// One processing attempt belonging to exactly one intent.
#[derive(Debug, PartialEq, Eq)]
pub struct PaymentAttempt {
    pub payment_id: String,
    pub merchant_id: String,
    pub attempt_id: String,
    pub status: AttemptStatus,
    pub amount: i64,
    pub currency: Option<Currency>,
    pub connector: Option<String>,
    pub cancellation_reason: Option<String>,
    pub payment_method: Option<PaymentMethodType>,
}

impl Clone for PaymentAttempt {
    fn clone(&self) -> (r: Self)
        ensures
            r == self,
    {
        PaymentAttempt {
            payment_id: self.payment_id.clone(),
            merchant_id: self.merchant_id.clone(),
            attempt_id: self.attempt_id.clone(),
            status: self.status,
            amount: self.amount,
            currency: self.currency,
            connector: clone_opt_string(&self.connector),
            cancellation_reason: clone_opt_string(&self.cancellation_reason),
            payment_method: self.payment_method,
        }
    }
}

/// Durable record of the raw outbound interaction for one attempt.
#[derive(Debug, PartialEq, Eq)]
pub struct ConnectorResponse {
    pub payment_id: String,
    pub merchant_id: String,
    pub attempt_id: String,
    pub connector_transaction_id: Option<String>,
}

impl Clone for ConnectorResponse {
    fn clone(&self) -> (r: Self)
        ensures
            r == self,
    {
        ConnectorResponse {
            payment_id: self.payment_id.clone(),
            merchant_id: self.merchant_id.clone(),
            attempt_id: self.attempt_id.clone(),
            connector_transaction_id: clone_opt_string(&self.connector_transaction_id),
        }
    }
}

/// A customer record.
#[derive(Debug, PartialEq, Eq)]
pub struct Customer {
    pub customer_id: String,
    pub merchant_id: String,
    pub name: Option<String>,
    pub email: Option<String>,
}

impl Clone for Customer {
    fn clone(&self) -> (r: Self)
        ensures
            r == self,
    {
        Customer {
            customer_id: self.customer_id.clone(),
            merchant_id: self.merchant_id.clone(),
            name: clone_opt_string(&self.name),
            email: clone_opt_string(&self.email),
        }
    }
}

/// A stored address, referenced by intents.
#[derive(Debug, PartialEq, Eq)]
pub struct Address {
    pub address_id: String,
    pub city: Option<String>,
    pub country: Option<String>,
    pub line1: Option<String>,
    pub zip: Option<String>,
}

impl Clone for Address {
    fn clone(&self) -> (r: Self)
        ensures
            r == self,
    {
        Address {
            address_id: self.address_id.clone(),
            city: clone_opt_string(&self.city),
            country: clone_opt_string(&self.country),
            line1: clone_opt_string(&self.line1),
            zip: clone_opt_string(&self.zip),
        }
    }
}

/// The merchant configuration every request resolves against.
#[derive(Debug, PartialEq, Eq)]
pub struct MerchantAccount {
    pub merchant_id: String,
    pub storage_scheme: MerchantStorageScheme,
    pub default_connector: Option<crate::enums::Connector>,
}

impl Clone for MerchantAccount {
    fn clone(&self) -> (r: Self)
        ensures
            r == self,
    {
        MerchantAccount {
            merchant_id: self.merchant_id.clone(),
            storage_scheme: self.storage_scheme,
            default_connector: self.default_connector,
        }
    }
}

/// A typed delta for a `PaymentAttempt` row.
#[derive(Debug, PartialEq, Eq)]
pub enum PaymentAttemptUpdate {
    VoidUpdate { status: AttemptStatus, cancellation_reason: Option<String> },
}

/// The record an update leaves in the row.
pub open spec fn spec_apply_attempt_update(a: PaymentAttempt, u: PaymentAttemptUpdate) -> PaymentAttempt {
    match u {
        PaymentAttemptUpdate::VoidUpdate { status, cancellation_reason } => PaymentAttempt {
            status,
            cancellation_reason,
            ..a
        },
    }
}

/// First index of the intent keyed by (payment id, merchant id).
pub open spec fn spec_intent_index(s: Seq<PaymentIntent>, pid: Seq<char>, mid: Seq<char>) -> Option<int>
    decreases s.len(),
{
    if s.len() == 0 {
        None
    } else if s[0].payment_id@ == pid && s[0].merchant_id@ == mid {
        Some(0)
    } else {
        match spec_intent_index(s.drop_first(), pid, mid) {
            Some(i) => Some(i + 1),
            None => None,
        }
    }
}

/// The intent keyed by (payment id, merchant id), if any.
pub open spec fn spec_find_intent(s: Seq<PaymentIntent>, pid: Seq<char>, mid: Seq<char>) -> Option<PaymentIntent> {
    match spec_intent_index(s, pid, mid) {
        Some(i) => Some(s[i]),
        None => None,
    }
}

/// First index of the attempt keyed by (payment id, merchant id).
pub open spec fn spec_attempt_index(s: Seq<PaymentAttempt>, pid: Seq<char>, mid: Seq<char>) -> Option<int>
    decreases s.len(),
{
    if s.len() == 0 {
        None
    } else if s[0].payment_id@ == pid && s[0].merchant_id@ == mid {
        Some(0)
    } else {
        match spec_attempt_index(s.drop_first(), pid, mid) {
            Some(i) => Some(i + 1),
            None => None,
        }
    }
}

/// The attempt keyed by (payment id, merchant id), if any.
pub open spec fn spec_find_attempt(s: Seq<PaymentAttempt>, pid: Seq<char>, mid: Seq<char>) -> Option<PaymentAttempt> {
    match spec_attempt_index(s, pid, mid) {
        Some(i) => Some(s[i]),
        None => None,
    }
}

/// First index of the connector response keyed by (payment id, merchant
/// id, attempt id).
pub open spec fn spec_connector_response_index(
    s: Seq<ConnectorResponse>,
    pid: Seq<char>,
    mid: Seq<char>,
    aid: Seq<char>,
) -> Option<int>
    decreases s.len(),
{
    if s.len() == 0 {
        None
    } else if s[0].payment_id@ == pid && s[0].merchant_id@ == mid && s[0].attempt_id@ == aid {
        Some(0)
    } else {
        match spec_connector_response_index(s.drop_first(), pid, mid, aid) {
            Some(i) => Some(i + 1),
            None => None,
        }
    }
}

/// The connector response keyed by (payment id, merchant id, attempt id),
/// if any.
pub open spec fn spec_find_connector_response(
    s: Seq<ConnectorResponse>,
    pid: Seq<char>,
    mid: Seq<char>,
    aid: Seq<char>,
) -> Option<ConnectorResponse> {
    match spec_connector_response_index(s, pid, mid, aid) {
        Some(i) => Some(s[i]),
        None => None,
    }
}

/// First index of the customer keyed by (customer id, merchant id).
pub open spec fn spec_customer_index(s: Seq<Customer>, cid: Seq<char>, mid: Seq<char>) -> Option<int>
    decreases s.len(),
{
    if s.len() == 0 {
        None
    } else if s[0].customer_id@ == cid && s[0].merchant_id@ == mid {
        Some(0)
    } else {
        match spec_customer_index(s.drop_first(), cid, mid) {
            Some(i) => Some(i + 1),
            None => None,
        }
    }
}

/// The customer keyed by (customer id, merchant id), if any.
pub open spec fn spec_find_customer(s: Seq<Customer>, cid: Seq<char>, mid: Seq<char>) -> Option<Customer> {
    match spec_customer_index(s, cid, mid) {
        Some(i) => Some(s[i]),
        None => None,
    }
}

/// First index of the address keyed by address id.
pub open spec fn spec_address_index(s: Seq<Address>, aid: Seq<char>) -> Option<int>
    decreases s.len(),
{
    if s.len() == 0 {
        None
    } else if s[0].address_id@ == aid {
        Some(0)
    } else {
        match spec_address_index(s.drop_first(), aid) {
            Some(i) => Some(i + 1),
            None => None,
        }
    }
}

/// The address keyed by address id, if any.
pub open spec fn spec_find_address(s: Seq<Address>, aid: Seq<char>) -> Option<Address> {
    match spec_address_index(s, aid) {
        Some(i) => Some(s[i]),
        None => None,
    }
}

/// The keyed store the pipeline reads and, at exactly one checkpoint,
/// writes.
pub struct MemoryStore {
    pub payment_intents: Vec<PaymentIntent>,
    pub payment_attempts: Vec<PaymentAttempt>,
    pub connector_responses: Vec<ConnectorResponse>,
    pub customers: Vec<Customer>,
    pub addresses: Vec<Address>,
}

impl MemoryStore {
    /// An empty store.
    pub fn new() -> (r: MemoryStore)
        ensures
            r.payment_intents@.len() == 0,
            r.payment_attempts@.len() == 0,
            r.connector_responses@.len() == 0,
            r.customers@.len() == 0,
            r.addresses@.len() == 0,
    {
        MemoryStore {
            payment_intents: Vec::new(),
            payment_attempts: Vec::new(),
            connector_responses: Vec::new(),
            customers: Vec::new(),
            addresses: Vec::new(),
        }
    }

    /// Keyed lookup of a payment intent; not-found maps to a storage
    /// condition, and the store is never changed.
    pub fn find_payment_intent_by_payment_id_merchant_id(
        &self,
        payment_id: &String,
        merchant_id: &String,
        _storage_scheme: MerchantStorageScheme,
    ) -> (r: Result<PaymentIntent, StorageError>)
        ensures
            match r {
                Ok(p) => spec_find_intent(self.payment_intents@, payment_id@, merchant_id@)
                    == Some(p),
                Err(e) => spec_find_intent(self.payment_intents@, payment_id@, merchant_id@)
                    is None && e == StorageError::ValueNotFound,
            },
    {
        let n = self.payment_intents.len();
        let mut i: usize = 0;
        while i < n
            invariant
                0 <= i <= n,
                n == self.payment_intents@.len(),
                forall|k: int| 0 <= k < i ==> !(self.payment_intents@[k].payment_id@
                    == payment_id@ && (#[trigger] self.payment_intents@[k]).merchant_id@
                    == merchant_id@),
            decreases n - i,
        {
            let p = &self.payment_intents[i];
            if p.payment_id == *payment_id && p.merchant_id == *merchant_id {
                proof {
                    lemma_intent_index_props(self.payment_intents@, payment_id@, merchant_id@);
                }
                return Ok(p.clone());
            }
            i = i + 1;
        }
        proof {
            lemma_intent_index_props(self.payment_intents@, payment_id@, merchant_id@);
        }
        Err(StorageError::ValueNotFound)
    }

    /// Keyed lookup of a payment attempt.
    pub fn find_payment_attempt_by_payment_id_merchant_id(
        &self,
        payment_id: &String,
        merchant_id: &String,
        _storage_scheme: MerchantStorageScheme,
    ) -> (r: Result<PaymentAttempt, StorageError>)
        ensures
            match r {
                Ok(a) => spec_find_attempt(self.payment_attempts@, payment_id@, merchant_id@)
                    == Some(a),
                Err(e) => spec_find_attempt(self.payment_attempts@, payment_id@, merchant_id@)
                    is None && e == StorageError::ValueNotFound,
            },
    {
        let n = self.payment_attempts.len();
        let mut i: usize = 0;
        while i < n
            invariant
                0 <= i <= n,
                n == self.payment_attempts@.len(),
                forall|k: int| 0 <= k < i ==> !(self.payment_attempts@[k].payment_id@
                    == payment_id@ && (#[trigger] self.payment_attempts@[k]).merchant_id@
                    == merchant_id@),
            decreases n - i,
        {
            let a = &self.payment_attempts[i];
            if a.payment_id == *payment_id && a.merchant_id == *merchant_id {
                proof {
                    lemma_attempt_index_props(self.payment_attempts@, payment_id@, merchant_id@);
                }
                return Ok(a.clone());
            }
            i = i + 1;
        }
        proof {
            lemma_attempt_index_props(self.payment_attempts@, payment_id@, merchant_id@);
        }
        Err(StorageError::ValueNotFound)
    }

    /// Keyed lookup of the stored connector response of one attempt.
    pub fn find_connector_response_by_payment_id_merchant_id_txn_id(
        &self,
        payment_id: &String,
        merchant_id: &String,
        attempt_id: &String,
        _storage_scheme: MerchantStorageScheme,
    ) -> (r: Result<ConnectorResponse, StorageError>)
        ensures
            match r {
                Ok(c) => spec_find_connector_response(
                    self.connector_responses@,
                    payment_id@,
                    merchant_id@,
                    attempt_id@,
                ) == Some(c),
                Err(e) => spec_find_connector_response(
                    self.connector_responses@,
                    payment_id@,
                    merchant_id@,
                    attempt_id@,
                ) is None && e == StorageError::ValueNotFound,
            },
    {
        let n = self.connector_responses.len();
        let mut i: usize = 0;
        while i < n
            invariant
                0 <= i <= n,
                n == self.connector_responses@.len(),
                forall|k: int| 0 <= k < i ==> !(self.connector_responses@[k].payment_id@
                    == payment_id@ && (#[trigger] self.connector_responses@[k]).merchant_id@
                    == merchant_id@ && self.connector_responses@[k].attempt_id@ == attempt_id@),
            decreases n - i,
        {
            let c = &self.connector_responses[i];
            if c.payment_id == *payment_id && c.merchant_id == *merchant_id && c.attempt_id
                == *attempt_id {
                proof {
                    lemma_connector_response_index_props(
                        self.connector_responses@,
                        payment_id@,
                        merchant_id@,
                        attempt_id@,
                    );
                }
                return Ok(c.clone());
            }
            i = i + 1;
        }
        proof {
            lemma_connector_response_index_props(
                self.connector_responses@,
                payment_id@,
                merchant_id@,
                attempt_id@,
            );
        }
        Err(StorageError::ValueNotFound)
    }

    /// Keyed lookup of a customer; absence is not a failure.
    pub fn find_customer_by_customer_id_merchant_id(
        &self,
        customer_id: &String,
        merchant_id: &String,
    ) -> (r: Option<Customer>)
        ensures
            r == spec_find_customer(self.customers@, customer_id@, merchant_id@),
    {
        let n = self.customers.len();
        let mut i: usize = 0;
        while i < n
            invariant
                0 <= i <= n,
                n == self.customers@.len(),
                forall|k: int| 0 <= k < i ==> !(self.customers@[k].customer_id@ == customer_id@
                    && (#[trigger] self.customers@[k]).merchant_id@ == merchant_id@),
            decreases n - i,
        {
            let c = &self.customers[i];
            if c.customer_id == *customer_id && c.merchant_id == *merchant_id {
                proof {
                    lemma_customer_index_props(self.customers@, customer_id@, merchant_id@);
                }
                return Option::Some(c.clone());
            }
            i = i + 1;
        }
        proof {
            lemma_customer_index_props(self.customers@, customer_id@, merchant_id@);
        }
        Option::None
    }

    /// Keyed lookup of an address; absence is not a failure.
    pub fn find_address_by_address_id(&self, address_id: &String) -> (r: Option<Address>)
        ensures
            r == spec_find_address(self.addresses@, address_id@),
    {
        let n = self.addresses.len();
        let mut i: usize = 0;
        while i < n
            invariant
                0 <= i <= n,
                n == self.addresses@.len(),
                forall|k: int| 0 <= k < i ==> (#[trigger] self.addresses@[k]).address_id@
                    != address_id@,
            decreases n - i,
        {
            let a = &self.addresses[i];
            if a.address_id == *address_id {
                proof {
                    lemma_address_index_props(self.addresses@, address_id@);
                }
                return Option::Some(a.clone());
            }
            i = i + 1;
        }
        proof {
            lemma_address_index_props(self.addresses@, address_id@);
        }
        Option::None
    }

    /// The sole write operation the cancel pipeline performs: applies a
    /// typed delta to the attempt row keyed by (payment id, merchant id,
    /// attempt id) and returns the new record. Exactly that row changes;
    /// every other row and every other table is left as it was.
    pub fn update_payment_attempt(
        &mut self,
        this: PaymentAttempt,
        update: PaymentAttemptUpdate,
        _storage_scheme: MerchantStorageScheme,
    ) -> (r: Result<PaymentAttempt, StorageError>)
        ensures
            final(self).payment_intents == old(self).payment_intents,
            final(self).connector_responses == old(self).connector_responses,
            final(self).customers == old(self).customers,
            final(self).addresses == old(self).addresses,
            match r {
                Ok(a) => {
                    &&& spec_attempt_row_index(
                        old(self).payment_attempts@,
                        this.payment_id@,
                        this.merchant_id@,
                        this.attempt_id@,
                    ) matches Some(k)
                    &&& a == spec_apply_attempt_update(this, update)
                    &&& final(self).payment_attempts@ == old(self).payment_attempts@.update(k, a)
                },
                Err(e) => {
                    &&& spec_attempt_row_index(
                        old(self).payment_attempts@,
                        this.payment_id@,
                        this.merchant_id@,
                        this.attempt_id@,
                    ) is None
                    &&& e == StorageError::ValueNotFound
                    &&& final(self).payment_attempts == old(self).payment_attempts
                },
            },
    {
        let n = self.payment_attempts.len();
        let mut i: usize = 0;
        while i < n
            invariant
                0 <= i <= n,
                n == self.payment_attempts@.len(),
                *self == *old(self),
                forall|k: int| 0 <= k < i ==> !(self.payment_attempts@[k].payment_id@
                    == this.payment_id@ && (#[trigger] self.payment_attempts@[k]).merchant_id@
                    == this.merchant_id@ && self.payment_attempts@[k].attempt_id@
                    == this.attempt_id@),
            decreases n - i,
        {
            let row_matches = {
                let a = &self.payment_attempts[i];
                a.payment_id == this.payment_id && a.merchant_id == this.merchant_id
                    && a.attempt_id == this.attempt_id
            };
            if row_matches {
                proof {
                    lemma_attempt_row_index_props(
                        self.payment_attempts@,
                        this.payment_id@,
                        this.merchant_id@,
                        this.attempt_id@,
                    );
                }
                let updated = apply_attempt_update(this, update);
                let result = updated.clone();
                self.payment_attempts.set(i, updated);
                return Ok(result);
            }
            i = i + 1;
        }
        proof {
            lemma_attempt_row_index_props(
                self.payment_attempts@,
                this.payment_id@,
                this.merchant_id@,
                this.attempt_id@,
            );
        }
        Err(StorageError::ValueNotFound)
    }
}

/// Applies a typed delta to an attempt record.
pub fn apply_attempt_update(a: PaymentAttempt, update: PaymentAttemptUpdate) -> (r: PaymentAttempt)
    ensures
        r == spec_apply_attempt_update(a, update),
{
    match update {
        PaymentAttemptUpdate::VoidUpdate { status, cancellation_reason } => PaymentAttempt {
            status,
            cancellation_reason,
            ..a
        },
    }
}

/// First index of the attempt row keyed by (payment id, merchant id,
/// attempt id).
pub open spec fn spec_attempt_row_index(
    s: Seq<PaymentAttempt>,
    pid: Seq<char>,
    mid: Seq<char>,
    aid: Seq<char>,
) -> Option<int>
    decreases s.len(),
{
    if s.len() == 0 {
        None
    } else if s[0].payment_id@ == pid && s[0].merchant_id@ == mid && s[0].attempt_id@ == aid {
        Some(0)
    } else {
        match spec_attempt_row_index(s.drop_first(), pid, mid, aid) {
            Some(i) => Some(i + 1),
            None => None,
        }
    }
}

/// What the keyed intent index yields: the first matching row, or nothing
/// when no row matches.
pub proof fn lemma_intent_index_props(s: Seq<PaymentIntent>, pid: Seq<char>, mid: Seq<char>)
    ensures
        match spec_intent_index(s, pid, mid) {
            Some(k) => 0 <= k < s.len() && s[k].payment_id@ == pid && s[k].merchant_id@ == mid
                && forall|j: int| 0 <= j < k ==> !(s[j].payment_id@ == pid
                && (#[trigger] s[j]).merchant_id@ == mid),
            None => forall|j: int| 0 <= j < s.len() ==> !(s[j].payment_id@ == pid
                && (#[trigger] s[j]).merchant_id@ == mid),
        },
    decreases s.len(),
{
    if s.len() > 0 && !(s[0].payment_id@ == pid && s[0].merchant_id@ == mid) {
        lemma_intent_index_props(s.drop_first(), pid, mid);
        match spec_intent_index(s, pid, mid) {
            Some(k) => {
                assert(s.drop_first()[k - 1] == s[k]);
                assert forall|j: int| 0 <= j < k implies !(s[j].payment_id@ == pid
                    && (#[trigger] s[j]).merchant_id@ == mid) by {
                    if j > 0 {
                        assert(s.drop_first()[j - 1] == s[j]);
                    }
                }
            },
            None => {
                assert forall|j: int| 0 <= j < s.len() implies !(s[j].payment_id@ == pid
                    && (#[trigger] s[j]).merchant_id@ == mid) by {
                    if j > 0 {
                        assert(s.drop_first()[j - 1] == s[j]);
                    }
                }
            },
        }
    }
}

/// What the keyed attempt index yields.
pub proof fn lemma_attempt_index_props(s: Seq<PaymentAttempt>, pid: Seq<char>, mid: Seq<char>)
    ensures
        match spec_attempt_index(s, pid, mid) {
            Some(k) => 0 <= k < s.len() && s[k].payment_id@ == pid && s[k].merchant_id@ == mid
                && forall|j: int| 0 <= j < k ==> !(s[j].payment_id@ == pid
                && (#[trigger] s[j]).merchant_id@ == mid),
            None => forall|j: int| 0 <= j < s.len() ==> !(s[j].payment_id@ == pid
                && (#[trigger] s[j]).merchant_id@ == mid),
        },
    decreases s.len(),
{
    if s.len() > 0 && !(s[0].payment_id@ == pid && s[0].merchant_id@ == mid) {
        lemma_attempt_index_props(s.drop_first(), pid, mid);
        match spec_attempt_index(s, pid, mid) {
            Some(k) => {
                assert(s.drop_first()[k - 1] == s[k]);
                assert forall|j: int| 0 <= j < k implies !(s[j].payment_id@ == pid
                    && (#[trigger] s[j]).merchant_id@ == mid) by {
                    if j > 0 {
                        assert(s.drop_first()[j - 1] == s[j]);
                    }
                }
            },
            None => {
                assert forall|j: int| 0 <= j < s.len() implies !(s[j].payment_id@ == pid
                    && (#[trigger] s[j]).merchant_id@ == mid) by {
                    if j > 0 {
                        assert(s.drop_first()[j - 1] == s[j]);
                    }
                }
            },
        }
    }
}

/// What the keyed attempt-row index yields.
pub proof fn lemma_attempt_row_index_props(
    s: Seq<PaymentAttempt>,
    pid: Seq<char>,
    mid: Seq<char>,
    aid: Seq<char>,
)
    ensures
        match spec_attempt_row_index(s, pid, mid, aid) {
            Some(k) => 0 <= k < s.len() && s[k].payment_id@ == pid && s[k].merchant_id@ == mid
                && s[k].attempt_id@ == aid && forall|j: int| 0 <= j < k ==> !(s[j].payment_id@
                == pid && (#[trigger] s[j]).merchant_id@ == mid && s[j].attempt_id@ == aid),
            None => forall|j: int| 0 <= j < s.len() ==> !(s[j].payment_id@ == pid
                && (#[trigger] s[j]).merchant_id@ == mid && s[j].attempt_id@ == aid),
        },
    decreases s.len(),
{
    if s.len() > 0 && !(s[0].payment_id@ == pid && s[0].merchant_id@ == mid && s[0].attempt_id@
        == aid) {
        lemma_attempt_row_index_props(s.drop_first(), pid, mid, aid);
        match spec_attempt_row_index(s, pid, mid, aid) {
            Some(k) => {
                assert(s.drop_first()[k - 1] == s[k]);
                assert forall|j: int| 0 <= j < k implies !(s[j].payment_id@ == pid
                    && (#[trigger] s[j]).merchant_id@ == mid && s[j].attempt_id@ == aid) by {
                    if j > 0 {
                        assert(s.drop_first()[j - 1] == s[j]);
                    }
                }
            },
            None => {
                assert forall|j: int| 0 <= j < s.len() implies !(s[j].payment_id@ == pid
                    && (#[trigger] s[j]).merchant_id@ == mid && s[j].attempt_id@ == aid) by {
                    if j > 0 {
                        assert(s.drop_first()[j - 1] == s[j]);
                    }
                }
            },
        }
    }
}

/// What the keyed connector-response index yields.
pub proof fn lemma_connector_response_index_props(
    s: Seq<ConnectorResponse>,
    pid: Seq<char>,
    mid: Seq<char>,
    aid: Seq<char>,
)
    ensures
        match spec_connector_response_index(s, pid, mid, aid) {
            Some(k) => 0 <= k < s.len() && s[k].payment_id@ == pid && s[k].merchant_id@ == mid
                && s[k].attempt_id@ == aid && forall|j: int| 0 <= j < k ==> !(s[j].payment_id@
                == pid && (#[trigger] s[j]).merchant_id@ == mid && s[j].attempt_id@ == aid),
            None => forall|j: int| 0 <= j < s.len() ==> !(s[j].payment_id@ == pid
                && (#[trigger] s[j]).merchant_id@ == mid && s[j].attempt_id@ == aid),
        },
    decreases s.len(),
{
    if s.len() > 0 && !(s[0].payment_id@ == pid && s[0].merchant_id@ == mid && s[0].attempt_id@
        == aid) {
        lemma_connector_response_index_props(s.drop_first(), pid, mid, aid);
        match spec_connector_response_index(s, pid, mid, aid) {
            Some(k) => {
                assert(s.drop_first()[k - 1] == s[k]);
                assert forall|j: int| 0 <= j < k implies !(s[j].payment_id@ == pid
                    && (#[trigger] s[j]).merchant_id@ == mid && s[j].attempt_id@ == aid) by {
                    if j > 0 {
                        assert(s.drop_first()[j - 1] == s[j]);
                    }
                }
            },
            None => {
                assert forall|j: int| 0 <= j < s.len() implies !(s[j].payment_id@ == pid
                    && (#[trigger] s[j]).merchant_id@ == mid && s[j].attempt_id@ == aid) by {
                    if j > 0 {
                        assert(s.drop_first()[j - 1] == s[j]);
                    }
                }
            },
        }
    }
}

/// What the keyed customer index yields.
pub proof fn lemma_customer_index_props(s: Seq<Customer>, cid: Seq<char>, mid: Seq<char>)
    ensures
        match spec_customer_index(s, cid, mid) {
            Some(k) => 0 <= k < s.len() && s[k].customer_id@ == cid && s[k].merchant_id@ == mid
                && forall|j: int| 0 <= j < k ==> !(s[j].customer_id@ == cid
                && (#[trigger] s[j]).merchant_id@ == mid),
            None => forall|j: int| 0 <= j < s.len() ==> !(s[j].customer_id@ == cid
                && (#[trigger] s[j]).merchant_id@ == mid),
        },
    decreases s.len(),
{
    if s.len() > 0 && !(s[0].customer_id@ == cid && s[0].merchant_id@ == mid) {
        lemma_customer_index_props(s.drop_first(), cid, mid);
        match spec_customer_index(s, cid, mid) {
            Some(k) => {
                assert(s.drop_first()[k - 1] == s[k]);
                assert forall|j: int| 0 <= j < k implies !(s[j].customer_id@ == cid
                    && (#[trigger] s[j]).merchant_id@ == mid) by {
                    if j > 0 {
                        assert(s.drop_first()[j - 1] == s[j]);
                    }
                }
            },
            None => {
                assert forall|j: int| 0 <= j < s.len() implies !(s[j].customer_id@ == cid
                    && (#[trigger] s[j]).merchant_id@ == mid) by {
                    if j > 0 {
                        assert(s.drop_first()[j - 1] == s[j]);
                    }
                }
            },
        }
    }
}

/// What the keyed address index yields.
pub proof fn lemma_address_index_props(s: Seq<Address>, aid: Seq<char>)
    ensures
        match spec_address_index(s, aid) {
            Some(k) => 0 <= k < s.len() && s[k].address_id@ == aid && forall|j: int| 0 <= j < k
                ==> (#[trigger] s[j]).address_id@ != aid,
            None => forall|j: int| 0 <= j < s.len() ==> (#[trigger] s[j]).address_id@ != aid,
        },
    decreases s.len(),
{
    if s.len() > 0 && s[0].address_id@ != aid {
        lemma_address_index_props(s.drop_first(), aid);
        match spec_address_index(s, aid) {
            Some(k) => {
                assert(s.drop_first()[k - 1] == s[k]);
                assert forall|j: int| 0 <= j < k implies (#[trigger] s[j]).address_id@ != aid by {
                    if j > 0 {
                        assert(s.drop_first()[j - 1] == s[j]);
                    }
                }
            },
            None => {
                assert forall|j: int| 0 <= j < s.len() implies (#[trigger] s[j]).address_id@
                    != aid by {
                    if j > 0 {
                        assert(s.drop_first()[j - 1] == s[j]);
                    }
                }
            },
        }
    }
}

} // verus!
