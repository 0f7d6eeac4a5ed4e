//! Enumerated lifecycle states and request-level enumerations shared by the
//! whole pipeline: intent/attempt statuses, refund statuses, currencies,
//! storage consistency modes and connector names.

use vstd::prelude::*;

verus! {

/// Lifecycle state of a `PaymentIntent`. A cancel is legal only in
/// `RequiresCapture`.
#[derive(Clone, Copy, Debug, PartialEq, Eq, Structural)]
pub enum IntentStatus {
    RequiresPaymentMethod,
    RequiresConfirmation,
    RequiresCapture,
    Processing,
    Charged,
    Failed,
    Cancelled,
}

/// Lifecycle state of a `PaymentAttempt`.
#[derive(Clone, Copy, Debug, PartialEq, Eq, Structural)]
pub enum AttemptStatus {
    Started,
    Authorizing,
    AuthorizationFailed,
    Charged,
    Pending,
    Failure,
    VoidInitiated,
    Voided,
}

/// Refund lifecycle state.
#[derive(Clone, Copy, Debug, PartialEq, Eq, Structural)]
pub enum RefundStatus {
    Success,
    Failure,
    Pending,
}

/// Currency of an amount. The set is the one the connectors at hand accept.
#[derive(Clone, Copy, Debug, PartialEq, Eq, Structural)]
pub enum Currency {
    USD,
    EUR,
    GBP,
    CZK,
}

impl Currency {
    /// Wire name of the currency, as the connectors expect it.
    pub fn code(&self) -> (r: &'static str)
        ensures
            r@ == self.spec_code(),
    {
        match self {
            Currency::USD => "USD",
            Currency::EUR => "EUR",
            Currency::GBP => "GBP",
            Currency::CZK => "CZK",
        }
    }

    /// What `code` returns.
    pub open spec fn spec_code(&self) -> Seq<char> {
        match self {
            Currency::USD => "USD"@,
            Currency::EUR => "EUR"@,
            Currency::GBP => "GBP"@,
            Currency::CZK => "CZK"@,
        }
    }
}

/// Storage consistency mode selected by the merchant account; threaded
/// through every stage and handed to the store on each read and write.
#[derive(Clone, Copy, Debug, PartialEq, Eq, Structural)]
pub enum MerchantStorageScheme {
    PostgresOnly,
    RedisKv,
}

/// Payment method kind recorded on an attempt.
#[derive(Clone, Copy, Debug, PartialEq, Eq, Structural)]
pub enum PaymentMethodType {
    Card,
    Paypal,
    ApplePay,
}

/// The connectors this core can route an attempt to.
#[derive(Clone, Copy, Debug, PartialEq, Eq, Structural)]
pub enum Connector {
    Sagepay,
    Trustpay,
}

} // verus!
