//! Process-wide connector configuration: base URLs per connector, passed
//! as an explicit immutable value through every stage rather than held as
//! ambient global state.

use vstd::prelude::*;

verus! {

/// Endpoint configuration of one connector.
#[derive(Clone, Debug, PartialEq, Eq)]
pub struct ConnectorParams {
    pub base_url: String,
}

/// The full connector configuration handed to the adapter methods.
#[derive(Clone, Debug, PartialEq, Eq)]
pub struct Connectors {
    pub sagepay: ConnectorParams,
    pub trustpay: ConnectorParams,
}

} // verus!
