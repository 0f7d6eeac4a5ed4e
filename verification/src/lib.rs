//! A payment-orchestration core: a canonical payment request is driven
//! through a typed, flow-scoped lifecycle (validate, load trackers, resolve
//! domain data, orchestrate the connector call, update trackers) and the
//! outbound leg is dispatched to an external payment processor ("connector").
//!
//! Every stage is a verified function over plain values: storage is modelled
//! as an in-memory keyed store, and the transport leg hands raw responses
//! back into verified folding logic, so the lifecycle rules (cancel
//! preconditions, pre-task ordering, single mutation point) carry proofs.

pub mod codec;
pub mod connector;
pub mod enums;
pub mod errors;
pub mod payment_cancel;
pub mod payments;
pub mod settings;
pub mod storage;
pub mod types;
