//! The connector adapters. Each connector implements the Adapter Protocol
//! once per flow it supports: build headers, build the URL, build the
//! body, compose the transport request, parse a success response, parse
//! an error response, and (for chained processors) run ordered pre-tasks.

pub mod sagepay;
pub mod sagepay_transformers;
pub mod trustpay;
pub mod trustpay_transformers;
