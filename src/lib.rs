//! Client library for the CryptoMarket exchange REST API.
//!
//! The verified core builds canonical request signatures, request URLs and
//! authentication headers, classifies transport replies into a closed error
//! taxonomy, and decodes JSON response envelopes into typed values. Requests
//! go through an [`HttpReq`] client supplied by the caller.

pub mod api;
pub mod client;
pub mod dispatcher;
pub mod errors;
pub mod json;
pub mod market;
pub mod models;
pub mod params;
pub mod request;
pub mod response;
pub mod signature;
pub mod text;

pub use crate::api::{CryptoMktApi, RequestMethod};
pub use crate::client::CryptoMktClient;
pub use crate::dispatcher::Api;
pub use crate::errors::{CryptoMktErrorType, CryptoMktResult};
pub use crate::json::JsonValue;
pub use crate::market::{Market, OrderState, OrderType};
pub use crate::params::Params;
pub use crate::request::{CryptoMktRequest, HttpReply, HttpReq};
