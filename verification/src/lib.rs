//! A client for the CryptoDiggers payment gateway API (version 1).
//!
//! The library holds the verified logic: the typed request data, the URL of
//! each API call, and how each answer of the server is read.
//!
//! In order to use this crate, you instantiate `CDPayBuilder`, which is then
//! used to create payment requests.

pub mod api;
pub mod body;
pub mod currency;
pub mod query;
pub mod request;
pub mod response;
pub mod text;
pub mod urlenc;
pub mod wait;

pub use api::CDPayBuilder;
pub use body::{initial_body_capacity, strip_debug_dump};
pub use currency::{CryptoCurrency, FiatCurrency};
pub use request::{OrderID, RequestData, Timeout};
pub use response::{
    check_http_status, should_retry, APIError, InitResponse, PaymentError, PaymentHandle, PaymentInfo,
    PaymentInfoInternal, StatusResponse,
};
pub use wait::{wait_step, WaitStep, STATUS_POLL_INTERVAL_SECS};
