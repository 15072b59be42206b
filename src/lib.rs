//! Historical price bars from a market-data aggregates endpoint: the query
//! model, the request URL and authorization, and the classification of what
//! the server answered.
pub mod decimal;
pub mod fetch;
pub mod query;
pub mod url;

pub use fetch::{check_status, fetch_outcome, transport_failure, FetchError, TransportDetail};
pub use query::{validate, AuthMode, ConfigError, QueryParams, Sort, Timespan};
pub use url::{build_request, build_url, Request};
