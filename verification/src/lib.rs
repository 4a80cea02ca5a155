//! A typed client surface for the IEX quote and reference-data service.
//!
//! The crate turns a typed description of a request into the URL that asks
//! for it, and turns the service's JSON replies, with their string-encoded
//! numbers and single-letter flags, into typed records. It fetches nothing
//! itself: the caller performs the request that the client names and hands
//! the reply back.
//!
//! Every function is verified against a contract stated over the views of
//! its arguments. Two things are taken on trust and only named in those
//! contracts: what `serde_json` makes of a body, and what `chrono` makes of
//! the text of a date.

pub mod client;
pub mod coercion;
pub mod date;
pub mod decimal;
pub mod error;
pub mod fields;
pub mod json;
pub mod market_data;
pub mod markets;
pub mod record;
pub mod reference;
pub mod stocks;
pub mod text;
pub mod types;

pub use crate::client::{Client, Reply, Response, IEX_ENDPOINT, IEX_WEBSOCKET_ENDPOINT};
pub use crate::coercion::{from_bool_str, from_str, Numeric};
pub use crate::date::Date;
pub use crate::error::MyError;
pub use crate::json::Json;
pub use crate::market_data::{AuctionData, Auctions};
pub use crate::markets::{Market, Markets};
pub use crate::record::Record;
pub use crate::reference::{
    CommonIssueType, CorporateActions, CorporateActionsData, ReferenceData, SymbolData, Symbols,
};
pub use crate::stocks::{Endpoint, StocksEndpoint};
pub use crate::types::{Duration, ListParam};
