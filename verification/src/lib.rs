//! Verified decisions of an MCP gateway: the OAuth round trip that it stands in, what it tells
//! clients of errors and limits, and what it knows of their requests.

// Plain building blocks.
pub mod clock;
pub mod form;
pub mod json;
pub mod response;
pub mod text;
pub mod weburl;

// The OAuth round trip.
pub mod endpoint;
pub mod exchange;
pub mod login;
pub mod oauth;
pub mod roundtrip;
pub mod seal;
pub mod token;

// MCP requests and their errors.
pub mod error;
pub mod info;
pub mod jsonrpc;
pub mod methods;
pub mod proxy;
pub mod routing;

// What holds of all of it.
pub mod laws;
