//! What the operations of the library do, stated of their inputs and results.
pub mod endpoint;
pub mod error;
pub mod exchange;
pub mod info;
pub mod login;
pub mod methods;
pub mod proxy;
pub mod routing;
pub mod text;
pub mod token;
pub mod views;
