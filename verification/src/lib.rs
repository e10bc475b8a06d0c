//! Authentication credentials for payment connectors.
//!
//! A configuration document names each connector and gives it a table of
//! credential fields. This library infers, from which of the four recognised
//! fields a table holds, the shape of the connector's credentials, and turns
//! typed records of redacted secrets into the same uniform value.

pub mod auth;
pub mod document;
pub mod loader;
pub mod records;
pub mod schema;
pub mod secret;
