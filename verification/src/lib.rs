//! Management of server baseboard controllers over IPMI 2.0 (RMCP+) and Redfish.
//!
//! The library holds the protocol logic: packet layouts, session key
//! derivation, integrity and confidentiality framing, response decoding,
//! the connection and power-control decisions, and the reading of Redfish
//! JSON documents. Sockets, HTTP, the keychain and the user interface live
//! in the application around it.

pub mod bytes;
pub mod crypto;
pub mod ipmi;
pub mod text;
pub mod json;
pub mod redfish;
pub mod keychain;
pub mod commands;
