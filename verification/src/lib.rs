//! The prelogin negotiation of a GlobalProtect-style VPN client: before any
//! credentials or browser redirect, one request to the portal or gateway
//! endpoint decides which authentication mode the remote requires —
//! browser-delegated single sign-on (SAML) or direct username/password — and
//! extracts the data needed to drive that mode.
//!
//! The library holds the decision logic, verified: the parameter assembler
//! ([`params`]), the classification of the transport outcome and the request
//! URL ([`exchange`]), the response classifier ([`classifier`]), the result
//! and failure model ([`model`]), and the transport encoding of the SAML
//! request payload ([`encoding`]). The HTTP transport itself stays outside;
//! it hands in plain values and takes plain values back.

pub mod classifier;
pub mod encoding;
pub mod exchange;
pub mod model;
pub mod params;
pub mod strutil;
pub mod xml;
