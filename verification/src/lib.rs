//! Client-side core of a SwitchBot-style smart-device REST API client.
//!
//! The library covers everything about a request that can be computed
//! without touching the network: rendering the signing payload, computing
//! the HMAC-based request signature, building the target URI, selecting
//! the HTTP method, assembling the header list, and serialising the
//! control-command body. The surrounding binary supplies the credentials,
//! the timestamp and the nonce, and performs the actual HTTP exchange.
pub mod decimal;
pub mod json;
pub mod request;
pub mod signer;
