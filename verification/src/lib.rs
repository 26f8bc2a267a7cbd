//! A verified client core for the bunq banking API: the three-stage
//! signed handshake (installation, device registration, session
//! creation), the decoding of the API's irregular response envelope —
//! including its "array of single-key objects" shape — and cursor-based
//! pagination of list endpoints. Network and disk I/O stay outside; the
//! library takes statuses and response texts in and hands requests and
//! typed records back.

pub mod crypto;
pub mod envelope;
pub mod error;
pub mod handshake;
pub mod json;
pub mod records;
pub mod requests;
pub mod resources;
