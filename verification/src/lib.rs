//! Typed request builders and response decoders for the records endpoints of
//! the DNSPod API.
//!
//! A request tells the transport where it goes ([`Endpoint::service`],
//! [`Endpoint::action`], [`Endpoint::version`], [`Endpoint::region`]) and what
//! it carries ([`Endpoint::payload`]). The body that comes back is decoded by
//! [`dns::DomainRecordListResponse::decode`].

pub mod dns;
pub mod endpoint;
pub mod error;
pub mod field;
pub mod json;
pub mod schema;

pub use endpoint::Endpoint;
pub use error::DecodeError;
pub use field::Field;
