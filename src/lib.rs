//! Signed message envelopes for device telemetry, commands and configuration:
//! the domain model, its canonical signing bytes, signing and verification,
//! validation, conversion to and from the wire model, and record framing.

pub mod enums;
pub mod ids;
pub mod strmap;
pub mod types;
pub mod canonical;
pub mod error;
pub mod validate;
pub mod sign;
pub mod record;
pub mod proto;
pub mod convert;
pub mod transport;
pub mod builder;
