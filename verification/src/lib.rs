//! Decoding of the DNS **LOC** resource record (RFC 1876): the sixteen-byte
//! wire payload, the geographic positions it encodes, and their textual form.

pub mod decimal;
pub mod record;
pub mod wire;
