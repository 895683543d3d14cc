//! Transaction model of a layer-2 rollup processor: typed transaction
//! variants, the fixed-layout pubdata codec shared with an external proving
//! circuit, and the field-element digest composition used to produce signable
//! transaction messages.

pub mod bytes;
pub mod field;
pub mod amount;
pub mod types;
pub mod codec;
pub mod digest;
pub mod config;
pub mod msg;
