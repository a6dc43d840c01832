//! Verified core of the BlockMesh manager: the bulk statement that stores
//! "set to" aggregate values, the batching state machine that decides when a
//! batch is written, and the browser-extension session state that the
//! extension's storage messages update.

pub mod text;
pub mod ids;
pub mod clock;
pub mod bulk_query;
pub mod aggregator;
pub mod extension;
