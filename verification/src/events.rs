//! Immutable notification records built from already-validated engine
//! state: trade fills, order lifecycle events, and quotes.

pub mod fill_event;
pub mod order_event;
pub mod quote_event;
