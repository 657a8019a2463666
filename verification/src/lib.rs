//! Core domain types for a limit-order-book trading engine: strongly typed
//! identifiers, fixed-point prices, saturating quantities, timestamps, an
//! order with a fill lifecycle, a per-price aggregation container, and a
//! typed error taxonomy with a severity classifier.

pub mod errors;
pub mod events;
pub mod order;
pub mod price_level;
pub mod types;

pub use errors::{severity, ErrorSeverity, NyquestroError, NyquestroResult};
