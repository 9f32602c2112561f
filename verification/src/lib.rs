//! A verified client core for a paginating article fetcher.
//!
//! The library models the fetch loop of a long-running client that walks a
//! remote article listing page by page, resolves each listed item's full
//! content, and emits one merged record per successfully resolved item. All
//! decision logic — pagination, retry-versus-skip policy, and cooperative
//! cancellation — lives here as a verified state machine; the surrounding
//! process performs the network calls and feeds their outcomes back in.

pub mod articles;
pub mod errors;
pub mod fetcher;
pub mod signal;
