//! Chainable handlers over a shared mutable context.
//!
//! A handler is entered with exclusive access to the context and decides
//! whether the rest of the chain runs. If it delegates, the rest of the chain
//! is traversed with the same context, and the handler is then left with the
//! output of that traversal, which it may pass on or replace. The context is
//! handed down by one `&mut` borrow at a time, so no two handlers ever hold
//! it together.
//!
//! A [`Chain`] holds the handlers still to run and consumes them from the
//! back: the handler loaded last runs first and wraps all the others. Plain
//! callables become handlers through [`FnHandler`]; any other type can
//! implement [`Handle`] itself and carry its own state.
pub mod adapt;
pub mod chain;
pub mod handle;
pub mod laws;

pub use adapt::FnHandler;
pub use chain::Chain;
pub use handle::{Handle, Step};
