//! A Liquid wallet facade with submarine swaps: the single-session registry,
//! the blocking bridge onto a shared runtime, the swap and payment model,
//! the projection of pending swaps into the payment history, and the error
//! taxonomy with its conversions.

pub mod error;
pub mod history;
pub mod model;
pub mod options;
pub mod runtime;
pub mod session;
pub mod swap;
