//! A Windows Runtime (WinRT) model for bare-metal environments.
//!
//! Activation factories and object handles, HSTRINGs and GUIDs, a
//! `.winmd`-style metadata catalogue, type projections of common
//! `Windows.*` classes, and the `IAsyncOperation` / `IAsyncAction`
//! state machines, each with a contract checked by Verus.

pub mod text;
pub mod activation;
pub mod metadata;
pub mod async_ops;
pub mod projections;
pub mod driver;
