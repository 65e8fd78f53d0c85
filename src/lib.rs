//! Shared error model and typed store keys for the host application's plugins.
//!
//! `error` collapses the failures of every subsystem a plugin talks to into one
//! closed enum whose boundary form is always a single string. `store` holds the
//! typed, scoped keys under which plugins persist their state.
pub mod error;
mod outside;
pub mod store;
