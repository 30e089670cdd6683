//! Core of a minimal browser-hosted module.
//!
//! A loaded module instance and its host can only exchange fixed-width
//! scalars and addresses into the module's linear memory.  This crate
//! verifies the one real contract such a template has: the boundary
//! convention that turns a variable-length text value into an
//! address/length pair for a host-provided sink, together with the
//! lifecycle of the module's state singleton and the failure hook that
//! routes fault diagnostics to the error sink.
//!
//! The host side (the sinks and the linear memory it shares) is modelled
//! explicitly, so that every delivery a call makes is pinned down in its
//! contract.  The thin adapter that binds the model to a real host lives
//! outside this crate.

pub mod boundary;
pub mod runtime;
pub mod state;
