//! A simulated payment acquirer: invoices, idempotent creation and signed
//! webhook notifications, with the rules of each stated as contracts.
//!
//! - [`status`], [`invoice`], [`clock`], [`ident`]: the data.
//! - [`store`]: the invoice store and the idempotency index.
//! - [`signing`]: webhook signatures.
//! - [`dispatch`]: the deferred task that settles an invoice and prepares
//!   its webhook.
//! - [`acquirer`]: the state and the handlers for creation and lookup.
//! - [`config`]: settings and their defaults.
//! - [`laws`]: what holds over whole runs.
//!
//! The library decides and computes; it neither waits nor talks to the
//! network. A service around it sleeps for a dispatcher's delay, serializes
//! the notification and posts the signed request.

pub mod acquirer;
pub mod clock;
pub mod config;
pub mod dispatch;
pub mod ident;
pub mod invoice;
pub mod laws;
pub mod signing;
pub mod status;
pub mod store;
