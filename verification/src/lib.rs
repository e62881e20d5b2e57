//! A write-once ledger of payments confirmed against invoices.
//!
//! A trusted backend, the admin, attests that an invoice was paid; the
//! ledger keeps each attestation exactly once and answers anybody who asks
//! whether and how an invoice was paid. It never moves funds, and it never
//! amends or deletes a record.
//!
//! The ledger is a plain value, [`ledger::Ledger`]. What a host supplies
//! around it comes in as values too: the authorizations that accompany a
//! call ([`auth::Authorization`]) and the sink that takes the announcements
//! of recorded payments ([`events::PaymentEvent`]).
//!
//! - [`errors`]: the failures, with their fixed codes.
//! - [`identity`], [`record`]: the data.
//! - [`auth`]: who stands behind a call.
//! - [`admin`]: the admin registry.
//! - [`store`]: the record store.
//! - [`events`]: the announcement of a recorded payment.
//! - [`ledger`]: the operations.
//! - [`model`]: state and operations as mathematics, against which the
//!   operations are specified.
//! - [`laws`]: what holds of the ledger over its whole lifetime.

pub mod errors;
pub mod identity;
pub mod record;
pub mod auth;
pub mod admin;
pub mod store;
pub mod events;
pub mod ledger;
pub mod model;
pub mod laws;
