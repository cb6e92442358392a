//! A credential-issuance registry.
//!
//! Providers register under a unique name, appoint validators, and issue
//! identity records that bind an external identifier to an owning account.
//! A link record per (provider, identifier) pair keeps an identifier from
//! being bound twice; closing the link revokes the identity.
//!
//! Every operation is a function from the accounts presented with a request
//! to their next state and to the payments and closures that the host has to
//! carry out. An operation that is rejected changes nothing.

pub mod account;
pub mod action;
pub mod address;
pub mod bytes;
pub mod error;
pub mod flags;
pub mod hash;
pub mod ledger;
pub mod state;
pub mod instructions;
pub mod laws;
