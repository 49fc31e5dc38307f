//! Provisioning, reuse and teardown of short-lived, isolated test databases.
//!
//! The library holds the decisions: how a database is named, the order of the
//! statements of each lifecycle operation, which retained connection is taken or
//! put back, what the bulk sweep may drop, and whether a released database goes
//! back to the idle queue or is dropped. The program around it performs the I/O.

pub mod diesel_bb8;
pub mod error;
pub mod id;
pub mod lifecycle;
pub mod pool;
pub mod registry;
pub mod statement;
pub mod store;
