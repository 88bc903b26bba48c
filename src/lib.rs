//! The authorization core of a process sandbox: decides whether a filesystem
//! or network operation is allowed under the granted capabilities, explains a
//! denial without revealing anything about its target, and presents the
//! decision as a structured record or as text.

pub mod access;
pub mod capability;
pub mod error;
pub mod keystore;
pub mod path;
pub mod query;
pub mod report;
