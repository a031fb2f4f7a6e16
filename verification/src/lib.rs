//! Verified core of a DNS-01 ACME certificate renewal daemon.
//!
//! The library models every decision the renewal workflow makes — whether a
//! certificate is due for renewal, how an ACME order is driven through its
//! DNS challenge, how retries are bounded, and in which order on-disk
//! artifacts are archived and written — as verified state machines and pure
//! functions.  The surrounding process performs the network and file-system
//! calls that the machines request and feeds the observed outcomes back in
//! as events.

pub mod consts;
pub mod config;
pub mod date;
pub mod dns;
pub mod expiry;
pub mod naming;
pub mod notify;
pub mod order;
pub mod orchestrator;
pub mod retry;
pub mod strutil;
