//! Verified core of a small library that provisions AWS monitoring resources
//! around Batch job state changes.
//!
//! The verified part is everything that can be decided or computed locally:
//! building the CloudWatch Events rule pattern and the SNS access policy
//! (conditional JSON assembly), generating time-stamped resource names,
//! planning which provider calls an operation makes, and mapping provider
//! responses to results. The provider calls themselves (network I/O) live in
//! the surrounding application, which drives them from the plans and hands
//! the responses back to the verified response handlers.

pub mod clock;
pub mod error;
pub mod events;
pub mod filter;
pub mod jsonfmt;
pub mod naming;
pub mod policy;
pub mod sns;
