//! Adapter for a remote proof-generation backend, exposed through three
//! operations: fetch a verification key, submit a proof task, and poll a
//! task's status. The request/response mapping, status validation, retry
//! discipline and task lifecycle reconstruction are verified; the HTTP calls
//! themselves are performed by a thin unverified shell around this crate.

pub mod adapter;
pub mod codec;
pub mod text;
pub mod transport;
pub mod types;
