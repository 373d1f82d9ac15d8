//! A userspace NFSv4.0 storage provider, verified.
//!
//! The crate holds the provider's logic: the error domains and their
//! classification, the wire vocabulary and its shape helpers, handles and
//! sequencing, replay accounting, anchoring, paging, mutation dispatch, writer
//! admission and outage recovery. Nothing here opens a socket. A transport is
//! whatever implements [`transport::RawTransport`], and contracts speak of the
//! exchanges that transport carried.
pub mod anchor;
pub mod assoc;
pub mod authority;
pub mod bytes;
pub mod capability;
pub mod contract;
pub mod crud;
pub mod error;
pub mod fake;
pub mod handle;
pub mod identity;
pub mod integration;
pub mod journal;
pub mod layout;
pub mod namespace;
pub mod ops;
pub mod pages;
pub mod pdu;
pub mod probe;
pub mod replay;
pub mod state;
pub mod storage;
pub mod text;
pub mod transport;

pub use storage::{NfsUserspaceConfig, FORMAT_VERSION, PROVIDER_ID};
