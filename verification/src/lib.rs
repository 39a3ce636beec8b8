//! Verified core of an SNMP client.
//!
//! The protocol engine that owns the socket, the wire format and the
//! retransmission timers is not part of this crate. What is here is what
//! sits on top of it, and none of it does input or output:
//!
//! - `oid`, `text`: object identifiers and their dotted notation;
//! - `types`, `value`, `variable`, `varlist`: bound variables and the
//!   decoding of their values;
//! - `msg`, `version`, `pdu`: protocol messages;
//! - `callback_op`, `bridge`: the completion hook and the slot it fills;
//! - `session`, `transport`, `single_session`, `multi_session`,
//!   `readiness`: open sessions and the machine that runs a query, told
//!   what happened and answering what to do next;
//! - `invariants`: what holds of every run of that machine;
//! - `auth`, `session_builder`, `usm`: credentials and settings;
//! - `error`: what can go wrong.

pub mod auth;
pub mod bridge;
pub mod callback_op;
pub mod error;
pub mod invariants;
pub mod msg;
pub mod multi_session;
pub mod oid;
pub mod pdu;
pub mod readiness;
pub mod session;
pub mod session_builder;
pub mod single_session;
pub mod text;
pub mod transport;
pub mod types;
pub mod usm;
pub mod value;
pub mod variable;
pub mod varlist;
pub mod version;
