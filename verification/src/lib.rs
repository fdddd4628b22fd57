//! A small attestation gateway library.
//!
//! The gateway exposes two read-only operations over an external attestation
//! client: fetching a quote together with its event log, and extracting the
//! `app_compose` entry from the client's TCB info. This crate holds the
//! verified core of the gateway: the JSON document model and the functions
//! that shape a downstream outcome into an HTTP status and a JSON body.
//! The unverified binary around it performs the actual socket and HTTP work
//! and hands plain values in and out.

pub mod gateway;
pub mod json;
