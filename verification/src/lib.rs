//! Deserialization of IPLD data-model values.
//!
//! The library decides, for every request that a deserializing consumer can
//! make of an [`ipld::Ipld`] value, which value it hands over or which error it
//! reports; it also builds [`ipld::Ipld`] values from the events that a
//! deserializer emits.

pub mod ipld;
pub mod access;
pub mod cid_link;
pub mod de;
pub mod dict;
pub mod visitor;
pub mod laws;
pub mod requests;
