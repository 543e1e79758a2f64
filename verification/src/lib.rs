//! Substrate for multi-party computation protocols: session-scoped
//! addressing, framed transport codecs, and the foundational sub-protocols
//! (random share generation, commit-open broadcast, barrier synchronization,
//! authenticated-bit opening), each with a verified contract.

pub mod auth_bits;
pub mod base_func;
pub mod common_protos;
pub mod field;
pub mod fp64;
pub mod func_net;
pub mod multibuf;
pub mod polynomial;
pub mod render;
