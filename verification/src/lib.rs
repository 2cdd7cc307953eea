//! An encoder for the pcapng capture-file container format.
//!
//! The format is a sequence of self-delimiting, length-prefixed blocks, each
//! carrying a fixed header, a type-specific body and an optional trailing list
//! of typed key/value attributes ("options").  The `blocks` module holds the
//! five standard block kinds plus a raw escape hatch; `blocks::options` holds
//! the option list and the concrete option kinds; `writer` binds a byte order
//! to an in-memory sink and dispatches encode calls.
//!
//! Every encode routine carries a contract that pins the exact byte sequence
//! appended to the sink, stated over the specification functions of the
//! `encoding` module.

pub mod blocks;
pub mod constants;
pub mod encoding;
pub mod enums;
pub mod text;
pub mod utils;
pub mod writer;
