//! Endpoint-construction core of a byte-stream relay.
//!
//! Textual specifiers select one of three endpoint kinds — the process's
//! console streams, a file opened for read and write, or an already-open
//! descriptor adopted from the caller — and construction yields a request
//! describing the one bounded OS action an unverified driver must perform.
//! The process-wide record of console blocking-mode changes, and the
//! guarantee that restoration puts both streams back exactly as they were,
//! are modelled and proved here.

pub mod lifecycle;
pub mod registry;
pub mod specifier;

use vstd::prelude::*;

verus! {

} // verus!
