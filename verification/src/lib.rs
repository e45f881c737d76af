//! Two-party private contact discovery.
//!
//! Two parties learn which of their hashed contacts they have in common and
//! nothing else. A session holds a confidential record, to which each party
//! submits its list once; the second submission matches the two lists, and
//! each party is shown the intersection at the positions of its own list.
//!
//! - [`contacts`]: a party's contact list and how it is laid out.
//! - [`select`]: selection without branching, which the operations on the
//!   confidential record are built from.
//! - [`matcher`]: the comparison of two lists, slot by slot.
//! - [`circuits`]: the confidential record and the operations on it.
//! - [`program`]: the public record of a session and the instructions that
//!   decide which computation is queued next.
//! - [`arguments`]: the argument lists that go with a queued computation.
//! - [`counting`], [`matching_laws`], [`session_laws`]: what is proved of
//!   the above for all inputs.

pub mod arguments;
pub mod circuits;
pub mod contacts;
pub mod counting;
pub mod matcher;
pub mod matching_laws;
pub mod program;
pub mod select;
pub mod session_laws;
