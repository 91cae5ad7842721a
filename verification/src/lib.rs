//! Short, sortable identifiers with a caller-chosen prefix.
//!
//! An identifier reads `prefix_` followed by the clock reading in base 36,
//! the counter reading in decimal, the process identifier in base 36 and a
//! run of random ASCII letters and digits.
//!
//! The library keeps no state of its own and does not ask the system who
//! runs it: `PuidBuilder::build` takes the clock reading, the cell that
//! holds the counter and the process identifier from its caller. `time`
//! reads the clock, and `counter` advances a cell.

pub mod alphabet;
pub mod base36;
pub mod clock;
pub mod counter;
pub mod decimal;
pub mod error;
mod puid;
pub mod random;
pub mod text;

pub use crate::clock::time;
pub use crate::counter::counter;
pub use crate::puid::{
    assemble, identifier, is_built, is_identifier, lemma_closed_stem_is_identifier,
    lemma_identifier_parts, lemma_invalid_prefix_rejected, lemma_random_tail, lemma_stem_shape,
    lemma_valid_prefix_leads, puid, stem, valid_prefix, validate, Config, Puid, PuidBuilder,
    DEFAULT_ENTROPY, PREFIX_MAX_LEN, PREFIX_MIN_LEN,
};
