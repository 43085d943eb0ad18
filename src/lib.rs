//! A ledger of notes between two parties, with like/dislike reactions and a
//! global note counter. Records live at deterministic addresses derived from
//! their identifying inputs; every operation either commits in full or leaves
//! the ledger untouched.

pub mod key;
pub mod address;
pub mod clock;
pub mod records;
pub mod store;
pub mod space;
pub mod tally;
pub mod ledger;
pub mod laws;
