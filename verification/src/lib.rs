//! A queryable morphological lexicon: a tagged-entry data model with a
//! bidirectional compact storage encoding, an ingestion pipeline for
//! tab-delimited tagged text, relation queries over stored rows, and the
//! decision logic of an interactive search assistant.

pub mod assist;
pub mod codec;
pub mod ingest;
pub mod query;

pub use query::related;
pub use query::search;
pub mod text;
pub mod definitions;

use vstd::prelude::*;

verus! {

} // verus!
