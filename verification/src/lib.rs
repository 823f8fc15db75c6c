//! Parsing of Internationalized Resource Identifiers (IRIs) into Compact
//! Uniform Resource Identifiers (CURIEs).
//!
//! A matcher is built once from `(prefix, expansion)` string pairs.  It
//! recognizes which known namespace expansion an identifier starts with and
//! splits the identifier into the CURIE `prefix` and `id` parts.

mod api;
mod curies;
mod registry;
mod text;
mod trie;

pub use api::CurieParts;
pub use api::CuriePrefix;
pub use api::CurieUtil;
pub use api::curie_match;
pub use api::curie_match_at;
pub use api::lemma_match_deterministic;
pub use api::lemma_match_of_known_expansion;
pub use curies::PREFIX2IRI;
pub use curies::colon;
pub use curies::comment_marker;
pub use curies::line_pair;
pub use curies::newline;
pub use curies::parse_default_prefix2iri;
pub use curies::parse_lines;
pub use curies::parse_prefix2iri;
pub use curies::strip_cr;
pub use text::find_first;
pub use text::is_match_at;
pub use text::spec_trim;
pub use trie::TrieCurieUtil;
pub use trie::e2p_of;
pub use trie::lemma_construction_registers_expansion;
pub use trie::lemma_construction_registers_prefix;
pub use trie::nonempty_keys;
pub use trie::p2e_of;
