//! A [`CurieUtil`] implementation backed by a byte trie from the `trie_rs`
//! crate.
//!
//! The trie itself is outside code; its contents are modelled by the
//! uninterpreted functions [`builder_words`] and [`trie_words`], and every
//! call into `trie_rs` goes through a trusted wrapper whose contract states,
//! over those names, what the crate's source shows.

use vstd::prelude::*;

use crate::api::CurieParts;
use crate::api::CuriePrefix;
use crate::api::CurieUtil;
use crate::api::curie_match_at;
use crate::curies::PREFIX2IRI;
use crate::curies::parse_default_prefix2iri;
use crate::curies::parse_lines;
use crate::registry::StringMap;
use crate::text::find_sub;
use crate::text::is_match_at;
use crate::text::lemma_find_first_props;

verus! {

#[verifier::external_type_specification]
#[verifier::external_body]
#[verifier::reject_recursive_types(Label)]
pub struct ExTrie<Label>(trie_rs::Trie<Label>);

#[verifier::external_type_specification]
#[verifier::external_body]
#[verifier::reject_recursive_types(Label)]
pub struct ExTrieBuilder<Label>(trie_rs::TrieBuilder<Label>);

/// The words a trie builder holds.  This library pushes every word as the
/// bytes of a UTF-8 string, so the contents are modelled as character
/// strings.
pub uninterp spec fn builder_words(b: trie_rs::TrieBuilder<u8>) -> Set<Seq<char>>;

/// The words a built trie holds, as character strings.
pub uninterp spec fn trie_words(t: trie_rs::Trie<u8>) -> Set<Seq<char>>;

/// Relies on trie_rs::TrieBuilder::new: a fresh builder holds no words.
#[verifier::external_body]
fn trie_builder_new() -> (b: trie_rs::TrieBuilder<u8>)
    ensures
        builder_words(b) == Set::<Seq<char>>::empty(),
{
    trie_rs::TrieBuilder::new()
}

/// Relies on trie_rs::TrieBuilder::push: adds the word's bytes to the
/// builder.  A non-empty word is required because pushing an empty entry
/// panics inside trie_rs.
#[verifier::external_body]
fn trie_builder_push(b: &mut trie_rs::TrieBuilder<u8>, word: &str)
    requires
        word@.len() > 0,
    ensures
        builder_words(*final(b)) == builder_words(*old(b)).insert(word@),
{
    b.push(word);
}

/// Relies on trie_rs::TrieBuilder::build: the built trie holds exactly the
/// words pushed into the builder.
#[verifier::external_body]
fn trie_build(b: trie_rs::TrieBuilder<u8>) -> (t: trie_rs::Trie<u8>)
    ensures
        trie_words(t) == builder_words(b),
{
    b.build()
}

/// Relies on trie_rs::Trie::common_prefix_search: returns exactly the words
/// of the trie that are leading substrings of the query, each yielded once,
/// shortest first (the iterator walks the query from the root and yields a
/// word each time it passes a stored one, so later hits are strictly
/// longer).  Every word was pushed as the bytes of a UTF-8 string, so a
/// stored word that is a byte prefix of the query is also a character
/// prefix, and the returned byte strings convert back to the stored
/// characters exactly.
#[verifier::external_body]
fn trie_common_prefix_search(t: &trie_rs::Trie<u8>, query: &str) -> (r: Vec<String>)
    ensures
        forall|i: int|
            0 <= i < r@.len() ==> trie_words(*t).contains(#[trigger] r@[i]@) && r@[
                i
            ]@.is_prefix_of(query@),
        forall|w: Seq<char>|
            trie_words(*t).contains(w) && w.len() > 0 && w.is_prefix_of(query@) ==> exists|i: int|
                0 <= i < r@.len() && #[trigger] r@[i]@ == w,
        forall|i: int, j: int| 0 <= i < j < r@.len() ==> r@[i]@.len() < r@[j]@.len(),
{
    t.common_prefix_search::<Vec<u8>, _>(query)
        .map(|bytes: Vec<u8>| String::from_utf8_lossy(&bytes).into_owned())
        .collect()
}

/// The prefix-to-expansion mapping described by an ordered pair sequence,
/// where a later pair overwrites an earlier one with the same prefix.
pub open spec fn p2e_of(pairs: Seq<(Seq<char>, Seq<char>)>) -> Map<Seq<char>, Seq<char>>
    decreases pairs.len(),
{
    if pairs.len() == 0 {
        Map::empty()
    } else {
        p2e_of(pairs.drop_last()).insert(pairs.last().0, pairs.last().1)
    }
}

/// The expansion-to-prefix mapping described by an ordered pair sequence,
/// where a later pair overwrites an earlier one with the same expansion.
pub open spec fn e2p_of(pairs: Seq<(Seq<char>, Seq<char>)>) -> Map<Seq<char>, Seq<char>>
    decreases pairs.len(),
{
    if pairs.len() == 0 {
        Map::empty()
    } else {
        e2p_of(pairs.drop_last()).insert(pairs.last().1, pairs.last().0)
    }
}

/// The non-empty keys of a map: the strings the expansion index holds (an
/// empty expansion can never be a match and is not indexed).
pub open spec fn nonempty_keys(m: Map<Seq<char>, Seq<char>>) -> Set<Seq<char>> {
    m.dom().filter(|w: Seq<char>| w.len() > 0)
}

/// A [`CurieUtil`] implementation backed by a trie.
pub struct TrieCurieUtil {
    trie: trie_rs::Trie<u8>,
    prefix_to_expansion: StringMap,
    expansion_to_prefix: StringMap,
}

impl TrieCurieUtil {
    /// The index holds exactly the non-empty expansions of the registry.
    #[verifier::type_invariant]
    spec fn inv(self) -> bool {
        trie_words(self.trie) == nonempty_keys(self.expansion_to_prefix@)
    }

    /// Create a `TrieCurieUtil` from the given prefix-to-expansion pairs.
    ///
    /// Duplicate prefixes or expansions are resolved last-write-wins, as
    /// [`p2e_of`] and [`e2p_of`] state.
    pub fn new(prefix2expansion: &Vec<(String, String)>) -> (r: Self)
        ensures
            r.p2e() == p2e_of(prefix2expansion.deep_view()),
            r.e2p() == e2p_of(prefix2expansion.deep_view()),
            r.expansions() == nonempty_keys(e2p_of(prefix2expansion.deep_view())),
    {
        let ghost dv = prefix2expansion.deep_view();
        let mut builder = trie_builder_new();
        let mut prefix_to_expansion = StringMap::new();
        let mut expansion_to_prefix = StringMap::new();
        let n = prefix2expansion.len();
        proof {
            assert(dv.take(0) =~= Seq::<(Seq<char>, Seq<char>)>::empty());
            assert(builder_words(builder) =~= nonempty_keys(e2p_of(dv.take(0))));
        }
        let mut i: usize = 0;
        while i < n
            invariant
                i <= n,
                n == prefix2expansion@.len(),
                dv == prefix2expansion.deep_view(),
                prefix_to_expansion@ == p2e_of(dv.take(i as int)),
                expansion_to_prefix@ == e2p_of(dv.take(i as int)),
                builder_words(builder) == nonempty_keys(e2p_of(dv.take(i as int))),
            decreases n - i,
        {
            let pair = &prefix2expansion[i];
            proof {
                assert(dv[i as int] == (pair.0@, pair.1@));
            }
            if pair.1.as_str().unicode_len() > 0 {
                trie_builder_push(&mut builder, pair.1.as_str());
            }
            prefix_to_expansion.insert(&pair.0, &pair.1);
            expansion_to_prefix.insert(&pair.1, &pair.0);
            proof {
                assert(dv.take(i + 1).drop_last() =~= dv.take(i as int));
                assert(dv.take(i + 1).last() == dv[i as int]);
                assert(builder_words(builder) =~= nonempty_keys(e2p_of(dv.take(i + 1))));
            }
            i += 1;
        }
        proof {
            assert(dv.take(n as int) =~= dv);
        }
        let trie = trie_build(builder);
        TrieCurieUtil { trie, prefix_to_expansion, expansion_to_prefix }
    }
}

impl CurieUtil for TrieCurieUtil {
    closed spec fn p2e(&self) -> Map<Seq<char>, Seq<char>> {
        self.prefix_to_expansion@
    }

    closed spec fn e2p(&self) -> Map<Seq<char>, Seq<char>> {
        self.expansion_to_prefix@
    }

    closed spec fn expansions(&self) -> Set<Seq<char>> {
        nonempty_keys(self.expansion_to_prefix@)
    }

    fn get_curie_data(&self, iri: &str) -> (r: Option<CurieParts>) {
        proof {
            use_type_invariant(&*self);
        }
        let hits = trie_common_prefix_search(&self.trie, iri);
        if hits.len() == 0 {
            proof {
                assert forall|w: Seq<char>|
                    self.expansions().contains(w) implies !w.is_prefix_of(iri@) by {
                    if w.is_prefix_of(iri@) {
                        assert(trie_words(self.trie).contains(w) && w.len() > 0);
                    }
                }
            }
            return None;
        }
        let m: &String = &hits[0];
        proof {
            assert(trie_words(self.trie).contains(m@) && m@.is_prefix_of(iri@));
            assert(self.expansion_to_prefix@.contains_key(m@) && m@.len() > 0);
        }
        let prefix = self.expansion_to_prefix.get(m.as_str()).unwrap();
        let mlen = m.as_str().unicode_len();
        let ilen = iri.unicode_len();
        let cp_prefix = match find_sub(m.as_str(), prefix.as_str()) {
            Some(i0) => {
                let plen = prefix.as_str().unicode_len();
                proof {
                    lemma_find_first_props(m@, prefix@);
                    assert(is_match_at(m@, prefix@, i0 as int));
                }
                let sub = iri.substring_char(i0, i0 + plen);
                proof {
                    assert(sub@ =~= prefix@) by {
                        assert(m@ =~= iri@.subrange(0, m@.len() as int));
                        assert(m@.subrange(i0 as int, i0 + plen) == prefix@);
                        assert forall|k: int| 0 <= k < plen implies sub@[k] == prefix@[k] by {
                            assert(m@[i0 + k] == iri@[i0 + k]);
                            assert(prefix@[k] == m@.subrange(i0 as int, i0 + plen)[k]);
                        }
                    }
                }
                CuriePrefix::FromIri(sub.to_owned())
            },
            None => CuriePrefix::FromCurieUtil(prefix.clone()),
        };
        let id = iri.substring_char(mlen, ilen);
        let cp = CurieParts::new(cp_prefix, id);
        proof {
            assert(id@ =~= iri@.skip(m@.len() as int));
            assert(m@ + cp.id_chars() =~= iri@);
            assert forall|v: Seq<char>|
                self.expansions().contains(v) && v.is_prefix_of(iri@) implies m@.len()
                <= v.len() by {
                assert(trie_words(self.trie).contains(v) && v.len() > 0);
                let j = choose|j: int| 0 <= j < hits@.len() && hits@[j]@ == v;
                if j > 0 {
                    assert(hits@[0]@.len() < hits@[j]@.len());
                }
            }
            assert(curie_match_at(self.expansions(), self.e2p(), iri@, m@, cp));
        }
        Some(cp)
    }

    fn get_expansion(&self, prefix: &str) -> (r: Option<String>) {
        self.prefix_to_expansion.get(prefix)
    }

    fn has_prefix(&self, prefix: &str) -> (r: bool) {
        self.prefix_to_expansion.contains_key(prefix)
    }
}

/// Create a `TrieCurieUtil` from the default prefix-to-expansion mappings.
impl Default for TrieCurieUtil {
    fn default() -> (r: Self)
        ensures
            r.p2e() == p2e_of(parse_lines(PREFIX2IRI@)),
            r.e2p() == e2p_of(parse_lines(PREFIX2IRI@)),
            r.expansions() == nonempty_keys(e2p_of(parse_lines(PREFIX2IRI@))),
    {
        let pairs = parse_default_prefix2iri();
        TrieCurieUtil::new(&pairs)
    }
}

/// Law: a pair supplied at construction whose prefix no later pair
/// overwrites is registered, its prefix bound to its expansion; with the
/// contracts of `has_prefix` and `get_expansion`, the former then returns
/// true and the latter returns the pair's expansion.
pub proof fn lemma_construction_registers_prefix(pairs: Seq<(Seq<char>, Seq<char>)>, i: int)
    requires
        0 <= i < pairs.len(),
        forall|j: int| i < j < pairs.len() ==> pairs[j].0 != pairs[i].0,
    ensures
        p2e_of(pairs).contains_key(pairs[i].0),
        p2e_of(pairs)[pairs[i].0] == pairs[i].1,
    decreases pairs.len(),
{
    if i < pairs.len() - 1 {
        lemma_construction_registers_prefix(pairs.drop_last(), i);
    }
}

/// Law: a pair supplied at construction whose expansion no later pair
/// overwrites resolves back from that expansion to the pair's prefix.
pub proof fn lemma_construction_registers_expansion(pairs: Seq<(Seq<char>, Seq<char>)>, i: int)
    requires
        0 <= i < pairs.len(),
        forall|j: int| i < j < pairs.len() ==> pairs[j].1 != pairs[i].1,
    ensures
        e2p_of(pairs).contains_key(pairs[i].1),
        e2p_of(pairs)[pairs[i].1] == pairs[i].0,
    decreases pairs.len(),
{
    if i < pairs.len() - 1 {
        lemma_construction_registers_expansion(pairs.drop_last(), i);
    }
}

} // verus!
