//! The public face of the matcher: the parts of a recognized CURIE, and the
//! `CurieUtil` trait with the contracts of the three lookup operations.

use vstd::prelude::*;

use crate::text::find_first;

verus! {

/// Where the CURIE *prefix* string of a query result comes from: either the
/// registry's own stored prefix, or the bytes of the queried IRI itself
/// (when the prefix occurs literally inside the matched expansion, the
/// result reuses the same range of the IRI).
#[derive(Clone, Debug)]
pub enum CuriePrefix {
    FromCurieUtil(String),
    FromIri(String),
}

impl CuriePrefix {
    /// The characters of the prefix, whichever source holds them.
    pub open spec fn chars(&self) -> Seq<char> {
        match self {
            CuriePrefix::FromCurieUtil(s) => s@,
            CuriePrefix::FromIri(s) => s@,
        }
    }

    /// Does the prefix view point into the queried IRI?
    pub open spec fn is_from_iri(&self) -> bool {
        match self {
            CuriePrefix::FromCurieUtil(_) => false,
            CuriePrefix::FromIri(_) => true,
        }
    }
}

/// Create a `CuriePrefix` from a string, treating it as text of an IRI.
impl From<&str> for CuriePrefix {
    fn from(value: &str) -> Self {
        CuriePrefix::FromIri(value.to_owned())
    }
}

impl vstd::std_specs::convert::FromSpecImpl<&str> for CuriePrefix {
    open spec fn obeys_from_spec() -> bool {
        false
    }

    open spec fn from_spec(v: &str) -> CuriePrefix {
        arbitrary()
    }
}

/// The two parts of a recognized CURIE: the short `prefix` and the local
/// `id` that remains of the IRI after the matched expansion.
#[derive(Clone, Debug)]
pub struct CurieParts {
    prefix: CuriePrefix,
    id: String,
}

impl CurieParts {
    /// The prefix part, with its source.
    pub closed spec fn spec_prefix(&self) -> CuriePrefix {
        self.prefix
    }

    /// The characters of the prefix part.
    pub open spec fn prefix_chars(&self) -> Seq<char> {
        self.spec_prefix().chars()
    }

    /// The characters of the id part.
    pub closed spec fn id_chars(&self) -> Seq<char> {
        self.id@
    }

    /// Create new curie parts.
    pub fn new(prefix: CuriePrefix, id: &str) -> (r: Self)
        ensures
            r.spec_prefix() == prefix,
            r.id_chars() == id@,
    {
        CurieParts { prefix, id: id.to_owned() }
    }

    /// Get the CURIE prefix.
    pub fn get_prefix(&self) -> (r: &str)
        ensures
            r@ == self.prefix_chars(),
    {
        match &self.prefix {
            CuriePrefix::FromIri(a) => a.as_str(),
            CuriePrefix::FromCurieUtil(a) => a.as_str(),
        }
    }

    /// Get the CURIE id.
    pub fn get_id(&self) -> (r: &str)
        ensures
            r@ == self.id_chars(),
    {
        self.id.as_str()
    }
}

/// `cp` is the correct result of querying `iri` where `w` is the matched
/// expansion: `w` is indexed and is a leading substring of `iri` — the
/// *shortest* such expansion, the deterministic tie-break this library
/// fixes when several indexed expansions lead the same identifier — the
/// registry resolves `w` to the returned prefix, the id is the remainder
/// of `iri` after `w`, so the matched expansion and the id reassemble
/// `iri` exactly.  The prefix borrows from the IRI exactly when the prefix
/// string occurs inside the matched expansion.
pub open spec fn curie_match_at(
    expansions: Set<Seq<char>>,
    e2p: Map<Seq<char>, Seq<char>>,
    iri: Seq<char>,
    w: Seq<char>,
    cp: CurieParts,
) -> bool {
    &&& expansions.contains(w)
    &&& w.is_prefix_of(iri)
    &&& forall|v: Seq<char>|
        expansions.contains(v) && v.is_prefix_of(iri) ==> w.len() <= v.len()
    &&& e2p.contains_key(w)
    &&& cp.prefix_chars() == e2p[w]
    &&& cp.id_chars() == iri.skip(w.len() as int)
    &&& w + cp.id_chars() == iri
    &&& (cp.spec_prefix().is_from_iri() <==> find_first(w, e2p[w]) >= 0)
}

/// `cp` is the correct result of querying `iri`: the shortest matching
/// indexed expansion matches as `curie_match_at` says.  Since the shortest
/// indexed leading substring of an identifier is unique, this determines
/// the result's prefix characters, id and prefix source completely (see
/// [`lemma_match_deterministic`]).
pub open spec fn curie_match(
    expansions: Set<Seq<char>>,
    e2p: Map<Seq<char>, Seq<char>>,
    iri: Seq<char>,
    cp: CurieParts,
) -> bool {
    exists|w: Seq<char>| curie_match_at(expansions, e2p, iri, w, cp)
}

/// `CurieUtil` can expand a prefix into an expansion, check if a prefix can
/// be expanded, and find CURIE subparts in an IRI.
///
/// The spec functions describe the registry an implementation was built
/// from: the prefix-to-expansion and expansion-to-prefix mappings and the
/// set of indexed expansion strings.
pub trait CurieUtil {
    /// The registry's prefix-to-expansion mapping.
    spec fn p2e(&self) -> Map<Seq<char>, Seq<char>>;

    /// The registry's expansion-to-prefix mapping.
    spec fn e2p(&self) -> Map<Seq<char>, Seq<char>>;

    /// The indexed expansion strings.
    spec fn expansions(&self) -> Set<Seq<char>>;

    /// Find CURIE `prefix` and `id` in an IRI.
    ///
    /// The result is empty exactly when no indexed expansion is a leading
    /// substring of `iri`; otherwise it is the match per [`curie_match`]:
    /// when several indexed expansions lead the identifier, the shortest
    /// one is matched, so the result is a function of the registry and the
    /// identifier alone.
    fn get_curie_data(&self, iri: &str) -> (r: Option<CurieParts>)
        ensures
            match r {
                Some(cp) => curie_match(self.expansions(), self.e2p(), iri@, cp),
                None => forall|w: Seq<char>|
                    self.expansions().contains(w) ==> !w.is_prefix_of(iri@),
            },
    ;

    /// Get the expansion for a prefix, or nothing when the prefix is
    /// unknown.
    fn get_expansion(&self, prefix: &str) -> (r: Option<String>)
        ensures
            match r {
                Some(e) => self.p2e().contains_key(prefix@) && e@ == self.p2e()[prefix@],
                None => !self.p2e().contains_key(prefix@),
            },
    ;

    /// Check if the util has an expansion for a prefix.
    ///
    /// By default this asks `get_expansion`; an implementation may instead
    /// check membership directly, with identical observable results.
    fn has_prefix(&self, prefix: &str) -> (r: bool)
        ensures
            r == self.p2e().contains_key(prefix@),
    {
        match self.get_expansion(prefix) {
            Some(_) => true,
            None => false,
        }
    }
}

/// Law: identifier lookup is deterministic.  Any two correct match results
/// for the same identifier against the same registry agree on the prefix
/// characters, the id and the prefix's source, so two calls of
/// `get_curie_data` on equal inputs — or on two matchers with equal
/// registry views, such as the default matcher and one built from the
/// parsed bundled table — are observably equal.
pub proof fn lemma_match_deterministic<CU: CurieUtil>(
    cu: CU,
    iri: Seq<char>,
    cp1: CurieParts,
    cp2: CurieParts,
)
    requires
        curie_match(cu.expansions(), cu.e2p(), iri, cp1),
        curie_match(cu.expansions(), cu.e2p(), iri, cp2),
    ensures
        cp1.prefix_chars() == cp2.prefix_chars(),
        cp1.id_chars() == cp2.id_chars(),
        cp1.spec_prefix().is_from_iri() == cp2.spec_prefix().is_from_iri(),
{
    let w1 = choose|w: Seq<char>| curie_match_at(cu.expansions(), cu.e2p(), iri, w, cp1);
    let w2 = choose|w: Seq<char>| curie_match_at(cu.expansions(), cu.e2p(), iri, w, cp2);
    assert(w1.len() <= w2.len() && w2.len() <= w1.len());
    assert(w1 =~= w2);
}

/// Law: for a known expansion `e` and a non-empty suffix `s`, querying the
/// identifier `e + s` cannot come back empty (since `e` itself is a leading
/// substring of it), and when `e` is the only indexed expansion that is a
/// leading substring of `e + s`, any correct match result carries the
/// prefix the registry resolves `e` to and the id `s` exactly, so the
/// matched expansion and the returned id reassemble `e + s`.
pub proof fn lemma_match_of_known_expansion<CU: CurieUtil>(
    cu: CU,
    e: Seq<char>,
    s: Seq<char>,
    cp: CurieParts,
)
    requires
        cu.expansions().contains(e),
        s.len() > 0,
        forall|w: Seq<char>| cu.expansions().contains(w) && w.is_prefix_of(e + s) ==> w == e,
        curie_match(cu.expansions(), cu.e2p(), e + s, cp),
    ensures
        e.is_prefix_of(e + s),
        cu.e2p().contains_key(e),
        cp.prefix_chars() == cu.e2p()[e],
        cp.id_chars() == s,
        e + cp.id_chars() == e + s,
{
    assert(e =~= (e + s).take(e.len() as int));
    let w = choose|w: Seq<char>| curie_match_at(cu.expansions(), cu.e2p(), e + s, w, cp);
    assert(w == e);
    assert((e + s).skip(e.len() as int) =~= s);
}

} // verus!
