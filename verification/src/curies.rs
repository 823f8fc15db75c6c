//! The bundled default dictionary of prefix-to-expansion mappings, and the
//! verified parser of its line-oriented text format.
//!
//! One mapping per line, in the form `PREFIX: EXPANSION`.  Text after the
//! first occurrence of the two-character marker `"# "` is a comment (some
//! expansions legitimately contain a bare `#`, so a one-character marker
//! would be ambiguous).  Blank lines and lines without a `:` are skipped;
//! prefix and expansion are trimmed of surrounding whitespace.

use vstd::prelude::*;

use crate::text::find_first;
use crate::text::find_sub;
use crate::text::is_match_at;
use crate::text::lemma_find_first_props;
use crate::text::spec_trim;
use crate::text::trim;

verus! {

/// Bundled text with common prefix-to-expansion mappings.
pub const PREFIX2IRI: &'static str = "# Default prefix to expansion mappings, one per line.
# Text after the marker made of a hash sign and a space is a comment.

BFO: http://purl.obolibrary.org/obo/BFO_
BSPO: http://purl.obolibrary.org/obo/BSPO_
CARO: http://purl.obolibrary.org/obo/CARO_
CHEBI: http://purl.obolibrary.org/obo/CHEBI_
CHR: http://purl.obolibrary.org/obo/CHR_
CL: http://purl.obolibrary.org/obo/CL_
CLO: http://purl.obolibrary.org/obo/CLO_
CMO: http://purl.obolibrary.org/obo/CMO_
DDANAT: http://purl.obolibrary.org/obo/DDANAT_
DDPHENO: http://purl.obolibrary.org/obo/DDPHENO_
DOID: http://purl.obolibrary.org/obo/DOID_
ECO: http://purl.obolibrary.org/obo/ECO_
ECTO: http://purl.obolibrary.org/obo/ECTO_
EMAPA: http://purl.obolibrary.org/obo/EMAPA_
ENVO: http://purl.obolibrary.org/obo/ENVO_
FAO: http://purl.obolibrary.org/obo/FAO_
FBbt: http://purl.obolibrary.org/obo/FBbt_
FBcv: http://purl.obolibrary.org/obo/FBcv_
FBdv: http://purl.obolibrary.org/obo/FBdv_
FMA: http://purl.obolibrary.org/obo/FMA_
FYPO: http://purl.obolibrary.org/obo/FYPO_
GENO: http://purl.obolibrary.org/obo/GENO_
GO: http://purl.obolibrary.org/obo/GO_
HP: http://purl.obolibrary.org/obo/HP_
HsapDv: http://purl.obolibrary.org/obo/HsapDv_
IAO: http://purl.obolibrary.org/obo/IAO_
INO: http://purl.obolibrary.org/obo/INO_
MA: http://purl.obolibrary.org/obo/MA_
MF: http://purl.obolibrary.org/obo/MF_
MFOMD: http://purl.obolibrary.org/obo/MFOMD_
MI: http://purl.obolibrary.org/obo/MI_
MOD: http://purl.obolibrary.org/obo/MOD_
MONDO: http://purl.obolibrary.org/obo/MONDO_
MP: http://purl.obolibrary.org/obo/MP_
MPATH: http://purl.obolibrary.org/obo/MPATH_
NBO: http://purl.obolibrary.org/obo/NBO_
NCBITaxon: http://purl.obolibrary.org/obo/NCBITaxon_
NCIT: http://purl.obolibrary.org/obo/NCIT_
OBA: http://purl.obolibrary.org/obo/OBA_
OBI: http://purl.obolibrary.org/obo/OBI_
OGMS: http://purl.obolibrary.org/obo/OGMS_
PATO: http://purl.obolibrary.org/obo/PATO_
PCO: http://purl.obolibrary.org/obo/PCO_
PO: http://purl.obolibrary.org/obo/PO_
PR: http://purl.obolibrary.org/obo/PR_
PW: http://purl.obolibrary.org/obo/PW_
RO: http://purl.obolibrary.org/obo/RO_
RXCUI: http://purl.obolibrary.org/obo/RXCUI_
SEPIO: http://purl.obolibrary.org/obo/SEPIO_
SO: http://purl.obolibrary.org/obo/SO_
STATO: http://purl.obolibrary.org/obo/STATO_
SYMP: http://purl.obolibrary.org/obo/SYMP_
TO: http://purl.obolibrary.org/obo/TO_
TRANS: http://purl.obolibrary.org/obo/TRANS_
UBERON: http://purl.obolibrary.org/obo/UBERON_
UO: http://purl.obolibrary.org/obo/UO_
UPHENO: http://purl.obolibrary.org/obo/UPHENO_
VT: http://purl.obolibrary.org/obo/VT_
WBPhenotype: http://purl.obolibrary.org/obo/WBPhenotype_
WBbt: http://purl.obolibrary.org/obo/WBbt_
WBls: http://purl.obolibrary.org/obo/WBls_
XAO: http://purl.obolibrary.org/obo/XAO_
XCO: http://purl.obolibrary.org/obo/XCO_
ZFA: http://purl.obolibrary.org/obo/ZFA_
ZFS: http://purl.obolibrary.org/obo/ZFS_
ZP: http://purl.obolibrary.org/obo/ZP_
APO: http://purl.obolibrary.org/obo/APO_
ARO: http://purl.obolibrary.org/obo/ARO_
BTO: http://purl.obolibrary.org/obo/BTO_
CDNO: http://purl.obolibrary.org/obo/CDNO_
CHMO: http://purl.obolibrary.org/obo/CHMO_
CIDO: http://purl.obolibrary.org/obo/CIDO_
CIO: http://purl.obolibrary.org/obo/CIO_
CLYH: http://purl.obolibrary.org/obo/CLYH_
COB: http://purl.obolibrary.org/obo/COB_
CTENO: http://purl.obolibrary.org/obo/CTENO_
CVDO: http://purl.obolibrary.org/obo/CVDO_
DIDEO: http://purl.obolibrary.org/obo/DIDEO_
DRON: http://purl.obolibrary.org/obo/DRON_
DUO: http://purl.obolibrary.org/obo/DUO_
ENM: http://purl.obolibrary.org/obo/ENM_
EUPATH: http://purl.obolibrary.org/obo/EUPATH_
EXO: http://purl.obolibrary.org/obo/EXO_
FIDEO: http://purl.obolibrary.org/obo/FIDEO_
FLOPO: http://purl.obolibrary.org/obo/FLOPO_
FOBI: http://purl.obolibrary.org/obo/FOBI_
FOODON: http://purl.obolibrary.org/obo/FOODON_
GAZ: http://purl.obolibrary.org/obo/GAZ_
GECKO: http://purl.obolibrary.org/obo/GECKO_
GENEPIO: http://purl.obolibrary.org/obo/GENEPIO_
GEO: http://purl.obolibrary.org/obo/GEO_
GNO: http://purl.obolibrary.org/obo/GNO_
GSSO: http://purl.obolibrary.org/obo/GSSO_
HANCESTRO: http://purl.obolibrary.org/obo/HANCESTRO_
HOM: http://purl.obolibrary.org/obo/HOM_
OMP: http://purl.obolibrary.org/obo/OMP_
OPL: http://purl.obolibrary.org/obo/OPL_
PECO: http://purl.obolibrary.org/obo/PECO_
PHIPO: http://purl.obolibrary.org/obo/PHIPO_
PLANA: http://purl.obolibrary.org/obo/PLANA_
PLANP: http://purl.obolibrary.org/obo/PLANP_
PORO: http://purl.obolibrary.org/obo/PORO_
PSO: http://purl.obolibrary.org/obo/PSO_
RBO: http://purl.obolibrary.org/obo/RBO_
REX: http://purl.obolibrary.org/obo/REX_
SBO: http://purl.obolibrary.org/obo/SBO_
SIBO: http://purl.obolibrary.org/obo/SIBO_
OMIM: http://purl.obolibrary.org/obo/OMIM_
BT: http://c.biothings.io/#
dbSNP: https://www.ncbi.nlm.nih.gov/snp/
dbVar: https://www.ncbi.nlm.nih.gov/dbvar/
ClinVarVariant: http://www.ncbi.nlm.nih.gov/clinvar/variation/
ClinVar: https://www.ncbi.nlm.nih.gov/clinvar/
NCBIGene: https://www.ncbi.nlm.nih.gov/gene/
NCBIProtein: https://www.ncbi.nlm.nih.gov/protein/
NCBIAssembly: https://www.ncbi.nlm.nih.gov/assembly/
PMID: http://www.ncbi.nlm.nih.gov/pubmed/
PMCID: http://www.ncbi.nlm.nih.gov/pmc/
MedGen: http://www.ncbi.nlm.nih.gov/medgen/
BioProject: http://www.ncbi.nlm.nih.gov/bioproject/
ENSEMBL: http://ensembl.org/id/
MGI: http://www.informatics.jax.org/accession/MGI:
ZFIN: http://zfin.org/
RGD: http://rgd.mcw.edu/rgdweb/report/gene/main.html?id=
SGD: https://www.yeastgenome.org/locus/
FlyBase: http://flybase.org/reports/
WormBase: https://www.wormbase.org/get?name=
PomBase: https://www.pombase.org/gene/
dictyBase: http://dictybase.org/gene/
Xenbase: http://www.xenbase.org/gene/showgene.do?method=display&geneId=
UniProtKB: http://identifiers.org/uniprot/
InterPro: http://identifiers.org/interpro/
Pfam: http://identifiers.org/pfam/
PANTHER: http://identifiers.org/panther.family/
Reactome: http://identifiers.org/reactome/
KEGG: http://identifiers.org/kegg/
RefSeq: http://identifiers.org/refseq/
EC: http://identifiers.org/ec-code/
MESH: http://identifiers.org/mesh/
SNOMED: http://identifiers.org/snomedct/
UMLS: http://identifiers.org/umls/
ORPHA: http://www.orpha.net/ORDO/Orphanet_
DECIPHER: https://decipher.sanger.ac.uk/syndrome/
GeneReviews: http://www.ncbi.nlm.nih.gov/books/
HGNC: http://identifiers.org/hgnc/
HGVS: http://identifiers.org/hgvs/
HPRD: http://identifiers.org/hprd/
ISBN: https://monarchinitiative.org/ISBN_
DOI: http://dx.doi.org/
AQTLTrait: http://identifiers.org/animalqtltrait/
AQTLPub: http://identifiers.org/animalqtlpub/
APB: http://pb.apf.edu.au/phenbank/strain.html?id=
BIOGRID: http://thebiogrid.org/
CCDS: http://www.ncbi.nlm.nih.gov/CCDS/CcdsBrowse.cgi?REQUEST=CCDS&DATA=
CID: http://pubchem.ncbi.nlm.nih.gov/compound/
COSMIC: http://cancer.sanger.ac.uk/cosmic/mutation/overview?id=
EcoGene: http://ecogene.org/gene/
EFO: http://www.ebi.ac.uk/efo/EFO_
GINAS: http://tripod.nih.gov/ginas/app/substance#
GOLD.META: http://genomesonline.org/cgi-bin/GOLD/bin/GOLDCards.cgi?goldstamp=
HMDB: http://www.hmdb.ca/metabolites/
JAX: http://jaxmice.jax.org/strain/
MMRRC: https://www.mmrrc.org/catalog/sds.php?mmrrc_id=
MPD: https://phenome.jax.org/
MedlinePlus: http://www.nlm.nih.gov/medlineplus/
OMIA: https://omia.org/OMIA
Orphanet: http://identifiers.org/orphanet/
VGNC: https://vertebrate.genenames.org/data/gene-symbol-report/#!/vgnc_id/
Wikidata: https://www.wikidata.org/wiki/
GTEx: https://www.gtexportal.org/home/gene/
TAIR: https://www.arabidopsis.org/servlets/TairObject?type=locus&id=
miRBase: http://identifiers.org/mirbase/
UCSC: https://genome.ucsc.edu/cgi-bin/hgGene?hgg_gene=
GenBank: https://www.ncbi.nlm.nih.gov/nuccore/
";

/// The two-character comment marker.
pub open spec fn comment_marker() -> Seq<char> {
    seq!['#', ' ']
}

/// The separator between a prefix and its expansion.
pub open spec fn colon() -> Seq<char> {
    seq![':']
}

/// The line separator.
pub open spec fn newline() -> Seq<char> {
    seq!['\n']
}

/// A line with one trailing carriage return removed.
pub open spec fn strip_cr(line: Seq<char>) -> Seq<char> {
    if line.len() > 0 && line.last() == '\r' {
        line.drop_last()
    } else {
        line
    }
}

/// The pair a single line contributes: its text up to any comment, split at
/// the first colon into a trimmed prefix and a trimmed expansion.  A line
/// that is blank up to its comment, or has no colon there, contributes
/// nothing.
pub open spec fn line_pair(line: Seq<char>) -> Option<(Seq<char>, Seq<char>)> {
    let cut = find_first(line, comment_marker());
    let relevant = if cut >= 0 {
        line.take(cut)
    } else {
        line
    };
    if relevant.len() == 0 {
        None
    } else {
        let c = find_first(relevant, colon());
        if c < 0 {
            None
        } else {
            Some((spec_trim(relevant.take(c)), spec_trim(relevant.skip(c + 1))))
        }
    }
}

/// The ordered pair sequence described by a whole text: the contributions
/// of its lines, in file order.
pub open spec fn parse_lines(text: Seq<char>) -> Seq<(Seq<char>, Seq<char>)>
    decreases text.len(),
{
    if text.len() == 0 {
        Seq::empty()
    } else {
        let nl = find_first(text, newline());
        let e = if nl >= 0 {
            nl
        } else {
            text.len() as int
        };
        let rest = if 0 <= e < text.len() {
            text.skip(e + 1)
        } else {
            Seq::empty()
        };
        match line_pair(strip_cr(text.take(e))) {
            Some(p) => seq![p] + parse_lines(rest),
            None => parse_lines(rest),
        }
    }
}

/// Parse one line into the pair it contributes, if any.
fn parse_line(line: &str) -> (r: Option<(String, String)>)
    ensures
        match r {
            Some(p) => line_pair(line@) == Some((p.0@, p.1@)),
            None => line_pair(line@) is None,
        },
{
    proof {
        reveal_strlit("# ");
        reveal_strlit(":");
        assert("# "@ =~= comment_marker());
        assert(":"@ =~= colon());
    }
    let relevant = match find_sub(line, "# ") {
        Some(cut) => {
            proof {
                lemma_find_first_props(line@, "# "@);
                assert(is_match_at(line@, "# "@, cut as int));
            }
            line.substring_char(0, cut)
        },
        None => line,
    };
    let rlen = relevant.unicode_len();
    if rlen == 0 {
        return None;
    }
    match find_sub(relevant, ":") {
        Some(c) => {
            proof {
                lemma_find_first_props(relevant@, ":"@);
                assert(is_match_at(relevant@, ":"@, c as int));
            }
            let p = trim(relevant.substring_char(0, c));
            let e = trim(relevant.substring_char(c + 1, rlen));
            proof {
                assert(relevant@.subrange(c + 1, rlen as int) =~= relevant@.skip(c + 1));
            }
            Some((p.to_owned(), e.to_owned()))
        },
        None => None,
    }
}

/// Parse a whole dictionary text into its ordered pair sequence.
pub fn parse_prefix2iri(text: &str) -> (pairs: Vec<(String, String)>)
    ensures
        pairs.deep_view() == parse_lines(text@),
{
    let n = text.unicode_len();
    let mut pairs: Vec<(String, String)> = Vec::new();
    proof {
        assert(pairs.deep_view() =~= Seq::<(Seq<char>, Seq<char>)>::empty());
        assert(text@.skip(0) =~= text@);
        assert(pairs.deep_view() + parse_lines(text@) =~= parse_lines(text@));
    }
    let mut i: usize = 0;
    while i < n
        invariant
            i <= n,
            n == text@.len(),
            parse_lines(text@) == pairs.deep_view() + parse_lines(text@.skip(i as int)),
        decreases n - i,
    {
        let ghost pre = pairs.deep_view();
        let ghost t = text@.skip(i as int);
        let rest = text.substring_char(i, n);
        proof {
            reveal_strlit("\n");
            assert("\n"@ =~= newline());
        }
        let (line_end, next_i) = match find_sub(rest, "\n") {
            Some(e) => {
                proof {
                    lemma_find_first_props(rest@, "\n"@);
                    assert(is_match_at(rest@, "\n"@, e as int));
                }
                (e, i + e + 1)
            },
            None => (n - i, n),
        };
        let raw = rest.substring_char(0, line_end);
        let rawlen = raw.unicode_len();
        let line = if rawlen > 0 && raw.get_char(rawlen - 1) == '\r' {
            raw.substring_char(0, rawlen - 1)
        } else {
            raw
        };
        proof {
            assert(raw@ =~= t.take(line_end as int));
            assert(line@ =~= strip_cr(t.take(line_end as int)));
        }
        match parse_line(line) {
            Some(pair) => {
                let ghost q = (pair.0@, pair.1@);
                pairs.push(pair);
                proof {
                    assert(pairs.deep_view() =~= pre.push(q));
                }
            },
            None => {},
        }
        proof {
            let e = line_end as int;
            if e < t.len() {
                assert(t.skip(e + 1) =~= text@.skip(next_i as int));
            } else {
                assert(text@.skip(next_i as int) =~= Seq::<char>::empty());
            }
            match line_pair(line@) {
                Some(p) => {
                    assert(pairs.deep_view() + parse_lines(text@.skip(next_i as int)) =~= pre
                        + (seq![p] + parse_lines(text@.skip(next_i as int))));
                },
                None => {},
            }
        }
        i = next_i;
    }
    proof {
        assert(text@.skip(n as int) =~= Seq::<char>::empty());
        assert(pairs.deep_view() + parse_lines(text@.skip(n as int)) =~= pairs.deep_view());
    }
    pairs
}

/// Get the default prefix-to-expansion mappings parsed from the bundled
/// dictionary text.
pub fn parse_default_prefix2iri() -> (pairs: Vec<(String, String)>)
    ensures
        pairs.deep_view() == parse_lines(PREFIX2IRI@),
{
    parse_prefix2iri(PREFIX2IRI)
}

} // verus!
