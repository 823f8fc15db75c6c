use std::collections::HashMap;

use curieosa::parse_default_prefix2iri;
use curieosa::parse_prefix2iri;

#[test]
fn test_it() {
    let mut curies = parse_default_prefix2iri();
    curies.sort();
    for (prefix, _) in curies.iter() {
        println!("{prefix:?}");
    }
    assert_eq!(curies.len(), 174);

    let prefix2iri: HashMap<_, _> = curies.into_iter().collect();

    assert_eq!(prefix2iri["BT"], "http://c.biothings.io/#");
    assert_eq!(prefix2iri["HP"], "http://purl.obolibrary.org/obo/HP_");
    assert_eq!(prefix2iri["NCIT"], "http://purl.obolibrary.org/obo/NCIT_");

    assert_eq!(prefix2iri.len(), 174);
}

#[test]
fn parse_skips_blank_lines() {
    let pairs = parse_prefix2iri("\n\nHP: http://purl.obolibrary.org/obo/HP_\n\n");
    assert_eq!(pairs.len(), 1);
    assert_eq!(pairs[0].0, "HP");
    assert_eq!(pairs[0].1, "http://purl.obolibrary.org/obo/HP_");
}

#[test]
fn parse_strips_comments() {
    let pairs = parse_prefix2iri(
        "# a full-line comment\nGO: http://purl.obolibrary.org/obo/GO_ # trailing comment\n",
    );
    assert_eq!(pairs.len(), 1);
    assert_eq!(pairs[0].0, "GO");
    assert_eq!(pairs[0].1, "http://purl.obolibrary.org/obo/GO_");
}

#[test]
fn parse_keeps_bare_hash_in_expansion() {
    // A bare `#` is part of the expansion; only the two-character marker
    // made of a hash sign and a space starts a comment.
    let pairs = parse_prefix2iri("BT: http://c.biothings.io/#\n");
    assert_eq!(pairs.len(), 1);
    assert_eq!(pairs[0].1, "http://c.biothings.io/#");
}

#[test]
fn parse_skips_lines_without_colon() {
    let pairs = parse_prefix2iri("no separator here\nHP\nGO: x\n");
    assert_eq!(pairs.len(), 1);
    assert_eq!(pairs[0].0, "GO");
    assert_eq!(pairs[0].1, "x");
}

#[test]
fn parse_trims_whitespace() {
    let pairs = parse_prefix2iri("  HP :   http://purl.obolibrary.org/obo/HP_  \n");
    assert_eq!(pairs.len(), 1);
    assert_eq!(pairs[0].0, "HP");
    assert_eq!(pairs[0].1, "http://purl.obolibrary.org/obo/HP_");
}

#[test]
fn parse_trims_unicode_whitespace() {
    // Trimming removes every character with the Unicode White_Space
    // property, not only the ASCII blanks.
    let pairs = parse_prefix2iri("\u{a0}HP\u{2003}: \u{a0}x\u{3000}\n");
    assert_eq!(pairs.len(), 1);
    assert_eq!(pairs[0].0, "HP");
    assert_eq!(pairs[0].1, "x");
}

#[test]
fn parse_handles_crlf_and_final_line() {
    let pairs = parse_prefix2iri("A: a\r\nB: b");
    assert_eq!(pairs.len(), 2);
    assert_eq!(pairs[0].0, "A");
    assert_eq!(pairs[0].1, "a");
    assert_eq!(pairs[1].0, "B");
    assert_eq!(pairs[1].1, "b");
}

#[test]
fn parse_splits_at_first_colon() {
    let pairs = parse_prefix2iri("MGI: http://www.informatics.jax.org/accession/MGI:\n");
    assert_eq!(pairs.len(), 1);
    assert_eq!(pairs[0].0, "MGI");
    assert_eq!(pairs[0].1, "http://www.informatics.jax.org/accession/MGI:");
}

#[test]
fn parse_keeps_file_order() {
    let pairs = parse_prefix2iri("B: b\nA: a\nC: c\n");
    let prefixes: Vec<&str> = pairs.iter().map(|p| p.0.as_str()).collect();
    assert_eq!(prefixes, vec!["B", "A", "C"]);
}
