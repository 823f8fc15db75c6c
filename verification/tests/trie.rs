use curieosa::CurieUtil;
use curieosa::TrieCurieUtil;

fn pairs(table: &[(&str, &str)]) -> Vec<(String, String)> {
    table.iter().map(|(p, e)| (p.to_string(), e.to_string())).collect()
}

#[test]
fn test_default_trie_curie_util() {
    let cu = TrieCurieUtil::default();

    let cp = cu.get_curie_data("http://purl.obolibrary.org/obo/HP_0001250").unwrap();
    assert_eq!(cp.get_prefix(), "HP");
    assert_eq!(cp.get_id(), "0001250");

    let cp = cu.get_curie_data("http://purl.obolibrary.org/obo/OMIM_256000").unwrap();
    assert_eq!(cp.get_prefix(), "OMIM");
    assert_eq!(cp.get_id(), "256000");

    let cp = cu.get_curie_data("https://www.ncbi.nlm.nih.gov/snp/rs1234567").unwrap();
    assert_eq!(cp.get_prefix(), "dbSNP");
    assert_eq!(cp.get_id(), "rs1234567");
}

#[test]
fn unknown_namespace_matches_nothing() {
    let cu = TrieCurieUtil::default();
    assert!(cu.get_curie_data("http://example.org/not-a-known-namespace/123").is_none());
}

#[test]
fn supplied_pairs_are_registered() {
    let table = pairs(&[
        ("GENO", "http://purl.obolibrary.org/obo/GENO_"),
        ("GO", "http://purl.obolibrary.org/obo/GO_"),
        ("HP", "http://purl.obolibrary.org/obo/HP_"),
    ]);
    let cu = TrieCurieUtil::new(&table);

    for (prefix, expansion) in table.iter() {
        assert!(cu.has_prefix(prefix));
        assert_eq!(cu.get_expansion(prefix).unwrap(), *expansion);
    }
}

#[test]
fn unknown_prefix_has_no_expansion() {
    let cu = TrieCurieUtil::default();
    assert!(cu.get_expansion("FOO").is_none());
    assert!(!cu.has_prefix("FOO"));
}

#[test]
fn expansion_plus_suffix_round_trips() {
    let table = pairs(&[
        ("GO", "http://purl.obolibrary.org/obo/GO_"),
        ("HP", "http://purl.obolibrary.org/obo/HP_"),
    ]);
    let cu = TrieCurieUtil::new(&table);

    let expansion = "http://purl.obolibrary.org/obo/HP_";
    let suffix = "0001250";
    let iri = format!("{expansion}{suffix}");
    let cp = cu.get_curie_data(&iri).unwrap();
    assert_eq!(cp.get_prefix(), "HP");
    assert_eq!(cp.get_id(), suffix);
    // The matched expansion and the returned id reassemble the identifier.
    assert_eq!(format!("{}{}", cu.get_expansion(cp.get_prefix()).unwrap(), cp.get_id()), iri);
}

#[test]
fn prefix_absent_from_expansion_comes_from_registry() {
    // The prefix string does not occur inside the expansion, so the result
    // falls back to the registry's own copy of the prefix.
    let table = pairs(&[("FOO", "bar_")]);
    let cu = TrieCurieUtil::new(&table);

    let cp = cu.get_curie_data("bar_baz").unwrap();
    assert_eq!(cp.get_prefix(), "FOO");
    assert_eq!(cp.get_id(), "baz");
}

#[test]
fn duplicate_prefix_is_overwritten() {
    let table = pairs(&[("X", "http://first.example/"), ("X", "http://second.example/")]);
    let cu = TrieCurieUtil::new(&table);

    assert_eq!(cu.get_expansion("X").unwrap(), "http://second.example/");
}

#[test]
fn duplicate_expansion_is_overwritten() {
    let table = pairs(&[("OLD", "http://ns.example/"), ("NEW", "http://ns.example/")]);
    let cu = TrieCurieUtil::new(&table);

    let cp = cu.get_curie_data("http://ns.example/42").unwrap();
    assert_eq!(cp.get_prefix(), "NEW");
    assert_eq!(cp.get_id(), "42");
}

#[test]
fn whole_expansion_yields_empty_id() {
    let table = pairs(&[("HP", "http://purl.obolibrary.org/obo/HP_")]);
    let cu = TrieCurieUtil::new(&table);

    let cp = cu.get_curie_data("http://purl.obolibrary.org/obo/HP_").unwrap();
    assert_eq!(cp.get_prefix(), "HP");
    assert_eq!(cp.get_id(), "");
}

#[test]
fn empty_expansion_is_never_matched() {
    // An empty expansion cannot be a leading substring of anything useful;
    // it is kept in the registry but not indexed.
    let table = pairs(&[("E", ""), ("GO", "http://purl.obolibrary.org/obo/GO_")]);
    let cu = TrieCurieUtil::new(&table);

    assert!(cu.has_prefix("E"));
    assert_eq!(cu.get_expansion("E").unwrap(), "");
    assert!(cu.get_curie_data("http://elsewhere.example/1").is_none());
}

#[test]
fn empty_identifier_matches_nothing() {
    let cu = TrieCurieUtil::default();
    assert!(cu.get_curie_data("").is_none());
}

#[test]
fn overlapping_expansions_take_shortest_match() {
    // One indexed expansion is a leading substring of another; the shortest
    // matching expansion is selected, deterministically.
    let table = pairs(&[("A", "ab"), ("AB", "abc")]);
    let cu = TrieCurieUtil::new(&table);

    let cp = cu.get_curie_data("abcd").unwrap();
    assert_eq!(cp.get_prefix(), "A");
    assert_eq!(cp.get_id(), "cd");
    assert_eq!(format!("{}{}", cu.get_expansion("A").unwrap(), cp.get_id()), "abcd");

    let cp = cu.get_curie_data("abcd").unwrap();
    assert_eq!(cp.get_prefix(), "A");
    assert_eq!(cp.get_id(), "cd");
}
