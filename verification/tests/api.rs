use curieosa::CurieParts;
use curieosa::CuriePrefix;
use curieosa::CurieUtil;

#[test]
fn curie_util_is_object_safe() {
    // A test that should not compile unless `CurieUtil` is object safe!
    let _a: Option<&dyn CurieUtil> = None;
}

#[test]
fn curie_parts_accessors() {
    let cp = CuriePrefix::from("HP");
    let parts = CurieParts::new(cp, "1234567");

    assert_eq!(parts.get_prefix(), "HP");
    assert_eq!(parts.get_id(), "1234567");
}

#[test]
fn curie_parts_from_util_prefix() {
    let cp = CuriePrefix::FromCurieUtil(String::from("GO"));
    let parts = CurieParts::new(cp, "0008150");

    assert_eq!(parts.get_prefix(), "GO");
    assert_eq!(parts.get_id(), "0008150");
}
