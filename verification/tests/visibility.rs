use inherent::diagnostics::ErrorKind;
use inherent::visibility::{parse_visibility, VisibilityChoice};

fn toks(xs: &[&str]) -> Vec<String> {
    xs.iter().map(|x| x.to_string()).collect()
}

#[test]
fn empty_argument_is_default() {
    let r = parse_visibility(&Vec::new()).expect("empty is valid");
    assert_eq!(r, VisibilityChoice::EcosystemPrivate);
}

#[test]
fn pub_argument() {
    let r = parse_visibility(&toks(&["pub"])).expect("pub is valid");
    assert_eq!(r, VisibilityChoice::Public);
}

#[test]
fn crate_argument() {
    let r = parse_visibility(&toks(&["crate"])).expect("crate is valid");
    assert_eq!(r, VisibilityChoice::PackagePrivate);
}

#[test]
fn in_path_argument() {
    let r = parse_visibility(&toks(&["in", "path", "::", "to"])).expect("path is valid");
    assert_eq!(r, VisibilityChoice::ScopedToPath(vec!["path".to_string(), "to".to_string()]));
}

#[test]
fn in_single_segment() {
    let r = parse_visibility(&toks(&["in", "a"])).expect("one segment is valid");
    assert_eq!(r, VisibilityChoice::ScopedToPath(vec!["a".to_string()]));
}

#[test]
fn unrecognized_token_position_zero() {
    let d = parse_visibility(&toks(&["frob"])).expect_err("unrecognized");
    assert_eq!(d.kind, ErrorKind::MalformedVisibility);
    assert_eq!(d.position, 0);
}

#[test]
fn trailing_token_after_pub() {
    let d = parse_visibility(&toks(&["pub", "extra"])).expect_err("trailing token");
    assert_eq!(d.kind, ErrorKind::MalformedVisibility);
    assert_eq!(d.position, 1);
}

#[test]
fn in_without_path() {
    let d = parse_visibility(&toks(&["in"])).expect_err("missing path");
    assert_eq!(d.kind, ErrorKind::MalformedVisibility);
    assert_eq!(d.position, 1);
}

#[test]
fn in_with_dangling_separator() {
    let d = parse_visibility(&toks(&["in", "a", "::"])).expect_err("dangling separator");
    assert_eq!(d.kind, ErrorKind::MalformedVisibility);
    assert_eq!(d.position, 3);
}

#[test]
fn in_with_bad_separator() {
    let d = parse_visibility(&toks(&["in", "a", ".", "b"])).expect_err("bad separator");
    assert_eq!(d.kind, ErrorKind::MalformedVisibility);
    assert_eq!(d.position, 2);
}

#[test]
fn in_with_separator_as_segment() {
    let d = parse_visibility(&toks(&["in", "::"])).expect_err("separator is no segment");
    assert_eq!(d.kind, ErrorKind::MalformedVisibility);
    assert_eq!(d.position, 1);
}
