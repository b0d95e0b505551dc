use sopush::bytes::base_name;
use sopush::bytes::clean_lines;
use sopush::bytes::contains_bytes;
use sopush::bytes::dup;
use sopush::bytes::ends_with_bytes;
use sopush::bytes::eq_bytes;
use sopush::bytes::find_name;
use sopush::bytes::trim;

fn b(s: &str) -> Vec<u8> {
    s.as_bytes().to_vec()
}

#[test]
fn trim_strips_both_ends() {
    assert_eq!(trim(&b("  com.app \r")), b("com.app"));
    assert_eq!(trim(&b("x")), b("x"));
    assert_eq!(trim(&b("   ")), b(""));
    assert_eq!(trim(&b("")), b(""));
}

#[test]
fn clean_lines_trims_and_drops_empties() {
    let out = b("com.a-1\r\n\ncom.b-2\n   \ncom.c\n");
    assert_eq!(clean_lines(&out), vec![b("com.a-1"), b("com.b-2"), b("com.c")]);
}

#[test]
fn clean_lines_without_trailing_newline() {
    assert_eq!(clean_lines(&b("one\ntwo")), vec![b("one"), b("two")]);
    assert_eq!(clean_lines(&b("")), Vec::<Vec<u8>>::new());
}

#[test]
fn contains_finds_substrings() {
    assert!(contains_bytes(&b("com.example.app-xYz"), &b("com.example.app")));
    assert!(!contains_bytes(&b("com.other-1"), &b("com.example")));
    assert!(contains_bytes(&b("anything"), &b("")));
    assert!(!contains_bytes(&b("ab"), &b("abc")));
}

#[test]
fn ends_with_checks_suffix() {
    assert!(ends_with_bytes(&b("libfoo.so"), &b(".so")));
    assert!(!ends_with_bytes(&b("libfoo.so.txt"), &b(".so")));
    assert!(!ends_with_bytes(&b("o"), &b(".so")));
}

#[test]
fn base_name_takes_last_component() {
    assert_eq!(base_name(&b("/tmp/libx.so")), b("libx.so"));
    assert_eq!(base_name(&b("libx.so")), b("libx.so"));
    assert_eq!(base_name(&b("/tmp/dir/")), b(""));
}

#[test]
fn eq_and_dup() {
    assert!(eq_bytes(&b("abc"), &b("abc")));
    assert!(!eq_bytes(&b("abc"), &b("abd")));
    assert_eq!(dup(&b("abc")), b("abc"));
}

#[test]
fn find_name_takes_first_exact_match() {
    let names = vec![b("a.aar"), b("lib.aar"), b("lib.aar")];
    assert_eq!(find_name(&names, &b("lib.aar")), Some(1));
    assert_eq!(find_name(&names, &b("other.aar")), None);
}
