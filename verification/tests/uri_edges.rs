//! What URIs come to at their edges.

use limbo_util::error::LimboError;
use limbo_util::percent::decode_percent;
use limbo_util::uri::{
    is_windows_path, parse_query_params, parse_sqlite_uri, CacheMode, Mode, OpenFlags, OpenOptions,
};

fn complaint(uri: &str) -> String {
    match parse_sqlite_uri(uri) {
        Err(LimboError::InvalidArgument(message)) => message,
        other => panic!("{:?}", other),
    }
}

#[test]
fn percent_encoding_is_decoded() {
    assert_eq!(decode_percent("a%20b"), "a b");
    assert_eq!(decode_percent("%41%4a%4A"), "AJJ");
    assert_eq!(decode_percent("%e9"), "é");
    assert_eq!(decode_percent("%25%32%30"), "%20");
    assert_eq!(decode_percent(""), "");
    assert_eq!(decode_percent("plain é"), "plain é");
}

#[test]
fn what_is_no_percent_encoding_stays() {
    assert_eq!(decode_percent("%zz"), "%zz");
    assert_eq!(decode_percent("%4g1"), "%4g1");
    assert_eq!(decode_percent("%é1x"), "%é1x");
    assert_eq!(decode_percent("%-1"), "%-1");
    assert_eq!(decode_percent("%%41"), "%%41");
    assert_eq!(decode_percent("%+f"), "\u{f}");
    assert_eq!(decode_percent("%++"), "%++");
}

#[test]
fn a_percent_sign_near_the_end_stands_alone() {
    assert_eq!(decode_percent("%"), "%");
    assert_eq!(decode_percent("a%"), "a%");
    assert_eq!(decode_percent("a%4"), "a%");
    assert_eq!(decode_percent("%20%"), " %");
}

#[test]
fn decoding_gives_back_what_was_encoded() {
    let text: String = (0u8..=255).map(|b| b as char).collect();
    let encoded: String = text.chars().map(|c| format!("%{:02X}", c as u32)).collect();
    assert_eq!(decode_percent(&encoded), text);
    let uri = format!("file:{}", encoded);
    assert_eq!(parse_sqlite_uri(&uri).unwrap().path, text);
}

#[test]
fn encodings_of_either_case_with_text_around_them() {
    assert_eq!(decode_percent("%c3%C3%aF%Af"), "\u{c3}\u{c3}\u{af}\u{af}");
    assert_eq!(decode_percent("a%2fb%2Fc%zz%"), "a/b/c%zz%");
    for rest in ["", "x", "%", "%4", "%41"] {
        let after = decode_percent(rest);
        assert_eq!(decode_percent(&format!("plain{}", rest)), format!("plain{}", after));
        assert_eq!(decode_percent(&format!("%e9{}", rest)), format!("é{}", after));
    }
}

#[test]
fn a_fragment_changes_nothing_but_itself() {
    let uri = "file://localhost/a%20b?mode=ro&vfs=v";
    for (fragment, wanted) in [("", None), ("f", Some("f")), ("a#%62?c=d", Some("a#b?c=d"))] {
        let with_fragment = format!("{}#{}", uri, fragment);
        let mut opts = parse_sqlite_uri(&with_fragment).unwrap();
        assert_eq!(opts.fragment, wanted.map(|w: &str| w.to_string()));
        opts.fragment = None;
        assert_eq!(opts, parse_sqlite_uri(uri).unwrap());
    }
    assert_eq!(complaint("file:x?mode=bad#f"), complaint("file:x?mode=bad"));
}

#[test]
fn joined_queries_say_what_both_say() {
    for (first, second) in [("vfs=a&mode=ro", "vfs=b"), ("", "mode=rw"), ("cache=shared", "&")] {
        let mut joined = OpenOptions::default();
        let mut one_by_one = OpenOptions::default();
        parse_query_params(&format!("{}&{}", first, second), &mut joined).unwrap();
        parse_query_params(first, &mut one_by_one).unwrap();
        parse_query_params(second, &mut one_by_one).unwrap();
        assert_eq!(joined, one_by_one);
    }
}

#[test]
fn modes_ignore_case_and_white_space() {
    assert_eq!(Mode::from_str("ro").unwrap(), Mode::ReadOnly);
    assert_eq!(Mode::from_str(" RW\t").unwrap(), Mode::ReadWrite);
    assert_eq!(Mode::from_str("\u{a0}Memory\u{3000}").unwrap(), Mode::Memory);
    assert_eq!(Mode::from_str("rwC\n").unwrap(), Mode::ReadWriteCreate);
    assert_eq!(Mode::from_lowercase("RW"), None);
    assert_eq!(Mode::from_lowercase("rwc"), Some(Mode::ReadWriteCreate));
    assert!(Mode::from_str("r w").is_err());
}

#[test]
fn a_mode_that_is_none_is_named() {
    assert_eq!(
        complaint("file:x?mode= Read "),
        "Invalid mode: ' Read '. Expected one of 'ro', 'rw', 'memory', 'rwc'"
    );
    assert_eq!(
        complaint("file:x?mode=%72o"),
        "Invalid mode: '%72o'. Expected one of 'ro', 'rw', 'memory', 'rwc'"
    );
}

#[test]
fn an_authority_that_is_not_allowed_is_named() {
    assert_eq!(
        complaint("file://example.com/x"),
        "Invalid authority 'example.com'. Only '' or 'localhost' allowed."
    );
    assert_eq!(
        complaint("file://LOCALHOST/x"),
        "Invalid authority 'LOCALHOST'. Only '' or 'localhost' allowed."
    );
    assert_eq!(
        complaint("file://x?mode=bad"),
        "Invalid mode: 'bad'. Expected one of 'ro', 'rw', 'memory', 'rwc'"
    );
}

#[test]
fn only_one_mode_creates() {
    assert_eq!(Mode::ReadOnly.get_flags(), OpenFlags::Empty);
    assert_eq!(Mode::ReadWrite.get_flags(), OpenFlags::Empty);
    assert_eq!(Mode::Memory.get_flags(), OpenFlags::Empty);
    assert_eq!(Mode::ReadWriteCreate.get_flags(), OpenFlags::Create);
    assert_eq!(Mode::default(), Mode::ReadWriteCreate);
}

#[test]
fn cache_modes_that_are_unknown_are_private() {
    assert_eq!(CacheMode::from("private"), CacheMode::Private);
    assert_eq!(CacheMode::from("shared"), CacheMode::Shared);
    assert_eq!(CacheMode::from("SHARED"), CacheMode::Private);
    assert_eq!(CacheMode::from(""), CacheMode::Private);
}

#[test]
fn the_later_parameter_decides_and_the_order_does_not_matter() {
    let opts = parse_sqlite_uri("file:x?vfs=a&mode=ro&vfs=b&mode=rw").unwrap();
    assert_eq!(opts.vfs, Some("b".to_string()));
    assert_eq!(opts.mode, Mode::ReadWrite);
    let other = parse_sqlite_uri("file:x?mode=rw&vfs=b").unwrap();
    assert_eq!(opts, other);
}

#[test]
fn parameters_without_a_value_say_nothing() {
    let opts = parse_sqlite_uri("file:x?mode&&=ro&vfs&MODE=bad&Vfs=y").unwrap();
    assert_eq!(opts.mode, Mode::ReadWriteCreate);
    assert_eq!(opts.vfs, None);
    let opts = parse_sqlite_uri("file:x?vfs=&modeof=a%20b&immutable=%31").unwrap();
    assert_eq!(opts.vfs, Some(String::new()));
    assert_eq!(opts.modeof, Some("a b".to_string()));
    assert_eq!(opts.immutable, Some(true));
    assert_eq!(parse_sqlite_uri("file:x?immutable=yes").unwrap().immutable, Some(false));
}

#[test]
fn parameters_before_the_wrong_one_are_taken_over() {
    let mut opts = OpenOptions::default();
    assert!(parse_query_params("vfs=a&mode=bad&vfs=b", &mut opts).is_err());
    assert_eq!(opts.vfs, Some("a".to_string()));
    assert_eq!(opts.mode, Mode::ReadWriteCreate);
}

#[test]
fn fragments_come_first() {
    let opts = parse_sqlite_uri("file:x#f?mode=bad").unwrap();
    assert_eq!(opts.path, "x");
    assert_eq!(opts.fragment, Some("f?mode=bad".to_string()));
    assert_eq!(opts.mode, Mode::ReadWriteCreate);
    assert_eq!(parse_sqlite_uri("file:x#").unwrap().fragment, None);
    assert_eq!(
        parse_sqlite_uri("file:x#a#%62").unwrap().fragment,
        Some("a#b".to_string())
    );
}

#[test]
fn a_query_may_hold_question_marks() {
    let opts = parse_sqlite_uri("file:x?vfs=a?b").unwrap();
    assert_eq!(opts.path, "x");
    assert_eq!(opts.vfs, Some("a?b".to_string()));
}

#[test]
fn texts_without_the_scheme_are_paths() {
    let opts = parse_sqlite_uri("FILE:x?mode=ro#f").unwrap();
    assert_eq!(opts.path, "FILE:x?mode=ro#f");
    assert_eq!(opts.mode, Mode::ReadWriteCreate);
    assert_eq!(opts.fragment, None);
    assert_eq!(parse_sqlite_uri("").unwrap(), OpenOptions::default());
    assert_eq!(parse_sqlite_uri("a%20b").unwrap().path, "a%20b");
}

#[test]
fn slashes_after_an_authority() {
    let opts = parse_sqlite_uri("file:///").unwrap();
    assert_eq!(opts.path, "");
    assert_eq!(opts.authority, None);
    assert_eq!(parse_sqlite_uri("file://localhost/a//b").unwrap().path, "/a//b");
    assert_eq!(parse_sqlite_uri("file:////a").unwrap().path, "//a");
    assert_eq!(parse_sqlite_uri("file://").unwrap().path, "");
    assert_eq!(parse_sqlite_uri("file:/").unwrap().path, "/");
}

#[test]
fn drive_letters() {
    assert!(is_windows_path("C:/"));
    assert!(is_windows_path("é:/x"));
    assert!(!is_windows_path("C:"));
    assert!(!is_windows_path("C:\\"));
    assert!(!is_windows_path("/C:/"));
}
