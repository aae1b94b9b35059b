//! URIs of databases.

use limbo_util::uri::{parse_sqlite_uri, CacheMode, Mode};

#[test]
fn test_simple_uri() {
    let uri = "file:/home/user/db.sqlite";
    let opts = parse_sqlite_uri(uri).unwrap();
    assert_eq!(opts.path, "/home/user/db.sqlite");
    assert_eq!(opts.authority, None);
}

#[test]
fn test_uri_with_authority() {
    let uri = "file://localhost/home/user/db.sqlite";
    let opts = parse_sqlite_uri(uri).unwrap();
    assert_eq!(opts.path, "/home/user/db.sqlite");
    assert_eq!(opts.authority, Some("localhost"));
}

#[test]
fn test_uri_with_invalid_authority() {
    let uri = "file://example.com/home/user/db.sqlite";
    let result = parse_sqlite_uri(uri);
    assert!(result.is_err());
}

#[test]
fn test_uri_with_query_params() {
    let uri = "file:/home/user/db.sqlite?vfs=unix&mode=ro&immutable=1";
    let opts = parse_sqlite_uri(uri).unwrap();
    assert_eq!(opts.path, "/home/user/db.sqlite");
    assert_eq!(opts.vfs, Some("unix".to_string()));
    assert_eq!(opts.mode, Mode::ReadOnly);
    assert_eq!(opts.immutable, Some(true));
}

#[test]
fn test_uri_with_fragment() {
    let uri = "file:/home/user/db.sqlite#section1";
    let opts = parse_sqlite_uri(uri).unwrap();
    assert_eq!(opts.path, "/home/user/db.sqlite");
    assert_eq!(opts.fragment, Some("section1".to_string()));
}

#[test]
fn test_uri_with_percent_encoding() {
    let uri = "file:/home/user/db%20with%20spaces.sqlite?vfs=unix";
    let opts = parse_sqlite_uri(uri).unwrap();
    assert_eq!(opts.path, "/home/user/db with spaces.sqlite");
    assert_eq!(opts.vfs, Some("unix".to_string()));
}

#[test]
fn test_uri_without_scheme() {
    let uri = "/home/user/db.sqlite";
    let result = parse_sqlite_uri(uri);
    assert!(result.is_ok());
    assert_eq!(result.unwrap().path, "/home/user/db.sqlite");
}

#[test]
fn test_uri_with_empty_query() {
    let uri = "file:/home/user/db.sqlite?";
    let opts = parse_sqlite_uri(uri).unwrap();
    assert_eq!(opts.path, "/home/user/db.sqlite");
    assert_eq!(opts.vfs, None);
}

#[test]
fn test_uri_with_partial_query() {
    let uri = "file:/home/user/db.sqlite?mode=rw";
    let opts = parse_sqlite_uri(uri).unwrap();
    assert_eq!(opts.path, "/home/user/db.sqlite");
    assert_eq!(opts.mode, Mode::ReadWrite);
    assert_eq!(opts.vfs, None);
}

#[test]
fn test_uri_windows_style_path() {
    let uri = "file:///C:/Users/test/db.sqlite";
    let opts = parse_sqlite_uri(uri).unwrap();
    assert_eq!(opts.path, "/C:/Users/test/db.sqlite");
}

#[test]
fn test_uri_with_only_query_params() {
    let uri = "file:?mode=memory&cache=shared";
    let opts = parse_sqlite_uri(uri).unwrap();
    assert_eq!(opts.path, "");
    assert_eq!(opts.mode, Mode::Memory);
    assert_eq!(opts.cache, Some(CacheMode::Shared));
}

#[test]
fn test_uri_with_only_fragment() {
    let uri = "file:#fragment";
    let opts = parse_sqlite_uri(uri).unwrap();
    assert_eq!(opts.path, "");
    assert_eq!(opts.fragment, Some("fragment".to_string()));
}

#[test]
fn test_uri_with_invalid_scheme() {
    let uri = "http:/home/user/db.sqlite";
    let result = parse_sqlite_uri(uri);
    assert!(result.is_ok());
    assert_eq!(result.unwrap().path, "http:/home/user/db.sqlite");
}

#[test]
fn test_uri_with_multiple_query_params() {
    let uri = "file:/home/user/db.sqlite?vfs=unix&mode=rw&cache=private&immutable=0";
    let opts = parse_sqlite_uri(uri).unwrap();
    assert_eq!(opts.path, "/home/user/db.sqlite");
    assert_eq!(opts.vfs, Some("unix".to_string()));
    assert_eq!(opts.mode, Mode::ReadWrite);
    assert_eq!(opts.cache, Some(CacheMode::Private));
    assert_eq!(opts.immutable, Some(false));
}

#[test]
fn test_uri_with_unknown_query_param() {
    let uri = "file:/home/user/db.sqlite?unknown=param";
    let opts = parse_sqlite_uri(uri).unwrap();
    assert_eq!(opts.path, "/home/user/db.sqlite");
    assert_eq!(opts.vfs, None);
}

#[test]
fn test_uri_with_multiple_equal_signs() {
    let uri = "file:/home/user/db.sqlite?vfs=unix=custom";
    let opts = parse_sqlite_uri(uri).unwrap();
    assert_eq!(opts.path, "/home/user/db.sqlite");
    assert_eq!(opts.vfs, Some("unix=custom".to_string()));
}

#[test]
fn test_uri_with_trailing_slash() {
    let uri = "file:/home/user/db.sqlite/";
    let opts = parse_sqlite_uri(uri).unwrap();
    assert_eq!(opts.path, "/home/user/db.sqlite/");
}

#[test]
fn test_uri_with_encoded_characters_in_query() {
    let uri = "file:/home/user/db.sqlite?vfs=unix%20mode";
    let opts = parse_sqlite_uri(uri).unwrap();
    assert_eq!(opts.path, "/home/user/db.sqlite");
    assert_eq!(opts.vfs, Some("unix mode".to_string()));
}

#[test]
fn test_uri_windows_network_path() {
    let uri = "file://server/share/db.sqlite";
    let result = parse_sqlite_uri(uri);
    assert!(result.is_err()); // non-localhost authority should fail
}

#[test]
fn test_uri_windows_drive_letter_with_slash() {
    let uri = "file:///C:/database.sqlite";
    let opts = parse_sqlite_uri(uri).unwrap();
    assert_eq!(opts.path, "/C:/database.sqlite");
}

#[test]
fn test_localhost_with_double_slash_and_no_path() {
    let uri = "file://localhost";
    let opts = parse_sqlite_uri(uri).unwrap();
    assert_eq!(opts.path, "");
    assert_eq!(opts.authority, Some("localhost"));
}

#[test]
fn test_uri_windows_drive_letter_without_slash() {
    let uri = "file:///C:/database.sqlite";
    let opts = parse_sqlite_uri(uri).unwrap();
    assert_eq!(opts.path, "/C:/database.sqlite");
}

#[test]
fn test_improper_mode() {
    // any other mode but ro, rwc, rw, memory should fail per sqlite

    let uri = "file:data.db?mode=readonly";
    let res = parse_sqlite_uri(uri);
    assert!(res.is_err());
    // including empty
    let uri = "file:/home/user/db.sqlite?vfs=&mode=";
    let res = parse_sqlite_uri(uri);
    assert!(res.is_err());
}

// Some examples from https://www.sqlite.org/c3ref/open.html#urifilenameexamples
#[test]
fn test_simple_file_current_dir() {
    let uri = "file:data.db";
    let opts = parse_sqlite_uri(uri).unwrap();
    assert_eq!(opts.path, "data.db");
    assert_eq!(opts.authority, None);
    assert_eq!(opts.vfs, None);
    assert_eq!(opts.mode, Mode::ReadWriteCreate);
}

#[test]
fn test_simple_file_three_slash() {
    let uri = "file:///home/data/data.db";
    let opts = parse_sqlite_uri(uri).unwrap();
    assert_eq!(opts.path, "/home/data/data.db");
    assert_eq!(opts.authority, None);
    assert_eq!(opts.vfs, None);
    assert_eq!(opts.mode, Mode::ReadWriteCreate);
}

#[test]
fn test_simple_file_two_slash_localhost() {
    let uri = "file://localhost/home/fred/data.db";
    let opts = parse_sqlite_uri(uri).unwrap();
    assert_eq!(opts.path, "/home/fred/data.db");
    assert_eq!(opts.authority, Some("localhost"));
    assert_eq!(opts.vfs, None);
}

#[test]
fn test_windows_double_invalid() {
    let uri = "file://C:/home/fred/data.db?mode=ro";
    let opts = parse_sqlite_uri(uri);
    assert!(opts.is_err());
}

#[test]
fn test_simple_file_two_slash() {
    let uri = "file:///C:/Documents%20and%20Settings/fred/Desktop/data.db";
    let opts = parse_sqlite_uri(uri).unwrap();
    assert_eq!(opts.path, "/C:/Documents and Settings/fred/Desktop/data.db");
    assert_eq!(opts.vfs, None);
}
