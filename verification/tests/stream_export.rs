use uniffi_dart::stream_export::{parse_stream_runtime, stream_names, stream_names_from, AttrToken, StreamAttrError};

fn ident(s: &str) -> AttrToken {
    AttrToken::Ident(s.to_string())
}

fn string(s: &str) -> AttrToken {
    AttrToken::Str(s.to_string())
}

#[test]
fn no_arguments_name_no_runtime() {
    assert_eq!(parse_stream_runtime(&vec![]), Ok(None));
    assert_eq!(parse_stream_runtime(&vec![AttrToken::Comma]), Ok(None));
}

#[test]
fn runtime_argument_is_read() {
    let ts = vec![AttrToken::Comma, ident("runtime"), AttrToken::Eq, string("async-std")];
    assert_eq!(parse_stream_runtime(&ts), Ok(Some("async-std".to_string())));
    let trailing = vec![AttrToken::Comma, ident("runtime"), AttrToken::Eq, string("tokio"), AttrToken::Comma];
    assert_eq!(parse_stream_runtime(&trailing), Ok(Some("tokio".to_string())));
}

#[test]
fn malformed_arguments_are_refused() {
    let other = vec![AttrToken::Comma, ident("executor"), AttrToken::Eq, string("x")];
    assert_eq!(parse_stream_runtime(&other), Err(StreamAttrError::ExpectedRuntime));
    let twice = vec![
        AttrToken::Comma,
        ident("runtime"),
        AttrToken::Eq,
        string("a"),
        AttrToken::Comma,
        ident("runtime"),
        AttrToken::Eq,
        string("b"),
    ];
    assert_eq!(parse_stream_runtime(&twice), Err(StreamAttrError::DuplicateRuntime));
    assert_eq!(parse_stream_runtime(&vec![AttrToken::Comma, ident("runtime")]), Err(StreamAttrError::ExpectedEq));
    assert_eq!(
        parse_stream_runtime(&vec![AttrToken::Comma, ident("runtime"), AttrToken::Eq, ident("tokio")]),
        Err(StreamAttrError::ExpectedString)
    );
    assert_eq!(parse_stream_runtime(&vec![AttrToken::Comma, string("runtime")]), Err(StreamAttrError::ExpectedIdent));
    assert_eq!(parse_stream_runtime(&vec![AttrToken::Other]), Err(StreamAttrError::UnexpectedToken));
}

#[test]
fn names_of_an_exported_stream() {
    let n = stream_names_from("CountUp", "count_up", None);
    assert_eq!(n.struct_name, "CountUpStreamExt");
    assert_eq!(n.create_fn_name, "create_stream_count_up");
    assert_eq!(n.runtime, "tokio");
    let m = stream_names("count_up", Some("async-std".to_string()));
    assert_eq!(m.struct_name, "CountUpStreamExt");
    assert_eq!(m.runtime, "async-std");
}
