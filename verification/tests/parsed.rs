use tracing_attributes_http::diagnostic::{Abort, Grammar};
use tracing_attributes_http::server_send::parse::ArgsCheck;
use tracing_attributes_http::server_send::parsed::{parse, parse_args, TaskAttributes};

fn attrs(skip: Option<&str>, fields: Option<&str>) -> TaskAttributes {
    TaskAttributes {
        level: None,
        name: None,
        skip: skip.map(|s| s.to_string()),
        fields: fields.map(|s| s.to_string()),
    }
}

#[test]
fn skip_params_split_and_trim() {
    let t = attrs(Some("a, b ,c"), None);
    assert_eq!(vec!["a", "b", "c"], t.skip_params());
    assert!(t.fields_params().is_empty());
}

#[test]
fn fields_params_split_and_trim() {
    let t = attrs(None, Some(" data1,\tdata2\n, ,"));
    assert_eq!(vec!["data1", "data2", "", ""], t.fields_params());
    assert!(t.skip_params().is_empty());
}

#[test]
fn empty_list_is_one_empty_param() {
    assert_eq!(vec![""], attrs(Some(""), None).skip_params());
    assert_eq!(vec!["x y"], attrs(Some("\u{3000} x y\u{a0}"), None).skip_params());
}

#[test]
fn params_agree_with_std() {
    for s in ["a,b", "  ", ",,", " a b , c\u{2003}", "\u{85}x\u{200b}"] {
        let expected: Vec<String> = s.split(',').map(|p| p.trim().to_owned()).collect();
        assert_eq!(expected, attrs(Some(s), None).skip_params());
    }
}

#[test]
fn four_argument_grammar() {
    assert_eq!(Ok(ArgsCheck::Accepted), parse_args("a = 1, b = 2, c = 3, d = 4"));
    assert_eq!(Err(Abort::NoArguments(Grammar::Arguments)), parse_args(""));
    assert_eq!(Some(Err(Abort::NoArguments(Grammar::Arguments))), parse("", "fn").map(|r| r.map(|_| ())));
    assert_eq!(Err(Abort::ArrayArgument(Grammar::Arguments, 0)), parse_args("[a]"));
    assert_eq!(
        "this attribute takes from one to four arguments",
        Abort::OtherArgument(Grammar::Arguments, 0).message()
    );
    assert_eq!(
        Err(Abort::TooManyArguments(Grammar::Arguments)),
        parse_args("a = 1, b = 2, c = 3, d = 4, e = 5")
    );
    assert_eq!(
        "this attribute takes from one to four arguments",
        Abort::TooManyArguments(Grammar::Arguments).message()
    );
    assert!(parse("level = trace", "fn f() {}").unwrap().is_ok());
    assert_eq!(Some(Abort::NotAFunction), parse("level = trace", "struct S;").unwrap().err());
    assert!(parse("a = 1, b = 2, c = 3, d = 4", "fn f() {}").unwrap().is_ok());
    assert!(parse("a = 1", "fn").is_none());
    assert_eq!(
        Some(Err(Abort::OtherArgument(Grammar::Arguments, 0))),
        parse("a", "fn").map(|r| r.map(|_| ()))
    );
    assert_eq!(
        Some(Err(Abort::TooManyArguments(Grammar::Arguments))),
        parse("a = 1, b = 2, c = 3, d = 4, e = 5", "fn f() {}").map(|r| r.map(|_| ()))
    );
}
