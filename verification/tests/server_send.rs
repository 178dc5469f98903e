use tracing_attributes_http::diagnostic::{Abort, Grammar};
use tracing_attributes_http::server_send;
use tracing_attributes_http::server_send::codegen::codegen;
use tracing_attributes_http::server_send::lower::{lower, Field, Ir};
use tracing_attributes_http::server_send::parse::{parse, parse_args, Args, ArgsCheck};
use tracing_attributes_http::server_send::{analyze, Model};
use tracing_attributes_http::syntax::ItemFn;

fn item(text: &str) -> ItemFn {
    parse("level = Level::INFO", text).unwrap().unwrap()
}

fn no_args() -> Args {
    Args::parse("").unwrap()
}

fn stub() -> Model {
    Model {
        fields: vec![],
        item: item("fn f() {}"),
        level: "Level::TRACE".to_string(),
        name: "\"server_send\"".to_string(),
        skip: vec![],
    }
}

fn expands(metadata: &str, text: &str) -> String {
    match server_send(metadata, text) {
        Some(Ok(rust)) => rust,
        other => panic!("expected an expansion, got {:?}", other.map(|r| r.err())),
    }
}

fn refusal(metadata: &str, text: &str) -> Abort {
    match server_send(metadata, text) {
        Some(Err(e)) => e,
        other => panic!("expected a refusal, got {:?}", other.map(|r| r.is_ok())),
    }
}

#[test]
fn analyze_can_extract_trace_field() {
    let model = analyze(item("#[trace_field(x = 0)] fn f(x: bool) {}"), no_args()).unwrap();
    let expected: Vec<String> = vec!["x = 0".to_string()];
    assert_eq!(expected, model.fields);
    assert!(model.item.attrs.is_empty());
}

#[test]
fn analyze_non_dsl_attributes_are_preserved() {
    let model = analyze(item("#[a] #[trace_field(x = 0)] #[b] fn f(x: bool) {}"), no_args()).unwrap();
    let texts: Vec<&str> = model.item.attrs.iter().map(|a| a.text.as_str()).collect();
    assert_eq!(vec!["# [a]", "# [b]"], texts);
}

#[test]
fn produces_expression_for_field() {
    let mut model = stub();
    model.fields.push("x=0".to_string());
    let ir = lower(model);
    assert_eq!(1, ir.fields.len());
    let field = &ir.fields[0];
    assert_eq!("x=0", field.expr);
}

#[test]
fn produces_expression_for_level() {
    let mut model = stub();
    model.level = "Level::DEBUG".to_string();
    let ir = lower(model);
    assert_eq!("Level::DEBUG", ir.level);
}

#[test]
fn produces_expression_for_skip() {
    let mut model = stub();
    model.skip = vec!["a".to_string(), "b".to_string(), "c".to_string()];
    let ir = lower(model);
    assert_eq!(vec!["a", "b", "c"], ir.skip);
}

#[test]
fn codegen_output_is_function_item() {
    let ir = Ir {
        fields: vec![Field { expr: "x=0".to_string() }],
        item: item("fn f() {}"),
        level: "Level::TRACE".to_string(),
        name: "\"some_test\"".to_string(),
        skip: vec!["a".to_string(), "b".to_string(), "c".to_string()],
    };
    let rust = codegen(ir);
    assert!(syn::parse_str::<syn::ItemFn>(&rust).is_ok());
}

#[test]
fn pass() {
    // `#[server_send]` with no argument, over `fn f(input: bool) -> i32 { 0 }`
    // with `#[trace_field(input)]`: the argument check refuses it.
    assert_eq!(
        Abort::NoArguments(Grammar::Assignments),
        refusal("", "#[trace_field(input)] fn f(input: bool) -> i32 { 0 }")
    );
}

#[test]
fn server_send_ui_cases() {
    // error cases
    assert_eq!(Abort::OtherArgument(Grammar::Assignments, 0), refusal("trace, \"Some\"", "struct S;"));
    assert_eq!(
        Abort::TooManyArguments(Grammar::Assignments),
        refusal("level=trace, name=\"B\", skip=\"self\", target=\"bulls-eye\"", "fn f(a: u32) -> u32 {a}")
    );
    assert_eq!(
        Abort::OtherArgument(Grammar::Assignments, 0),
        refusal("trace, \"B\", skip(self)", "fn f(a: u32) -> u32 { a }")
    );
    assert_eq!(
        Abort::OtherArgument(Grammar::Assignments, 0),
        refusal("trace, \"Server\"", "#[trace_field(b)] fn f() {}")
    );
    assert_eq!(
        Abort::NoArguments(Grammar::Assignments),
        refusal("", "#[allow(unused_braces)] fn f(a: u32) -> u32 { a }")
    );
    assert_eq!(Abort::OtherArgument(Grammar::Assignments, 0), refusal("input % 2", "fn f(self) {}"));
    // passing cases
    let level = "#[allow(unused_variables)] #[trace_field(var = 0)] \
        fn f(i: u32, n: u32, put: u32) -> u32 { let var = i; put }";
    for metadata in ["level = Level::INFO", "level = Level::DEBUG, name = \"Some\", skip = \"input\""] {
        let rust = expands(metadata, level);
        assert!(syn::parse_str::<syn::ItemFn>(&rust).is_ok());
    }
}

#[test]
fn expansion_writes_span_attribute() {
    let rust = expands(
        "level = Level::INFO, name = \"Server::encode\", skip = [dst, msg]",
        "#[inline] #[trace_field(x = 0)] pub fn traced(x: u32) -> u32 { x }",
    );
    let f = syn::parse_str::<syn::ItemFn>(&rust).unwrap();
    assert_eq!(2, f.attrs.len());
    let span = quote::ToTokens::to_token_stream(&f.attrs[1]).to_string();
    assert!(span.contains("level = Level :: INFO"));
    assert!(span.contains("name = \"Server::encode\""));
    assert!(span.contains("skip (dst , msg)"));
    assert!(span.contains("x = 0 ,"));
    assert!(span.contains("otel . name = \"Server::encode\""));
    assert!(!rust.contains("trace_field"));
}

#[test]
fn defaults_without_settings() {
    let model = analyze(item("fn f() {}"), Args::parse("target = 1").unwrap()).unwrap();
    assert_eq!("Level :: DEBUG", model.level);
    assert_eq!("\"server_end\"", model.name);
    assert!(model.skip.is_empty());
    let rust = codegen(lower(model));
    assert!(!rust.contains("skip("));
    assert!(syn::parse_str::<syn::ItemFn>(&rust).is_ok());
}

#[test]
fn last_setting_wins() {
    let args = Args::parse("level = Level::INFO, name = \"a\", level = Level::WARN, skip = [x], name = 3, skip = \"y\"").unwrap();
    let model = analyze(item("fn f() {}"), args).unwrap();
    assert_eq!("Level :: WARN", model.level);
    assert_eq!("3", model.name);
    assert_eq!(vec!["x"], model.skip);
}

#[test]
fn settings_of_wrong_kind_are_ignored() {
    let args = Args::parse("level = \"INFO\", name = Name, skip = x, other = [y], level::<u8> = Level::INFO").unwrap();
    let model = analyze(item("fn f() {}"), args).unwrap();
    assert_eq!("Level :: DEBUG", model.level);
    assert_eq!("\"server_end\"", model.name);
    assert!(model.skip.is_empty());
    let model = analyze(item("fn f() {}"), Args::parse("level::x = Level::WARN").unwrap()).unwrap();
    assert_eq!("Level :: WARN", model.level);
}

#[test]
fn fields_come_last_to_first() {
    let model = analyze(
        item("#[trace_field(a = 1)] #[x] #[trace_field(b = 2)] #[y] fn f() {}"),
        no_args(),
    )
    .unwrap();
    assert_eq!(vec!["b = 2", "a = 1"], model.fields);
    let texts: Vec<&str> = model.item.attrs.iter().map(|a| a.text.as_str()).collect();
    assert_eq!(vec!["# [x]", "# [y]"], texts);
}

#[test]
fn trace_field_without_assignment_is_refused() {
    let r = analyze(item("#[trace_field(a)] #[x] #[trace_field(b)] fn f() {}"), no_args());
    assert_eq!(Some(Abort::TraceFieldNotAssignment(2)), r.err());
    assert_eq!(
        Abort::TraceFieldNotAssignment(0),
        refusal("level = Level::INFO", "#[trace_field(b)] fn f() {}")
    );
    assert_eq!(
        Abort::TraceFieldNotAssignment(0),
        refusal("level = Level::INFO", "#[trace_field = 1] fn f() {}")
    );
}

#[test]
fn argument_check() {
    assert_eq!(Ok(ArgsCheck::Accepted), parse_args("level = Level::INFO"));
    assert_eq!(Ok(ArgsCheck::Accepted), parse_args("a = 1, b = 2, c = 3"));
    assert_eq!(Err(Abort::TooManyArguments(Grammar::Assignments)), parse_args("a = 1, b = 2, c = 3, d = 4"));
    assert_eq!(Err(Abort::NoArguments(Grammar::Assignments)), parse_args(""));
    assert_eq!(Err(Abort::ArrayArgument(Grammar::Assignments, 1)), parse_args("a = 1, [b]"));
    assert_eq!(Err(Abort::OtherArgument(Grammar::Assignments, 1)), parse_args("a = 1, b"));
    assert_eq!(Ok(ArgsCheck::Unparsable), parse_args("a = "));
    assert_eq!(Abort::InvalidArguments, refusal("a = ", "fn f() {}"));
}

#[test]
fn item_must_be_a_function() {
    assert_eq!(Some(Abort::NotAFunction), parse("level = Level::INFO", "struct S;").unwrap().err());
    assert!(parse("level = Level::INFO", "fn").is_none());
    assert_eq!(Abort::NotAFunction, refusal("level = Level::INFO", "struct S;"));
    assert!(server_send("level = Level::INFO", "fn").is_none());
    assert_eq!(Abort::NoArguments(Grammar::Assignments), refusal("", "fn"));
}

#[test]
fn item_parts_are_read() {
    let f = item("#[a] pub fn f(x: u32) -> u32 { let y = x; y }");
    assert_eq!("pub", f.vis);
    assert_eq!("fn f (x : u32) -> u32", f.sig);
    assert_eq!(vec!["let y = x ;", "y"], f.stmts);
    assert_eq!(Some("a".to_string()), f.attrs[0].ident);
    assert_eq!("", f.attrs[0].tokens);
}

#[test]
fn messages_and_help() {
    assert_eq!("this attribute takes from one to three assign arguments", Abort::NoArguments(Grammar::Assignments).message());
    assert_eq!("item is not a function", Abort::NotAFunction.message());
    assert_eq!(Some("example: `#[trace_field(argument = 0)]`"), Abort::TraceFieldNotAssignment(0).help());
    assert_eq!(None, Abort::InvalidArguments.help());
}
