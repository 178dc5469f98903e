use tracing_attributes_http::diagnostic::Abort;
use tracing_attributes_http::lower::Assertion;
use tracing_attributes_http::server_send::parse::parse;
use tracing_attributes_http::syntax::ItemFn;
use tracing_attributes_http::{analyze, codegen, lower, Ir, Model};

fn item(text: &str) -> ItemFn {
    parse("level = Level::INFO", text).unwrap().unwrap()
}

#[test]
fn can_extract_trace_field() {
    let model = analyze(item("#[trace_field(x)] fn f(x: bool) {}")).unwrap();
    assert_eq!(vec!["x"], model.trace_fields);
    assert!(model.item.attrs.is_empty());
}

#[test]
fn non_dsl_attributes_are_preserved() {
    let model = analyze(item("#[a] #[trace_field(x)] #[b] fn f(x: bool) {}")).unwrap();
    let texts: Vec<&str> = model.item.attrs.iter().map(|a| a.text.as_str()).collect();
    assert_eq!(vec!["# [a]", "# [b]"], texts);
}

#[test]
fn produces_assertion_for_trace_field() {
    let mut model = Model { trace_fields: vec![], item: item("fn f() {}") };
    model.trace_fields.push("x".to_string());
    let ir = lower(model);
    assert_eq!(1, ir.assertions.len());
    let assertion = &ir.assertions[0];
    assert_eq!("x", assertion.expr);
    assert_eq!("violation of trace_field `x`", assertion.message);
}

#[test]
fn output_is_function_item() {
    let ir = Ir {
        assertions: vec![Assertion { expr: "x".to_string(), message: "message".to_string() }],
        item: item("fn f() {}"),
    };
    let rust = codegen(ir);
    assert!(syn::parse_str::<syn::ItemFn>(&rust).is_ok());
}

#[test]
fn assertions_come_before_body() {
    let model = analyze(item("#[trace_field(input % 2 == 0)] fn f(input: u32) { g(input); }")).unwrap();
    let rust = codegen(lower(model));
    let expected = " fn f (input : u32) { assert!(input % 2 == 0, \"violation of trace_field `input % 2 == 0`\"); { g (input) ; } }";
    assert_eq!(expected, rust);
    assert!(syn::parse_str::<syn::ItemFn>(&rust).is_ok());
}

#[test]
fn message_literal_is_escaped() {
    let model = analyze(item("#[trace_field(s == \"a\")] fn f(s: &str) {}")).unwrap();
    let rust = codegen(lower(model));
    assert!(rust.contains("\"violation of trace_field `s == \\\"a\\\"`\""));
    assert!(syn::parse_str::<syn::ItemFn>(&rust).is_ok());
}

#[test]
fn refusals() {
    assert_eq!(Some(Abort::NoTraceFields), analyze(item("#[a] fn f() {}")).err());
    assert_eq!(Some(Abort::TraceFieldNotExpression(1)), analyze(item("#[a] #[trace_field(struct)] fn f() {}")).err());
    assert_eq!(Some(Abort::TraceFieldNotExpression(0)), analyze(item("#[trace_field] fn f() {}")).err());
}
