use tracing_attributes_http::codegen;
use tracing_attributes_http::diagnostic::{Abort, Grammar};
use tracing_attributes_http::expand;
use tracing_attributes_http::lower::Assertion;
use tracing_attributes_http::server_send::parse::{accept_function, check_arguments, Args, ArgsCheck};
use tracing_attributes_http::syntax::{argument_from, attribute_with, Argument, Attribute, ExprShape, ItemFn, ParsedItem};
use tracing_attributes_http::Ir;

fn s(t: &str) -> String {
    t.to_string()
}

fn assign(key: &str, value: &str, value_shape: ExprShape) -> Argument {
    Argument::Assign { key: Some((s(key), true)), value: s(value), value_shape }
}

fn attribute(ident: &str, argument: Option<(&str, bool)>) -> Attribute {
    Attribute {
        text: format!("# [{} (..)]", ident),
        ident: Some(s(ident)),
        tokens: s("(..)"),
        argument: argument.map(|(e, a)| (s(e), a)),
    }
}

fn function(attrs: Vec<Attribute>) -> ItemFn {
    ItemFn { attrs, vis: s("pub"), sig: s("fn f ()"), stmts: vec![s("g () ;")] }
}

#[test]
fn checking_arguments_as_read() {
    let three = Some(Args { vars: vec![assign("a", "1", ExprShape::Lit), assign("b", "2", ExprShape::Lit), assign("c", "3", ExprShape::Lit)] });
    assert_eq!(Ok(ArgsCheck::Accepted), check_arguments(&three, Grammar::Assignments));
    let five = Some(Args { vars: (0..5).map(|_| assign("a", "1", ExprShape::Lit)).collect() });
    assert_eq!(Err(Abort::TooManyArguments(Grammar::Assignments)), check_arguments(&five, Grammar::Assignments));
    assert_eq!(Err(Abort::TooManyArguments(Grammar::Arguments)), check_arguments(&five, Grammar::Arguments));
    let mixed = Some(Args { vars: vec![assign("a", "1", ExprShape::Lit), Argument::Other, Argument::Array] });
    assert_eq!(Err(Abort::OtherArgument(Grammar::Arguments, 1)), check_arguments(&mixed, Grammar::Arguments));
    assert_eq!(Ok(ArgsCheck::Unparsable), check_arguments(&None, Grammar::Arguments));
    assert_eq!(Err(Abort::NoArguments(Grammar::Arguments)), check_arguments(&Some(Args { vars: vec![] }), Grammar::Arguments));
}

#[test]
fn accepting_a_function() {
    let args = Some(Args { vars: vec![assign("level", "Level :: INFO", ExprShape::Path(None))] });
    assert!(accept_function(&args, ParsedItem::Function(function(vec![])), Grammar::Assignments).is_ok());
    assert_eq!(
        Some(Abort::NotAFunction),
        accept_function(&args, ParsedItem::NotFunction, Grammar::Assignments).err()
    );
    assert_eq!(
        Some(Abort::NoArguments(Grammar::Assignments)),
        accept_function(&Some(Args { vars: vec![] }), ParsedItem::Unparsable, Grammar::Assignments).err()
    );
}

#[test]
fn expanding_what_was_read() {
    let args = Some(Args {
        vars: vec![
            assign("level", "Level :: INFO", ExprShape::Path(None)),
            assign("skip", "[a , b]", ExprShape::Array(vec![s("a"), s("b")])),
            assign("name", "\"n\"", ExprShape::Lit),
        ],
    });
    let item = function(vec![
        attribute("trace_field", Some(("x = 0", true))),
        attribute("inline", None),
        attribute("trace_field", Some(("y = 1", true))),
    ]);
    let rust = expand(args, ParsedItem::Function(item)).unwrap().unwrap();
    let expected = "# [inline (..)] #[cfg_attr(feature = \"tracing\", tracing::instrument(level = Level :: INFO, \
        name = \"n\", skip(a, b), fields(y = 1, x = 0, otel.name = \"n\"";
    assert!(rust.starts_with(expected), "{}", rust);
    assert!(rust.ends_with(")))] pub fn f () { g () ; }"), "{}", rust);
    assert!(syn::parse_str::<syn::ItemFn>(&rust).is_ok());

    let refused = function(vec![attribute("trace_field", Some(("x", false)))]);
    let args = Some(Args { vars: vec![assign("level", "L", ExprShape::Path(None))] });
    assert_eq!(Some(Err(Abort::TraceFieldNotAssignment(0))), expand(args, ParsedItem::Function(refused)));
    assert_eq!(Some(Err(Abort::InvalidArguments)), expand(None, ParsedItem::Unparsable));
    let args = Some(Args { vars: vec![assign("level", "L", ExprShape::Path(None))] });
    assert_eq!(None, expand(args, ParsedItem::Unparsable));
}

#[test]
fn writing_with_literals() {
    let ir = Ir {
        assertions: vec![
            Assertion { expr: s("x"), message: s("m") },
            Assertion { expr: s("y"), message: s("n \"q\"") },
        ],
        item: function(vec![]),
    };
    let rust = codegen(ir);
    assert_eq!("pub fn f () { assert!(x, \"m\"); assert!(y, \"n \\\"q\\\"\"); { g () ; } }", rust);
}

#[test]
fn building_from_readings() {
    let shape = ExprShape::Assign { left: s("level"), right: s("Level :: INFO") };
    match argument_from(shape, ExprShape::Path(Some((s("level"), true))), ExprShape::Path(None)) {
        Argument::Assign { key, value, value_shape } => {
            assert_eq!(Some((s("level"), true)), key);
            assert_eq!("Level :: INFO", value);
            assert!(matches!(value_shape, ExprShape::Path(None)));
        }
        _ => panic!("expected an assignment"),
    }
    let shape = ExprShape::Assign { left: s("a . b"), right: s("1") };
    assert!(matches!(
        argument_from(shape, ExprShape::Other, ExprShape::Lit),
        Argument::Assign { key: None, value_shape: ExprShape::Lit, .. }
    ));
    assert!(matches!(argument_from(ExprShape::Array(vec![]), ExprShape::Lit, ExprShape::Lit), Argument::Array));
    assert!(matches!(argument_from(ExprShape::Lit, ExprShape::Lit, ExprShape::Lit), Argument::Other));
    let a = attribute_with(&attribute("trace_field", None), Some((s("x = 1"), true)));
    assert_eq!(Some((s("x = 1"), true)), a.argument);
    assert_eq!("# [trace_field (..)]", a.text);
    assert_eq!("(..)", a.tokens);
}
