use tracing_attributes_http::server_send::parse::parse;
use tracing_attributes_http::diagnostic::Abort;
use tracing_attributes_http::syntax::{read_item, texts_of_attributes, ParsedItem};
use tracing_attributes_http::text::{is_whitespace, join_texts, split_text, terminated_texts, text_eq, trim_text};
use tracing_attributes_http::trace_field::{get_field, names_trace_field, take_trace_fields};

fn strings(v: &[&str]) -> Vec<String> {
    v.iter().map(|s| s.to_string()).collect()
}

#[test]
fn text_equality() {
    assert!(text_eq("trace_field", "trace_field"));
    assert!(!text_eq("trace_field", "trace_fields"));
    assert!(!text_eq("a", "b"));
    assert!(text_eq("", ""));
}

#[test]
fn joining() {
    assert_eq!("a, b, c", join_texts(&strings(&["a", "b", "c"]), ", "));
    assert_eq!("", join_texts(&strings(&[]), ", "));
    assert_eq!("a", join_texts(&strings(&["a"]), ", "));
    assert_eq!("a, b, ", terminated_texts(&strings(&["a", "b"]), ", "));
    assert_eq!("", terminated_texts(&strings(&[]), ", "));
}

#[test]
fn splitting_and_joining_back() {
    for s in ["", ",", "a", "a,b", ",a,,b,", " x , y "] {
        let pieces = split_text(s);
        assert_eq!(s.matches(',').count() + 1, pieces.len());
        assert!(pieces.iter().all(|p| !p.contains(',')));
        assert_eq!(s, join_texts(&pieces, ","));
        let expected: Vec<&str> = s.split(',').collect();
        assert_eq!(expected, pieces);
    }
}

#[test]
fn trimming() {
    assert_eq!("a b", trim_text("  a b \t\n"));
    assert_eq!("", trim_text(" \u{2028} "));
    for s in ["", " a", "b ", "\u{a0}c\u{3000}", "\u{1680}d\u{205f}e\u{202f}", "\u{200b}f"] {
        assert_eq!(s.trim(), trim_text(s));
    }
    for c in ['\t', '\n', '\u{b}', '\u{c}', '\r', ' ', '\u{85}', '\u{a0}', '\u{2000}', '\u{200a}', '\u{3000}', 'a', '\u{200b}', '\u{feff}'] {
        assert_eq!(c.is_whitespace(), is_whitespace(c));
    }
}

#[test]
fn taking_trace_fields() {
    let f = parse("level = Level::INFO", "#[trace_field(a)] #[inline] #[trace_field(b = 1)] fn f() {}").unwrap().unwrap();
    assert!(names_trace_field(&f.attrs[0]));
    assert!(!names_trace_field(&f.attrs[1]));
    assert_eq!(vec!["# [trace_field (a)]", "# [inline]", "# [trace_field (b = 1)]"], texts_of_attributes(&f.attrs));
    let (kept, fields) = take_trace_fields(
        parse("level = Level::INFO", "#[trace_field(a)] #[inline] #[trace_field(b = 1)] fn f() {}").unwrap().unwrap().attrs,
        false,
    )
    .unwrap();
    assert_eq!(vec!["# [inline]"], texts_of_attributes(&kept));
    assert_eq!(vec!["b = 1", "a"], fields);
    assert_eq!(Err(0), take_trace_fields(f.attrs, true).map(|_| ()));
}

#[test]
fn reading_a_field() {
    let mut fields = Vec::new();
    let compare = Some(("x == 1".to_string(), false));
    assert_eq!(Ok(()), get_field(&mut fields, 3, &compare, false));
    assert_eq!(Err(3), get_field(&mut fields, 3, &compare, true));
    assert_eq!(Ok(()), get_field(&mut fields, 4, &Some(("y = 2".to_string(), true)), true));
    assert_eq!(Err(5), get_field(&mut fields, 5, &None, false));
    assert_eq!(vec!["x == 1", "y = 2"], fields);
}

#[test]
fn reading_attribute_arguments() {
    let f = match read_item("#[a] #[b = 1] #[trace_field(x == 1)] #[trace_field(y = f(1, 2))] #[c(x) (y)] fn f() {}") {
        ParsedItem::Function(f) => f,
        _ => panic!("expected a function"),
    };
    let arguments: Vec<Option<(String, bool)>> = f.attrs.iter().map(|a| a.argument.clone()).collect();
    assert_eq!(
        vec![
            None,
            None,
            Some(("x == 1".to_string(), false)),
            Some(("y = f (1 , 2)".to_string(), true)),
            None,
        ],
        arguments
    );
    assert!(matches!(read_item("struct S;"), ParsedItem::NotFunction));
    assert!(matches!(read_item("fn"), ParsedItem::Unparsable));
}
