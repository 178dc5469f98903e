//! Writing the function back under a `tracing::instrument` attribute.

use vstd::prelude::*;
use crate::server_send::lower::{field_texts, Field, Ir, IrView};
use crate::syntax::{attribute_texts, texts_of_attributes, ItemFnView};
use crate::text::{join, join_texts, terminated, terminated_texts};

verus! {

/// The generated code, as text.
pub type Rust = String;

/// The `skip(..)` argument of the span attribute; nothing where no parameter
/// is skipped.
pub open spec fn skip_clause(skip: Seq<Seq<char>>) -> Seq<char> {
    if skip.len() == 0 {
        Seq::empty()
    } else {
        "skip("@ + join(skip, ", "@) + "), "@
    }
}

/// The fields that every span gets, after the custom ones: the standard
/// OpenTelemetry ones, with the span's name, then the HTTP and network ones.
pub open spec fn standard_fields(name: Seq<char>) -> Seq<char> {
    "otel.name = "@ + name + STANDARD_FIELDS_REST@
}

/// The fixed part of the standard fields.
pub const STANDARD_FIELDS_REST: &'static str = ", otel.kind = ?opentelemetry::trace::SpanKind::Server, otel.status_code = ?opentelemetry::trace::StatusCode::Unset, otel.status_message = tracing::field::Empty, otel.library.name = \"tracing-attributes-http\", http.host = tracing::field::Empty, http.method = tracing::field::Empty, http.scheme = tracing::field::Empty, http.target = tracing::field::Empty, http.url = tracing::field::Empty, net.peer.ip = tracing::field::Empty, net.peer.name = tracing::field::Empty, net.peer.port = tracing::field::Empty, http.flavor = tracing::field::Empty, http.request_content_length = tracing::field::Empty, net.transport = \"IP.TCP\",";

/// The span attribute, under the `tracing` feature: level, name, the skipped
/// parameters where there are any, then the custom fields and the standard
/// ones.
pub open spec fn instrument_attribute(
    level: Seq<char>,
    name: Seq<char>,
    skip: Seq<Seq<char>>,
    fields: Seq<Seq<char>>,
) -> Seq<char> {
    "#[cfg_attr(feature = \"tracing\", tracing::instrument(level = "@ + level + ", name = "@ + name
        + ", "@ + skip_clause(skip) + "fields("@ + terminated(fields, ", "@) + standard_fields(name)
        + ")))]"@
}

/// The function written back: its own attributes, the span attribute, then
/// the visibility, signature and statements.
pub open spec fn instrumented_function(
    item: ItemFnView,
    level: Seq<char>,
    name: Seq<char>,
    skip: Seq<Seq<char>>,
    fields: Seq<Seq<char>>,
) -> Seq<char> {
    terminated(attribute_texts(item.attrs), " "@) + instrument_attribute(level, name, skip, fields)
        + " "@ + item.vis + " "@ + item.sig + " { "@ + join(item.stmts, " "@) + " }"@
}

/// The text that the code generation writes for what was lowered.
pub open spec fn generated(ir: IrView) -> Seq<char> {
    instrumented_function(ir.item, ir.level, ir.name, ir.skip, ir.fields)
}

/// The head of the span attribute: the feature gate, the level and the name.
pub open spec fn span_head(level: Seq<char>, name: Seq<char>) -> Seq<char> {
    "#[cfg_attr(feature = \"tracing\", tracing::instrument(level = "@ + level + ", name = "@ + name + ", "@
}

/// The written function, spelled out: the function's own attributes, the
/// span attribute (level, name, the skipped parameters where there are any,
/// the custom fields, then `otel.name` with the span's name and the fixed
/// standard fields), then the visibility, the signature and every statement
/// of the body, in order.
pub proof fn lemma_generated_text(ir: IrView)
    ensures
        generated(ir) == terminated(attribute_texts(ir.item.attrs), " "@) + span_head(ir.level, ir.name)
            + (if ir.skip.len() == 0 { Seq::empty() } else { "skip("@ + join(ir.skip, ", "@) + "), "@ })
            + "fields("@ + terminated(ir.fields, ", "@) + "otel.name = "@ + ir.name + STANDARD_FIELDS_REST@
            + ")))]"@ + " "@ + ir.item.vis + " "@ + ir.item.sig + " { "@ + join(ir.item.stmts, " "@) + " }"@,
{
    let attrs = terminated(attribute_texts(ir.item.attrs), " "@);
    let skip = if ir.skip.len() == 0 { Seq::<char>::empty() } else { "skip("@ + join(ir.skip, ", "@) + "), "@ };
    assert(skip == skip_clause(ir.skip));
    let attribute = instrument_attribute(ir.level, ir.name, ir.skip, ir.fields);
    assert(attribute =~= span_head(ir.level, ir.name) + skip + "fields("@ + terminated(ir.fields, ", "@)
        + "otel.name = "@ + ir.name + STANDARD_FIELDS_REST@ + ")))]"@);
    assert(generated(ir) =~= attrs + span_head(ir.level, ir.name) + skip + "fields("@
        + terminated(ir.fields, ", "@) + "otel.name = "@ + ir.name + STANDARD_FIELDS_REST@ + ")))]"@ + " "@
        + ir.item.vis + " "@ + ir.item.sig + " { "@ + join(ir.item.stmts, " "@) + " }"@);
}

/// Every written span carries the standard fields: `otel.name` with the
/// span's name, then the fixed OpenTelemetry, HTTP and network fields, which
/// close the attribute; and the function keeps its whole body after it.
pub proof fn lemma_standard_fields_and_body(ir: IrView)
    ensures
        exists|head: Seq<char>| generated(ir) == head + "otel.name = "@ + ir.name + STANDARD_FIELDS_REST@ + ")))]"@
            + " "@ + ir.item.vis + " "@ + ir.item.sig + " { "@ + join(ir.item.stmts, " "@) + " }"@,
        STANDARD_FIELDS_REST@ == ", otel.kind = ?opentelemetry::trace::SpanKind::Server, otel.status_code = ?opentelemetry::trace::StatusCode::Unset, otel.status_message = tracing::field::Empty, otel.library.name = \"tracing-attributes-http\", http.host = tracing::field::Empty, http.method = tracing::field::Empty, http.scheme = tracing::field::Empty, http.target = tracing::field::Empty, http.url = tracing::field::Empty, net.peer.ip = tracing::field::Empty, net.peer.name = tracing::field::Empty, net.peer.port = tracing::field::Empty, http.flavor = tracing::field::Empty, http.request_content_length = tracing::field::Empty, net.transport = \"IP.TCP\","@,
{
    lemma_generated_text(ir);
    let head = terminated(attribute_texts(ir.item.attrs), " "@) + span_head(ir.level, ir.name)
        + (if ir.skip.len() == 0 { Seq::empty() } else { "skip("@ + join(ir.skip, ", "@) + "), "@ })
        + "fields("@ + terminated(ir.fields, ", "@);
    assert(generated(ir) == head + "otel.name = "@ + ir.name + STANDARD_FIELDS_REST@ + ")))]"@ + " "@
        + ir.item.vis + " "@ + ir.item.sig + " { "@ + join(ir.item.stmts, " "@) + " }"@);
}

/// The text of each field.
fn texts_of_fields(fields: &Vec<Field>) -> (r: Vec<String>)
    ensures
        r.deep_view() == field_texts(fields@),
{
    let ghost want = field_texts(fields@);
    let mut r: Vec<String> = Vec::new();
    let mut i: usize = 0;
    while i < fields.len()
        invariant
            i <= fields.len(),
            want == field_texts(fields@),
            r.len() == i,
            r.deep_view() == want.take(i as int),
        decreases fields.len() - i,
    {
        let ghost prev = r.deep_view();
        r.push(fields[i].expr.clone());
        assert(want[i as int] == fields@[i as int].expr@);
        assert(r.deep_view() =~= prev.push(want[i as int]));
        assert(want.take(i + 1) =~= want.take(i as int).push(want[i as int]));
        i = i + 1;
    }
    assert(want.take(fields.len() as int) =~= want);
    r
}

/// The `skip(..)` argument of the span attribute.
fn skip_argument(skip: &Vec<String>) -> (r: String)
    ensures
        r@ == skip_clause(skip.deep_view()),
{
    // When no skip values are given, do not insert `skip(...)`
    if skip.len() == 0 {
        let r = String::new();
        assert(r@ =~= skip_clause(skip.deep_view()));
        r
    } else {
        let mut r = String::from_str("skip(");
        r.append(join_texts(skip, ", ").as_str());
        r.append("), ");
        r
    }
}

/// The span attribute.
fn span_attribute(level: &String, name: &String, skip: &Vec<String>, fields: &Vec<String>) -> (r: String)
    ensures
        r@ == instrument_attribute(level@, name@, skip.deep_view(), fields.deep_view()),
{
    let mut r = String::from_str("#[cfg_attr(feature = \"tracing\", tracing::instrument(level = ");
    r.append(level.as_str());
    r.append(", name = ");
    r.append(name.as_str());
    r.append(", ");
    r.append(skip_argument(skip).as_str());
    r.append("fields(");
    r.append(terminated_texts(fields, ", ").as_str());
    let mut standard = String::from_str("otel.name = ");
    standard.append(name.as_str());
    standard.append(STANDARD_FIELDS_REST);
    r.append(standard.as_str());
    r.append(")))]");
    r
}

/// Writes the function back under the span attribute. The `skip(..)`
/// argument is left out where no parameter is skipped.
pub fn codegen(ir: Ir) -> (rust: Rust)
    ensures
        rust@ == generated(ir@),
        rust@ == terminated(attribute_texts(ir@.item.attrs), " "@) + span_head(ir@.level, ir@.name)
            + (if ir@.skip.len() == 0 { Seq::empty() } else { "skip("@ + join(ir@.skip, ", "@) + "), "@ })
            + "fields("@ + terminated(ir@.fields, ", "@) + "otel.name = "@ + ir@.name + STANDARD_FIELDS_REST@
            + ")))]"@ + " "@ + ir@.item.vis + " "@ + ir@.item.sig + " { "@ + join(ir@.item.stmts, " "@) + " }"@,
{
    proof {
        lemma_generated_text(ir@);
    }
    let Ir { fields, item, level, name, skip } = ir;
    let fields = texts_of_fields(&fields);
    let mut rust = terminated_texts(&texts_of_attributes(&item.attrs), " ");
    rust.append(span_attribute(&level, &name, &skip, &fields).as_str());
    rust.append(" ");
    rust.append(item.vis.as_str());
    rust.append(" ");
    rust.append(item.sig.as_str());
    rust.append(" { ");
    rust.append(join_texts(&item.stmts, " ").as_str());
    rust.append(" }");
    rust
}

} // verus!
