//! Attribute instrumentation for HTTP server functions: the argument
//! checking, attribute extraction, lowering and code generation behind the
//! `server_send` attribute, working on the token text of its inputs.

use vstd::prelude::*;
use crate::diagnostic::{Abort, Grammar};
use crate::server_send::analyze::{analyze_outcome, settings_of};
use crate::server_send::codegen::{generated, instrumented_function, lemma_standard_fields_and_body, STANDARD_FIELDS_REST};
use crate::server_send::analyze::lemma_analysis_keeps_function;
use crate::server_send::parse::{args_outcome, lemma_accepted_all_assignments, ArgsCheck};
use crate::text::join;
use crate::server_send::lower::lower_ir;
use crate::server_send::parse::{accept_function, args_view, check_arguments, parse_outcome, Args};
use crate::syntax::{read_item, ArgumentView, AttributeView, ItemFnView, ParsedItem, ParsedItemView};
use crate::trace_field::{field_argument, lemma_extract_fields_content, others, trace_fields, well_formed};

pub use analyze::{analyze, Model};
pub use codegen::codegen;
pub use lower::{lower, Ir};

pub mod analyze;
pub mod codegen;
pub mod diagnostic;
pub mod lower;
pub mod server_send;
pub mod syntax;
pub mod text;
pub mod trace_field;

verus! {

/// What the `server_send` attribute makes of the arguments and the item as
/// they were read: the arguments are checked and the item taken
/// (`server_send::parse`), analysed (`server_send::analyze`), lowered
/// (`server_send::lower`) and written back (`server_send::codegen`); a refusal
/// of any of them is the attribute's answer. `None` where the arguments pass
/// their check and the item's text is no item.
pub open spec fn expansion(args: Option<Seq<ArgumentView>>, item: ParsedItemView) -> Option<Result<Seq<char>, Abort>> {
    match args {
        None => Some(Err(Abort::InvalidArguments)),
        Some(vars) => match parse_outcome(args, item, Grammar::Assignments) {
            None => None,
            Some(Err(e)) => Some(Err(e)),
            Some(Ok(ast)) => match analyze_outcome(ast, vars) {
                Err(e) => Some(Err(e)),
                Ok(model) => Some(Ok(generated(lower_ir(model)))),
            },
        },
    }
}

/// The view of what the attribute answers.
pub open spec fn text_outcome(r: Option<Result<String, Abort>>) -> Option<Result<Seq<char>, Abort>> {
    match r {
        None => None,
        Some(Ok(text)) => Some(Ok(text@)),
        Some(Err(e)) => Some(Err(e)),
    }
}

/// A function that the attribute accepts is written back with its other
/// attributes, in their order, with one span field for each of its
/// `trace_field` attributes, from the last to the first, and with the level,
/// name and skipped parameters that the arguments set.
pub proof fn lemma_expansion_content(args: Option<Seq<ArgumentView>>, item: ParsedItemView)
    requires
        expansion(args, item) matches Some(Ok(_)),
    ensures
        args matches Some(vars) && item matches ParsedItemView::Function(f)
            && expansion(args, item) == Some(
            Ok::<Seq<char>, Abort>(
                instrumented_function(
                    ItemFnView { attrs: f.attrs.filter(others()), ..f },
                    settings_of(vars).level,
                    settings_of(vars).name,
                    settings_of(vars).skip,
                    f.attrs.filter(trace_fields()).map_values(
                        |a: AttributeView| field_argument(a, true).unwrap(),
                    ).reverse(),
                ),
            ),
        ),
{
    if let ParsedItemView::Function(f) = item {
        lemma_extract_fields_content(f.attrs, true);
    }
}

/// The attribute writes a function back exactly where one to three arguments
/// were read, each an assignment, the item is a function, and every one of
/// its `trace_field` attributes holds an assignment. What it writes carries
/// the standard span fields with the name that the arguments set, and then
/// the function's visibility, signature and every statement of its body.
pub proof fn lemma_expansion_law(args: Option<Seq<ArgumentView>>, item: ParsedItemView)
    ensures
        expansion(args, item) matches Some(Ok(_)) <==> {
            &&& args matches Some(vars)
            &&& 1 <= vars.len() <= 3
            &&& forall|i: int| 0 <= i < vars.len() ==> #[trigger] vars[i] is Assign
            &&& item matches ParsedItemView::Function(f)
            &&& forall|i: int| 0 <= i < f.attrs.len() ==> #[trigger] well_formed(f.attrs[i], true)
        },
        expansion(args, item) matches Some(Ok(text)) ==> (args matches Some(vars)
            && item matches ParsedItemView::Function(f)
            && exists|head: Seq<char>| text == head + "otel.name = "@ + settings_of(vars).name
                + STANDARD_FIELDS_REST@ + ")))]"@ + " "@ + f.vis + " "@ + f.sig + " { "@
                + join(f.stmts, " "@) + " }"@),
{
    if let Some(vars) = args {
        lemma_first_bad_only_accepts(vars, 0);
        if args_outcome(args, Grammar::Assignments) == Ok::<ArgsCheck, Abort>(ArgsCheck::Accepted) {
            lemma_accepted_all_assignments(vars, Grammar::Assignments, 0);
        }
        if 1 <= vars.len() <= 3 && forall|i: int| 0 <= i < vars.len() ==> #[trigger] vars[i] is Assign {
            lemma_first_bad_all_assign(vars, 0);
            assert(args_outcome(args, Grammar::Assignments) == Ok::<ArgsCheck, Abort>(ArgsCheck::Accepted));
        }
        assert(args_outcome(args, Grammar::Assignments) is Ok <==> (1 <= vars.len() <= 3
            && forall|i: int| 0 <= i < vars.len() ==> #[trigger] vars[i] is Assign));
        if let ParsedItemView::Function(f) = item {
            lemma_analysis_keeps_function(f, vars);
            if let Ok(m) = crate::server_send::analyze::analyze_outcome(f, vars) {
                lemma_standard_fields_and_body(lower_ir(m));
            }
        }
    }
}

/// The check from index `i` on either accepts or refuses.
proof fn lemma_first_bad_only_accepts(vars: Seq<ArgumentView>, i: int)
    requires
        0 <= i,
    ensures
        crate::server_send::parse::first_bad_argument(vars, Grammar::Assignments, i) is Ok
            ==> crate::server_send::parse::first_bad_argument(vars, Grammar::Assignments, i)
            == Ok::<ArgsCheck, Abort>(ArgsCheck::Accepted),
    decreases vars.len() - i,
{
    if i < vars.len() {
        lemma_first_bad_only_accepts(vars, i + 1);
    }
}

/// Where every argument from index `i` on is an assignment, the check from
/// there on accepts.
proof fn lemma_first_bad_all_assign(vars: Seq<ArgumentView>, i: int)
    requires
        0 <= i,
        forall|j: int| 0 <= j < vars.len() ==> #[trigger] vars[j] is Assign,
    ensures
        crate::server_send::parse::first_bad_argument(vars, Grammar::Assignments, i)
            == Ok::<ArgsCheck, Abort>(ArgsCheck::Accepted),
    decreases vars.len() - i,
{
    if i < vars.len() {
        assert(vars[i] is Assign);
        lemma_first_bad_all_assign(vars, i + 1);
    }
}

/// The `server_send` attribute on the arguments and the item as they were
/// read: checks the arguments and takes the item, analyses it, lowers it and
/// writes it back. `None` where the arguments pass their check and the
/// item's text is no item.
pub fn expand(args: Option<Args>, item: ParsedItem) -> (r: Option<Result<String, Abort>>)
    ensures
        text_outcome(r) == expansion(args_view(args), item@),
        r matches Some(Ok(text)) ==> (args matches Some(a) && item matches ParsedItem::Function(f)
            && 1 <= a.vars.len() <= 3
            && exists|head: Seq<char>| text@ == head + "otel.name = "@ + settings_of(a@).name
                + STANDARD_FIELDS_REST@ + ")))]"@ + " "@ + f@.vis + " "@ + f@.sig + " { "@
                + join(f@.stmts, " "@) + " }"@),
{
    proof {
        lemma_expansion_law(args_view(args), item@);
    }
    let meta_args = match args {
        Some(a) => a,
        None => return Some(Err(Abort::InvalidArguments)),
    };
    let args = Some(meta_args);
    if check_arguments(&args, Grammar::Assignments).is_ok() && item.is_unparsable() {
        return None;
    }
    let ast = match accept_function(&args, item, Grammar::Assignments) {
        Ok(ast) => ast,
        Err(e) => return Some(Err(e)),
    };
    let meta_args = match args {
        Some(a) => a,
        None => return None,
    };
    let model = match server_send::analyze(ast, meta_args) {
        Ok(model) => model,
        Err(e) => return Some(Err(e)),
    };
    let ir = server_send::lower(model);
    Some(Ok(server_send::codegen(ir)))
}

/// Instruments a function for tracing as a server span: the attribute's
/// arguments (such as `level = Level::INFO, name = "Server::encode",
/// skip = [dst, msg]`) are read, the function's `trace_field` attributes
/// become span fields, and the function is written back under a
/// `tracing::instrument` attribute.
///
/// Takes the token text of the attribute's arguments and of the item, reads
/// them, and answers as `expand` does on what was read.
pub fn server_send(metadata: &str, item: &str) -> (r: Option<Result<String, Abort>>)
    ensures
        exists|args: Option<Seq<ArgumentView>>, read: ParsedItemView|
            text_outcome(r) == #[trigger] expansion(args, read),
        metadata@.len() == 0 ==> r == Some(Err::<String, Abort>(Abort::NoArguments(Grammar::Assignments))),
{
    let args = Args::parse(metadata);
    let read = read_item(item);
    let ghost args_read = args_view(args);
    let ghost item_read = read@;
    let r = expand(args, read);
    assert(text_outcome(r) == expansion(args_read, item_read));
    r
}

} // verus!
