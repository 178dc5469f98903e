//! The assertion attribute: taking its `trace_field` attributes, each holding
//! a condition, out of the function.

use vstd::prelude::*;
use crate::diagnostic::Abort;
use crate::syntax::{ItemFn, ItemFnView};
use crate::trace_field::{
    extract_fields, field_argument, lemma_extract_fields_content, lemma_extract_fields_success, others,
    take_trace_fields, trace_fields, well_formed,
};
use crate::syntax::AttributeView;

verus! {

/// The annotated function.
pub type Ast = ItemFn;

/// The conditions that the `trace_field` attributes hold, and the function
/// without those attributes.
pub struct Model {
    /// The text of each condition, such as `x`.
    pub trace_fields: Vec<String>,
    pub item: ItemFn,
}

/// Takes the `trace_field` attributes out of the function, from the last to
/// the first, reading the expression that each holds. The conditions come in
/// the reverse order of their attributes; the other attributes stay, in their
/// order. A `trace_field` attribute without an expression is refused (the last
/// such one), and so is a function without any `trace_field` attribute.
pub fn analyze(ast: Ast) -> (r: Result<Model, Abort>)
    ensures
        match extract_fields(ast@.attrs, false) {
            Err(i) => r == Err::<Model, Abort>(Abort::TraceFieldNotExpression(i as usize)),
            Ok((kept, fields)) => if fields.len() == 0 {
                r == Err::<Model, Abort>(Abort::NoTraceFields)
            } else {
                r matches Ok(model) && model.trace_fields.deep_view() == fields
                    && model.item@ == (ItemFnView { attrs: kept, ..ast@ })
            },
        },
        r is Ok <==> (ast@.attrs.filter(trace_fields()).len() > 0
            && forall|i: int| 0 <= i < ast@.attrs.len() ==> #[trigger] well_formed(ast@.attrs[i], false)),
        r matches Ok(model) ==> {
            &&& model.item@.vis == ast@.vis
            &&& model.item@.sig == ast@.sig
            &&& model.item@.stmts == ast@.stmts
            &&& model.item@.attrs == ast@.attrs.filter(others())
            &&& model.trace_fields.deep_view() == ast@.attrs.filter(trace_fields()).map_values(
                |a: AttributeView| field_argument(a, false).unwrap(),
            ).reverse()
        },
{
    proof {
        lemma_extract_fields_success(ast@.attrs, false);
        if extract_fields(ast@.attrs, false) is Ok {
            lemma_extract_fields_content(ast@.attrs, false);
        }
    }
    let ItemFn { attrs, vis, sig, stmts } = ast;
    match take_trace_fields(attrs, false) {
        Err(i) => Err(Abort::TraceFieldNotExpression(i)),
        Ok((attrs, trace_fields)) => {
            if trace_fields.len() == 0 {
                Err(Abort::NoTraceFields)
            } else {
                Ok(Model { trace_fields, item: ItemFn { attrs, vis, sig, stmts } })
            }
        },
    }
}

} // verus!
