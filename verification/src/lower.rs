//! The assertion attribute: one assertion for each condition.

use vstd::prelude::*;
use crate::analyze::Model;
use crate::syntax::ItemFn;

verus! {

/// The assertions, and the function they go into.
pub struct Ir {
    pub assertions: Vec<Assertion>,
    pub item: ItemFn,
}

/// A condition, and the message that its failure reports.
pub struct Assertion {
    pub expr: String,
    pub message: String,
}

/// The message reported where a condition does not hold.
pub open spec fn violation_message(expr: Seq<char>) -> Seq<char> {
    "violation of trace_field `"@ + expr + "`"@
}

/// The condition and message of each assertion.
pub open spec fn assertion_parts(a: Seq<Assertion>) -> Seq<(Seq<char>, Seq<char>)> {
    a.map_values(|x: Assertion| (x.expr@, x.message@))
}

/// The assertion for one condition.
fn assertion_for(expr: &String) -> (a: Assertion)
    ensures
        a.expr@ == expr@,
        a.message@ == violation_message(expr@),
{
    let mut message = String::from_str("violation of trace_field `");
    message.append(expr.as_str());
    message.append("`");
    Assertion { expr: expr.clone(), message }
}

/// One assertion for each condition, in order, with the message
/// "violation of trace_field `<condition>`"; the function as it is.
pub fn lower(model: Model) -> (ir: Ir)
    ensures
        assertion_parts(ir.assertions@) == model.trace_fields.deep_view().map_values(
            |e: Seq<char>| (e, violation_message(e)),
        ),
        ir.item@ == model.item@,
{
    let Model { trace_fields, item } = model;
    let ghost want = trace_fields.deep_view().map_values(|e: Seq<char>| (e, violation_message(e)));
    let mut assertions: Vec<Assertion> = Vec::new();
    let mut i: usize = 0;
    while i < trace_fields.len()
        invariant
            i <= trace_fields.len(),
            want == trace_fields.deep_view().map_values(|e: Seq<char>| (e, violation_message(e))),
            assertions.len() == i,
            assertion_parts(assertions@) == want.take(i as int),
        decreases trace_fields.len() - i,
    {
        let ghost prev = assertions@;
        let a = assertion_for(&trace_fields[i]);
        assertions.push(a);
        assert(want[i as int] == (trace_fields@[i as int]@, violation_message(trace_fields@[i as int]@)));
        assert forall|j: int| 0 <= j < i + 1 implies #[trigger] assertion_parts(assertions@)[j] == want.take(i + 1)[j] by {
            if j < i {
                assert(assertions@[j] == prev[j]);
                assert(assertion_parts(prev)[j] == want.take(i as int)[j]);
            }
        }
        assert(assertion_parts(assertions@) =~= want.take(i + 1));
        i = i + 1;
    }
    assert(want.take(trace_fields.len() as int) =~= want);
    Ir { assertions, item }
}

} // verus!
