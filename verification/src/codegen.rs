//! The assertion attribute: writing the function back with its assertions in
//! front of its body.

use vstd::prelude::*;
use crate::lower::{assertion_parts, Assertion, Ir};
use crate::syntax::{attribute_texts, string_literal, texts_of_attributes, ItemFnView, StringLiteral};
use crate::text::{join, join_texts, terminated, terminated_texts};

verus! {

/// The generated code, as text.
pub type Rust = String;

/// The statement that asserts a condition, with the string literal that
/// holds its message.
pub open spec fn assertion_statement(expr: Seq<char>, literal: Seq<char>) -> Seq<char> {
    "assert!("@ + expr + ", "@ + literal + "); "@
}

/// The statements for a list of conditions and message literals, in order.
pub open spec fn assertion_statements(exprs: Seq<Seq<char>>, literals: Seq<Seq<char>>) -> Seq<char>
    decreases exprs.len(),
{
    if exprs.len() == 0 {
        Seq::empty()
    } else {
        assertion_statements(exprs.drop_last(), literals) + assertion_statement(
            exprs.last(),
            literals[exprs.len() - 1],
        )
    }
}

/// The function written back: its attributes, visibility and signature, then
/// a body that runs the assertions and then the original body.
pub open spec fn asserting_function(item: ItemFnView, exprs: Seq<Seq<char>>, literals: Seq<Seq<char>>) -> Seq<char> {
    terminated(attribute_texts(item.attrs), " "@) + item.vis + " "@ + item.sig + " { "@
        + assertion_statements(exprs, literals) + "{ "@ + join(item.stmts, " "@) + " } }"@
}

/// The function written back keeps its attributes, visibility and signature,
/// and after the assertions its whole original body, every statement in
/// order, as a nested block.
pub proof fn lemma_asserting_function_text(item: ItemFnView, exprs: Seq<Seq<char>>, literals: Seq<Seq<char>>)
    ensures
        asserting_function(item, exprs, literals) == terminated(attribute_texts(item.attrs), " "@) + item.vis + " "@
            + item.sig + " { "@ + assertion_statements(exprs, literals) + "{ "@ + join(item.stmts, " "@)
            + " } }"@,
        forall|i: int| 0 <= i < exprs.len() ==> assertion_statements(exprs, literals) == #[trigger] assertion_statements(
            exprs.take(i), literals) + "assert!("@ + exprs[i] + ", "@ + literals[i] + "); "@
            + assertion_statements(exprs, literals).skip(assertion_statements(exprs.take(i + 1), literals).len() as int),
{
    assert forall|i: int| 0 <= i < exprs.len() implies assertion_statements(exprs, literals) == #[trigger] assertion_statements(
        exprs.take(i), literals) + "assert!("@ + exprs[i] + ", "@ + literals[i] + "); "@
        + assertion_statements(exprs, literals).skip(assertion_statements(exprs.take(i + 1), literals).len() as int) by {
        lemma_statements_prefix(exprs, literals, i + 1);
        assert(exprs.take(i + 1).drop_last() =~= exprs.take(i));
        let whole = assertion_statements(exprs, literals);
        let first = assertion_statements(exprs.take(i + 1), literals);
        assert(whole =~= first + whole.skip(first.len() as int));
    }
}

/// The statements for the first `k` assertions begin the statements for all
/// of them.
proof fn lemma_statements_prefix(exprs: Seq<Seq<char>>, literals: Seq<Seq<char>>, k: int)
    requires
        0 <= k <= exprs.len(),
    ensures
        assertion_statements(exprs.take(k), literals).len() <= assertion_statements(exprs, literals).len(),
        assertion_statements(exprs, literals).take(assertion_statements(exprs.take(k), literals).len() as int)
            == assertion_statements(exprs.take(k), literals),
    decreases exprs.len() - k,
{
    if k == exprs.len() {
        assert(exprs.take(k) =~= exprs);
        let w = assertion_statements(exprs, literals);
        assert(w.take(w.len() as int) =~= w);
    } else {
        lemma_statements_prefix(exprs, literals, k + 1);
        assert(exprs.take(k + 1).drop_last() =~= exprs.take(k));
        let a = assertion_statements(exprs.take(k), literals);
        let b = assertion_statements(exprs.take(k + 1), literals);
        let w = assertion_statements(exprs, literals);
        assert(b.take(a.len() as int) =~= a);
        assert(w.take(a.len() as int) =~= w.take(b.len() as int).take(a.len() as int));
    }
}

/// The conditions of a list of assertions.
pub open spec fn conditions(a: Seq<Assertion>) -> Seq<Seq<char>> {
    a.map_values(|x: Assertion| x.expr@)
}

/// The texts of a list of string literals.
pub open spec fn literal_texts(literals: Seq<StringLiteral>) -> Seq<Seq<char>> {
    literals.map_values(|l: StringLiteral| l.text())
}

/// The statement for one assertion, with the literal that holds its message.
fn to_tokens(assertion: &Assertion, literal: &StringLiteral) -> (r: String)
    ensures
        r@ == assertion_statement(assertion.expr@, literal.text()),
{
    let mut r = String::from_str("assert!(");
    r.append(assertion.expr.as_str());
    r.append(", ");
    r.append(literal.as_str());
    r.append("); ");
    r
}

/// Writes the function back, with its assertions before its original body;
/// `literals` holds the string literal of each assertion's message.
pub fn write_function(ir: &Ir, literals: &Vec<StringLiteral>) -> (rust: Rust)
    requires
        literals.len() == ir.assertions.len(),
    ensures
        rust@ == asserting_function(ir.item@, conditions(ir.assertions@), literal_texts(literals@)),
        rust@ == terminated(attribute_texts(ir.item@.attrs), " "@) + ir.item@.vis + " "@ + ir.item@.sig + " { "@
            + assertion_statements(conditions(ir.assertions@), literal_texts(literals@)) + "{ "@
            + join(ir.item@.stmts, " "@) + " } }"@,
{
    proof {
        lemma_asserting_function_text(ir.item@, conditions(ir.assertions@), literal_texts(literals@));
    }
    let ghost exprs = conditions(ir.assertions@);
    let ghost lits = literal_texts(literals@);
    let mut rust = terminated_texts(&texts_of_attributes(&ir.item.attrs), " ");
    rust.append(ir.item.vis.as_str());
    rust.append(" ");
    rust.append(ir.item.sig.as_str());
    rust.append(" { ");
    let ghost head = rust@;
    let mut i: usize = 0;
    while i < ir.assertions.len()
        invariant
            i <= ir.assertions.len(),
            literals.len() == ir.assertions.len(),
            exprs == conditions(ir.assertions@),
            lits == literal_texts(literals@),
            rust@ == head + assertion_statements(exprs.take(i as int), lits),
        decreases ir.assertions.len() - i,
    {
        assert(exprs.take(i + 1).drop_last() =~= exprs.take(i as int));
        assert(exprs[i as int] == ir.assertions@[i as int].expr@);
        assert(lits[i as int] == literals@[i as int].text());
        rust.append(to_tokens(&ir.assertions[i], &literals[i]).as_str());
        i = i + 1;
    }
    assert(exprs.take(ir.assertions.len() as int) =~= exprs);
    rust.append("{ ");
    rust.append(join_texts(&ir.item.stmts, " ").as_str());
    rust.append(" } }");
    rust
}

/// Writes the function back, with its assertions before its original body.
/// Each message is written as the string literal that `proc_macro2` makes of
/// it.
pub fn codegen(ir: Ir) -> (rust: Rust)
    ensures
        exists|literals: Seq<StringLiteral>| {
            &&& literals.len() == ir.assertions.len()
            &&& forall|i: int| 0 <= i < literals.len() ==> #[trigger] literals[i].value() == ir.assertions@[i].message@
            &&& rust@ == #[trigger] asserting_function(ir.item@, conditions(ir.assertions@), literal_texts(literals))
        },
        exists|statements: Seq<char>| rust@ == terminated(attribute_texts(ir.item@.attrs), " "@) + ir.item@.vis + " "@
            + ir.item@.sig + " { "@ + statements + "{ "@ + join(ir.item@.stmts, " "@) + " } }"@,
{
    let mut literals: Vec<StringLiteral> = Vec::new();
    let mut i: usize = 0;
    while i < ir.assertions.len()
        invariant
            i <= ir.assertions.len(),
            literals.len() == i,
            forall|j: int| 0 <= j < i ==> #[trigger] literals@[j].value() == ir.assertions@[j].message@,
        decreases ir.assertions.len() - i,
    {
        literals.push(string_literal(ir.assertions[i].message.as_str()));
        i = i + 1;
    }
    let rust = write_function(&ir, &literals);
    assert(rust@ == asserting_function(ir.item@, conditions(ir.assertions@), literal_texts(literals@)));
    assert(rust@ == terminated(attribute_texts(ir.item@.attrs), " "@) + ir.item@.vis + " "@ + ir.item@.sig + " { "@
        + assertion_statements(conditions(ir.assertions@), literal_texts(literals@)) + "{ "@
        + join(ir.item@.stmts, " "@) + " } }"@);
    rust
}

} // verus!
