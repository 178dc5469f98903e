//! Why an attribute refuses its input, and what it says when it does.

use vstd::prelude::*;

verus! {

/// The two argument grammars of the `server_send` attribute, which word their
/// refusals differently.
#[derive(Debug, Clone, Copy, PartialEq, Eq, Structural)]
pub enum Grammar {
    /// One to three assignments (`server_send::parse`).
    Assignments,
    /// One to four assignments (`server_send::parsed`).
    Arguments,
}

/// A refusal. Each variant names the input that it points at: the call site,
/// the argument at an index of the attribute's argument list, or the
/// attribute at an index of the item's attribute list.
#[derive(Debug, Clone, Copy, PartialEq, Eq, Structural)]
pub enum Abort {
    /// The attribute was given no argument (at the call site).
    NoArguments(Grammar),
    /// The attribute was given more arguments than its grammar takes (at the
    /// call site).
    TooManyArguments(Grammar),
    /// The argument at this index is an array expression.
    ArrayArgument(Grammar, usize),
    /// The argument at this index is neither an assignment nor an array.
    OtherArgument(Grammar, usize),
    /// The attribute's arguments are no comma-separated list of expressions.
    InvalidArguments,
    /// The annotated item is not a function.
    NotAFunction,
    /// The `trace_field` attribute at this index holds no assignment.
    TraceFieldNotAssignment(usize),
    /// The `trace_field` attribute at this index holds no expression.
    TraceFieldNotExpression(usize),
    /// The function has no `trace_field` attribute (at the call site).
    NoTraceFields,
}

/// The main message of a refusal.
pub open spec fn abort_message(a: Abort) -> Seq<char> {
    match a {
        Abort::NoArguments(g) | Abort::TooManyArguments(g) | Abort::ArrayArgument(g, _)
        | Abort::OtherArgument(g, _) => grammar_message(g),
        Abort::InvalidArguments => "expected a comma-separated list of expressions"@,
        Abort::NotAFunction => "item is not a function"@,
        Abort::TraceFieldNotAssignment(_) => "expected an assigned expression as argument"@,
        Abort::TraceFieldNotExpression(_) => "expected an expression as argument"@,
        Abort::NoTraceFields => "no span attributes were specified"@,
    }
}

pub open spec fn grammar_message(g: Grammar) -> Seq<char> {
    match g {
        Grammar::Assignments => "this attribute takes from one to three assign arguments"@,
        Grammar::Arguments => "this attribute takes from one to four arguments"@,
    }
}

/// The help note of a refusal, where it has one.
pub open spec fn abort_help(a: Abort) -> Option<Seq<char>> {
    match a {
        Abort::NoArguments(g) | Abort::TooManyArguments(g) | Abort::ArrayArgument(g, _)
        | Abort::OtherArgument(g, _) => Some(grammar_help(g)),
        Abort::InvalidArguments => None,
        Abort::NotAFunction => Some("`#[server_send(...)]` can only be used on functions"@),
        Abort::TraceFieldNotAssignment(_) => Some("example: `#[trace_field(argument = 0)]`"@),
        Abort::TraceFieldNotExpression(_) => Some(
            "example syntax: `#[trace_field(argument % 2 == 0)]`"@,
        ),
        Abort::NoTraceFields => Some("add a `#[trace_field]`"@),
    }
}

pub open spec fn grammar_help(g: Grammar) -> Seq<char> {
    match g {
        Grammar::Assignments => "use `#[server_send(level=Level::WARN, name=\"Name\", skip=[a, b])]`"@,
        Grammar::Arguments => "use `#[server_send(level=trace, name=\"Name\", skip=\"a, b\")]`"@,
    }
}

impl Grammar {
    fn message(&self) -> (m: &'static str)
        ensures
            m@ == grammar_message(*self),
    {
        match self {
            Grammar::Assignments => "this attribute takes from one to three assign arguments",
            Grammar::Arguments => "this attribute takes from one to four arguments",
        }
    }

    fn help(&self) -> (h: &'static str)
        ensures
            h@ == grammar_help(*self),
    {
        match self {
            Grammar::Assignments => "use `#[server_send(level=Level::WARN, name=\"Name\", skip=[a, b])]`",
            Grammar::Arguments => "use `#[server_send(level=trace, name=\"Name\", skip=\"a, b\")]`",
        }
    }
}

impl Abort {
    /// The main message of this refusal.
    pub fn message(&self) -> (m: &'static str)
        ensures
            m@ == abort_message(*self),
    {
        match self {
            Abort::NoArguments(g) | Abort::TooManyArguments(g) | Abort::ArrayArgument(g, _)
            | Abort::OtherArgument(g, _) => g.message(),
            Abort::InvalidArguments => "expected a comma-separated list of expressions",
            Abort::NotAFunction => "item is not a function",
            Abort::TraceFieldNotAssignment(_) => "expected an assigned expression as argument",
            Abort::TraceFieldNotExpression(_) => "expected an expression as argument",
            Abort::NoTraceFields => "no span attributes were specified",
        }
    }

    /// The help note of this refusal, where it has one.
    pub fn help(&self) -> (h: Option<&'static str>)
        ensures
            h.deep_view() == abort_help(*self),
    {
        match self {
            Abort::NoArguments(g) | Abort::TooManyArguments(g) | Abort::ArrayArgument(g, _)
            | Abort::OtherArgument(g, _) => Some(g.help()),
            Abort::InvalidArguments => None,
            Abort::NotAFunction => Some("`#[server_send(...)]` can only be used on functions"),
            Abort::TraceFieldNotAssignment(_) => Some("example: `#[trace_field(argument = 0)]`"),
            Abort::TraceFieldNotExpression(_) => Some(
                "example syntax: `#[trace_field(argument % 2 == 0)]`",
            ),
            Abort::NoTraceFields => Some("add a `#[trace_field]`"),
        }
    }
}

} // verus!
