//! Checking the attribute's arguments, and reading the annotated item.

use vstd::prelude::*;
use crate::diagnostic::{Abort, Grammar};
use crate::syntax::{read_arguments, read_item, Argument, ArgumentView, ItemFn, ItemFnView, ParsedItem, ParsedItemView};

verus! {

/// The annotated item.
pub type Ast = ItemFn;

/// The attribute's arguments, each as it was read, in order.
pub struct Args {
    pub vars: Vec<Argument>,
}

impl View for Args {
    type V = Seq<ArgumentView>;

    open spec fn view(&self) -> Seq<ArgumentView> {
        self.vars@.map_values(|a: Argument| a@)
    }
}

/// What was read of the arguments, where anything was.
pub open spec fn args_view(args: Option<Args>) -> Option<Seq<ArgumentView>> {
    match args {
        Some(a) => Some(a@),
        None => None,
    }
}

impl Args {
    /// Reads a comma-separated list of expressions; `None` where the text is
    /// no such list. An empty text is an empty list.
    pub fn parse(text: &str) -> (r: Option<Args>)
        ensures
            text@.len() == 0 ==> (r matches Some(a) && a.vars.len() == 0),
    {
        match read_arguments(text) {
            Some(vars) => Some(Args { vars }),
            None => None,
        }
    }
}

/// What the argument check decides, where it does not refuse.
#[derive(Debug, Clone, Copy, PartialEq, Eq, Structural)]
pub enum ArgsCheck {
    /// Every argument is an assignment.
    Accepted,
    /// The arguments are no list of expressions; the check leaves the report
    /// to whoever reads them.
    Unparsable,
}

/// The refusal for the first argument, from index `i` on, that is not an
/// assignment; `Ok` where all of them are.
pub open spec fn first_bad_argument(vars: Seq<ArgumentView>, g: Grammar, i: int) -> Result<ArgsCheck, Abort>
    decreases vars.len() - i,
{
    if i < 0 || i >= vars.len() {
        Ok(ArgsCheck::Accepted)
    } else {
        match vars[i] {
            ArgumentView::Array => Err(Abort::ArrayArgument(g, i as usize)),
            ArgumentView::Assign { .. } => first_bad_argument(vars, g, i + 1),
            ArgumentView::Other => Err(Abort::OtherArgument(g, i as usize)),
        }
    }
}

/// The most arguments that grammar `g` takes.
pub open spec fn max_arguments(g: Grammar) -> nat {
    match g {
        Grammar::Assignments => 3,
        Grammar::Arguments => 4,
    }
}

/// What the argument check of grammar `g` gives for the arguments that were
/// read. An empty token stream reads as an empty list.
pub open spec fn args_outcome(args: Option<Seq<ArgumentView>>, g: Grammar) -> Result<ArgsCheck, Abort> {
    match args {
        None => Ok(ArgsCheck::Unparsable),
        Some(vars) => if vars.len() == 0 {
            Err(Abort::NoArguments(g))
        } else if vars.len() > max_arguments(g) {
            Err(Abort::TooManyArguments(g))
        } else {
            first_bad_argument(vars, g, 0)
        },
    }
}

/// Checks the arguments of grammar `g` from index `start` on.
fn check_from(vars: &Vec<Argument>, g: Grammar, start: usize) -> (r: Result<ArgsCheck, Abort>)
    requires
        start <= vars.len(),
    ensures
        r == first_bad_argument(vars@.map_values(|a: Argument| a@), g, start as int),
    decreases vars.len() - start,
{
    if start == vars.len() {
        return Ok(ArgsCheck::Accepted);
    }
    assert(vars@.map_values(|a: Argument| a@)[start as int] == vars@[start as int]@);
    match &vars[start] {
        Argument::Array => Err(Abort::ArrayArgument(g, start)),
        Argument::Assign { .. } => check_from(vars, g, start + 1),
        Argument::Other => Err(Abort::OtherArgument(g, start)),
    }
}

/// Checks the arguments that were read against grammar `g`: there must be one
/// of them up to the grammar's most, and each must be an assignment such as
/// `level = Level::INFO`. Where nothing could be read, the check leaves the
/// report to the reading of the arguments and answers `Unparsable`.
pub fn check_arguments(args: &Option<Args>, g: Grammar) -> (r: Result<ArgsCheck, Abort>)
    ensures
        r == args_outcome(args_view(*args), g),
        r == Ok::<ArgsCheck, Abort>(ArgsCheck::Accepted) ==> (args_view(*args) matches Some(vars)
            && 1 <= vars.len() <= max_arguments(g)
            && forall|i: int| 0 <= i < vars.len() ==> #[trigger] vars[i] is Assign),
{
    let r = match args {
        None => Ok(ArgsCheck::Unparsable),
        Some(a) => {
            let max: usize = match g {
                Grammar::Assignments => 3,
                Grammar::Arguments => 4,
            };
            if a.vars.len() == 0 {
                Err(Abort::NoArguments(g))
            } else if a.vars.len() > max {
                Err(Abort::TooManyArguments(g))
            } else {
                check_from(&a.vars, g, 0)
            }
        },
    };
    proof {
        if r == Ok::<ArgsCheck, Abort>(ArgsCheck::Accepted) {
            lemma_accepted_all_assignments(args_view(*args)->Some_0, g, 0);
        }
    }
    r
}

/// Where the check from index `i` on accepts, every argument from there on is
/// an assignment.
pub proof fn lemma_accepted_all_assignments(vars: Seq<ArgumentView>, g: Grammar, i: int)
    requires
        0 <= i,
        first_bad_argument(vars, g, i) == Ok::<ArgsCheck, Abort>(ArgsCheck::Accepted),
    ensures
        forall|j: int| i <= j < vars.len() ==> #[trigger] vars[j] is Assign,
    decreases vars.len() - i,
{
    if i < vars.len() {
        lemma_accepted_all_assignments(vars, g, i + 1);
    }
}

/// Reads the attribute's arguments and checks them against grammar `g`. The
/// outcome is the check's on what was read.
pub(crate) fn read_and_check(metadata: &str, g: Grammar) -> (r: Result<ArgsCheck, Abort>)
    ensures
        exists|args: Option<Seq<ArgumentView>>| r == #[trigger] args_outcome(args, g),
        metadata@.len() == 0 ==> r == Err::<ArgsCheck, Abort>(Abort::NoArguments(g)),
{
    let args = Args::parse(metadata);
    let r = check_arguments(&args, g);
    assert(r == args_outcome(args_view(args), g));
    r
}

/// Checks the attribute's arguments: there must be one to three of them, and
/// each must be an assignment such as `level = Level::INFO`. Where the text
/// is no list of expressions at all, the check leaves the report to the
/// reading of the arguments and answers `Unparsable`. The outcome is the
/// check's on the arguments as they were read.
pub fn parse_args(metadata: &str) -> (r: Result<ArgsCheck, Abort>)
    ensures
        exists|args: Option<Seq<ArgumentView>>| r == #[trigger] args_outcome(args, Grammar::Assignments),
        metadata@.len() == 0 ==> r == Err::<ArgsCheck, Abort>(Abort::NoArguments(Grammar::Assignments)),
{
    read_and_check(metadata, Grammar::Assignments)
}

/// The function item that the argument check of grammar `g` and the reading
/// of the item give, or the refusal.
pub open spec fn accepted_function(args: Option<Seq<ArgumentView>>, item: ParsedItemView, g: Grammar) -> Result<ItemFnView, Abort> {
    match args_outcome(args, g) {
        Err(e) => Err(e),
        Ok(_) => match item {
            ParsedItemView::Function(f) => Ok(f),
            _ => Err(Abort::NotAFunction),
        },
    }
}

/// What the argument check and the reading of the item give: `None` where
/// the arguments pass and the item's text is no item.
pub open spec fn parse_outcome(args: Option<Seq<ArgumentView>>, item: ParsedItemView, g: Grammar) -> Option<Result<ItemFnView, Abort>> {
    if args_outcome(args, g) is Ok && item is Unparsable {
        None
    } else {
        Some(accepted_function(args, item, g))
    }
}

/// The check either accepts or refuses, from any index on.
proof fn lemma_first_bad_accepts_or_refuses(vars: Seq<ArgumentView>, g: Grammar, i: int)
    requires
        0 <= i,
    ensures
        first_bad_argument(vars, g, i) is Ok ==> first_bad_argument(vars, g, i) == Ok::<ArgsCheck, Abort>(
            ArgsCheck::Accepted,
        ),
        (forall|j: int| i <= j < vars.len() ==> #[trigger] vars[j] is Assign) ==> first_bad_argument(vars, g, i)
            == Ok::<ArgsCheck, Abort>(ArgsCheck::Accepted),
    decreases vars.len() - i,
{
    if i < vars.len() {
        lemma_first_bad_accepts_or_refuses(vars, g, i + 1);
    }
}

/// A function is taken exactly where the item is a function and the
/// arguments pass: one of them up to the grammar's most was read, each an
/// assignment, or the text was no list of expressions at all (the check
/// leaves that report to the reading of the arguments). Where the arguments
/// are refused, the refusal is the answer whatever the item.
pub proof fn lemma_parse_outcome_law(args: Option<Seq<ArgumentView>>, item: ParsedItemView, g: Grammar)
    ensures
        parse_outcome(args, item, g) matches Some(Ok(_)) <==> {
            &&& args matches Some(vars) ==> {
                &&& 1 <= vars.len() <= max_arguments(g)
                &&& forall|i: int| 0 <= i < vars.len() ==> #[trigger] vars[i] is Assign
            }
            &&& item is Function
        },
        parse_outcome(args, item, g) matches Some(Ok(f)) ==> item == ParsedItemView::Function(f),
        args_outcome(args, g) matches Err(e) ==> parse_outcome(args, item, g) == Some(
            Err::<ItemFnView, Abort>(e),
        ),
{
    if let Some(vars) = args {
        lemma_first_bad_accepts_or_refuses(vars, g, 0);
        if args_outcome(args, g) == Ok::<ArgsCheck, Abort>(ArgsCheck::Accepted) {
            lemma_accepted_all_assignments(vars, g, 0);
        }
    }
}

/// The view of a reading of the item.
pub open spec fn ast_outcome(r: Option<Result<Ast, Abort>>) -> Option<Result<ItemFnView, Abort>> {
    match r {
        None => None,
        Some(Ok(ast)) => Some(Ok(ast@)),
        Some(Err(e)) => Some(Err(e)),
    }
}

/// Checks the arguments against grammar `g`, then takes the item, which must
/// be a function.
pub fn accept_function(args: &Option<Args>, item: ParsedItem, g: Grammar) -> (r: Result<Ast, Abort>)
    requires
        args_outcome(args_view(*args), g) is Ok ==> !(item@ is Unparsable),
    ensures
        match accepted_function(args_view(*args), item@, g) {
            Err(e) => r == Err::<Ast, Abort>(e),
            Ok(f) => r matches Ok(ast) && ast@ == f,
        },
        r is Ok ==> (args_view(*args) matches Some(vars) ==> 1 <= vars.len() <= max_arguments(g)
            && forall|i: int| 0 <= i < vars.len() ==> #[trigger] vars[i] is Assign),
        r matches Ok(ast) ==> item@ == ParsedItemView::Function(ast@),
{
    proof {
        lemma_parse_outcome_law(args_view(*args), item@, g);
    }
    match check_arguments(args, g) {
        Err(e) => return Err(e),
        Ok(_) => {},
    }
    match item {
        ParsedItem::Function(f) => Ok(f),
        ParsedItem::NotFunction => Err(Abort::NotAFunction),
        ParsedItem::Unparsable => {
            proof {
                assert(false);
            }
            Err(Abort::NotAFunction)
        },
    }
}

/// Reads the arguments and checks them against grammar `g`, then reads the
/// item, which must be a function.
pub(crate) fn read_function(metadata: &str, item: &str, g: Grammar) -> (r: Option<Result<Ast, Abort>>)
    ensures
        exists|args: Option<Seq<ArgumentView>>, read: ParsedItemView|
            ast_outcome(r) == #[trigger] parse_outcome(args, read, g),
        metadata@.len() == 0 ==> ast_outcome(r) == Some(Err::<ItemFnView, Abort>(Abort::NoArguments(g))),
{
    let args = Args::parse(metadata);
    let read = read_item(item);
    let r = if check_arguments(&args, g).is_ok() && read.is_unparsable() {
        None
    } else {
        Some(accept_function(&args, read, g))
    };
    assert(ast_outcome(r) == parse_outcome(args_view(args), read@, g));
    r
}

/// Checks the arguments, then reads the item, which must be a function;
/// `None` where the arguments pass and the item's text is no item at all.
/// The outcome is that of the check and the item as they were read.
pub fn parse(metadata: &str, item: &str) -> (r: Option<Result<Ast, Abort>>)
    ensures
        exists|args: Option<Seq<ArgumentView>>, read: ParsedItemView|
            ast_outcome(r) == #[trigger] parse_outcome(args, read, Grammar::Assignments),
        metadata@.len() == 0 ==> ast_outcome(r) == Some(Err::<ItemFnView, Abort>(Abort::NoArguments(Grammar::Assignments))),
{
    read_function(metadata, item, Grammar::Assignments)
}

} // verus!
