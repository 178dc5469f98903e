//! The attribute's arguments read by name, in the form where `skip` and
//! `fields` are comma-separated lists in a string, and the argument check that
//! goes with that form.

use vstd::prelude::*;
use crate::diagnostic::{Abort, Grammar};
use crate::server_send::parse::{args_outcome, ast_outcome, parse_outcome, read_and_check, read_function, ArgsCheck};
use crate::syntax::{ArgumentView, ItemFnView, ParsedItemView};
use crate::text::{split_commas, split_text, trim, trim_text};

pub use crate::server_send::parse::{Args, Ast};

verus! {

/// The attribute's named arguments, each given as a string.
pub struct TaskAttributes {
    pub level: Option<String>,
    pub name: Option<String>,
    pub skip: Option<String>,
    pub fields: Option<String>,
}

/// The parameters that a comma-separated list names: each piece between the
/// commas, trimmed; none where there is no list.
pub open spec fn list_params(list: Option<Seq<char>>) -> Seq<Seq<char>> {
    match list {
        None => Seq::empty(),
        Some(s) => split_commas(s).map_values(|p: Seq<char>| trim(p)),
    }
}

/// Each piece of a comma-separated list, trimmed.
fn params_of(list: &Option<String>) -> (r: Vec<String>)
    ensures
        r.deep_view() == list_params(list.deep_view()),
{
    match list {
        None => {
            let r: Vec<String> = Vec::new();
            assert(r.deep_view() =~= Seq::<Seq<char>>::empty());
            r
        },
        Some(s) => {
            let pieces = split_text(s.as_str());
            let ghost want = split_commas(s@).map_values(|p: Seq<char>| trim(p));
            let mut r: Vec<String> = Vec::new();
            let mut i: usize = 0;
            while i < pieces.len()
                invariant
                    i <= pieces.len(),
                    pieces.deep_view() == split_commas(s@),
                    want == split_commas(s@).map_values(|p: Seq<char>| trim(p)),
                    r.len() == i,
                    r.deep_view() == want.take(i as int),
                decreases pieces.len() - i,
            {
                let ghost prev = r.deep_view();
                assert(pieces.deep_view()[i as int] == pieces@[i as int]@);
                r.push(trim_text(pieces[i].as_str()));
                assert(r.deep_view() =~= prev.push(want[i as int]));
                assert(want.take(i + 1) =~= want.take(i as int).push(want[i as int]));
                i = i + 1;
            }
            assert(want.take(pieces.len() as int) =~= want);
            r
        },
    }
}

impl TaskAttributes {
    /// Maps property `skip` from a comma-separated string to the list of the
    /// parameters it names, each trimmed.
    pub fn skip_params(&self) -> (r: Vec<String>)
        ensures
            r.deep_view() == list_params(self.skip.deep_view()),
    {
        params_of(&self.skip)
    }

    /// Maps property `fields` from a comma-separated string to the list of
    /// the fields it names, each trimmed.
    pub fn fields_params(&self) -> (r: Vec<String>)
        ensures
            r.deep_view() == list_params(self.fields.deep_view()),
    {
        params_of(&self.fields)
    }
}

/// Checks the attribute's arguments: there must be one to four of them, and
/// each must be an assignment. Where the text is no list of expressions at
/// all, the check leaves the report to the reading of the arguments and
/// answers `Unparsable`. The outcome is the check's on the arguments as they
/// were read.
pub fn parse_args(metadata: &str) -> (r: Result<ArgsCheck, Abort>)
    ensures
        exists|args: Option<Seq<ArgumentView>>| r == #[trigger] args_outcome(args, Grammar::Arguments),
        metadata@.len() == 0 ==> r == Err::<ArgsCheck, Abort>(Abort::NoArguments(Grammar::Arguments)),
{
    read_and_check(metadata, Grammar::Arguments)
}

/// Checks the arguments, then reads the item, which must be a function;
/// `None` where the arguments pass and the item's text is no item at all.
/// The outcome is that of the check and the item as they were read.
pub fn parse(metadata: &str, item: &str) -> (r: Option<Result<Ast, Abort>>)
    ensures
        exists|args: Option<Seq<ArgumentView>>, read: ParsedItemView|
            ast_outcome(r) == #[trigger] parse_outcome(args, read, Grammar::Arguments),
        metadata@.len() == 0 ==> ast_outcome(r) == Some(Err::<ItemFnView, Abort>(Abort::NoArguments(Grammar::Arguments))),
{
    read_function(metadata, item, Grammar::Arguments)
}

} // verus!
