//! The library's own model of the Rust syntax that the attributes read, and
//! the reading of token text into it, which `syn` and `proc_macro2` do.
//!
//! Every text here is the text of a token stream as `proc_macro2` prints it.
//! How a token stream is printed depends on where the code runs (inside a
//! macro expansion the compiler prints it, elsewhere `proc_macro2` does, and
//! `proc_macro2::fallback::force` switches between them at any time), so the
//! readings below promise nothing of their results: the logic of the library
//! takes what they read as its input and is verified for every value of it.

use vstd::prelude::*;
use quote::ToTokens;
use syn::parse::Parser;
use syn::punctuated::Punctuated;

verus! {

/// An outer attribute of an item.
pub struct Attribute {
    /// The whole attribute, such as `# [a]`.
    pub text: String,
    /// The attribute's path, where that path is one identifier alone.
    pub ident: Option<String>,
    /// The tokens after the path, such as `(x = 0)`.
    pub tokens: String,
    /// Where the tokens are one expression in parentheses: the text of that
    /// expression, and whether it is an assignment.
    pub argument: Option<(String, bool)>,
}

/// What the attributes read of an attribute.
pub struct AttributeView {
    pub text: Seq<char>,
    pub ident: Option<Seq<char>>,
    pub tokens: Seq<char>,
    pub argument: Option<(Seq<char>, bool)>,
}

impl View for Attribute {
    type V = AttributeView;

    open spec fn view(&self) -> AttributeView {
        AttributeView {
            text: self.text@,
            ident: self.ident.deep_view(),
            tokens: self.tokens@,
            argument: self.argument.deep_view(),
        }
    }
}

/// A function item: its attributes, and the rest as text.
pub struct ItemFn {
    pub attrs: Vec<Attribute>,
    /// The visibility, such as `pub`; empty where there is none.
    pub vis: String,
    /// The signature, such as `fn f (x : bool)`.
    pub sig: String,
    /// The statements of the body, in order.
    pub stmts: Vec<String>,
}

pub struct ItemFnView {
    pub attrs: Seq<AttributeView>,
    pub vis: Seq<char>,
    pub sig: Seq<char>,
    pub stmts: Seq<Seq<char>>,
}

impl View for ItemFn {
    type V = ItemFnView;

    open spec fn view(&self) -> ItemFnView {
        ItemFnView {
            attrs: self.attrs@.map_values(|a: Attribute| a@),
            vis: self.vis@,
            sig: self.sig@,
            stmts: self.stmts.deep_view(),
        }
    }
}

/// What an item's text parses to.
pub enum ParsedItem {
    Function(ItemFn),
    NotFunction,
    Unparsable,
}

pub enum ParsedItemView {
    Function(ItemFnView),
    NotFunction,
    Unparsable,
}

impl ParsedItem {
    /// Whether the text was no item at all.
    pub fn is_unparsable(&self) -> (r: bool)
        ensures
            r == (self@ is Unparsable),
    {
        match self {
            ParsedItem::Unparsable => true,
            _ => false,
        }
    }
}

impl View for ParsedItem {
    type V = ParsedItemView;

    open spec fn view(&self) -> ParsedItemView {
        match self {
            ParsedItem::Function(f) => ParsedItemView::Function(f@),
            ParsedItem::NotFunction => ParsedItemView::NotFunction,
            ParsedItem::Unparsable => ParsedItemView::Unparsable,
        }
    }
}

/// The shape of an expression, as far as the attributes read it.
pub enum ExprShape {
    /// `left = right`.
    Assign { left: String, right: String },
    /// `[e0, e1, ...]`, with the text of each element.
    Array(Vec<String>),
    /// A literal.
    Lit,
    /// A path, with the identifier of its first segment and whether that
    /// segment has no generic arguments.
    Path(Option<(String, bool)>),
    /// Any other expression, or a text that is not one.
    Other,
}

pub enum ExprShapeView {
    Assign { left: Seq<char>, right: Seq<char> },
    Array(Seq<Seq<char>>),
    Lit,
    Path(Option<(Seq<char>, bool)>),
    Other,
}

impl View for ExprShape {
    type V = ExprShapeView;

    open spec fn view(&self) -> ExprShapeView {
        match self {
            ExprShape::Assign { left, right } => ExprShapeView::Assign { left: left@, right: right@ },
            ExprShape::Array(elems) => ExprShapeView::Array(elems.deep_view()),
            ExprShape::Lit => ExprShapeView::Lit,
            ExprShape::Path(head) => ExprShapeView::Path(head.deep_view()),
            ExprShape::Other => ExprShapeView::Other,
        }
    }
}

/// An argument of the attribute, as far as the attributes read it.
pub enum Argument {
    /// `key = value`: the first segment of the left side where that side is
    /// a path (its identifier, and whether it has no generic arguments), and
    /// the right side with its shape.
    Assign { key: Option<(String, bool)>, value: String, value_shape: ExprShape },
    /// An array expression.
    Array,
    /// Any other expression.
    Other,
}

pub enum ArgumentView {
    Assign { key: Option<(Seq<char>, bool)>, value: Seq<char>, value_shape: ExprShapeView },
    Array,
    Other,
}

impl View for Argument {
    type V = ArgumentView;

    open spec fn view(&self) -> ArgumentView {
        match self {
            Argument::Assign { key, value, value_shape } => ArgumentView::Assign {
                key: key.deep_view(),
                value: value@,
                value_shape: value_shape@,
            },
            Argument::Array => ArgumentView::Array,
            Argument::Other => ArgumentView::Other,
        }
    }
}

/// Calls `Punctuated::<syn::Expr, syn::token::Comma>::parse_terminated` on
/// the text, through `syn::parse::Parser::parse_str`, and prints each
/// expression; `None` where `syn` refuses the text. The contract claims one
/// thing: an empty text, which lexes to an empty token stream in either mode
/// of `proc_macro2`, reads as an empty list (`parse_terminated` stops at once
/// on an empty stream). Nothing is promised of any other text.
#[verifier::external_body]
fn parse_arguments(text: &str) -> (r: Option<Vec<String>>)
    ensures
        text@.len() == 0 ==> r.deep_view() == Some(Seq::<Seq<char>>::empty()),
{
    let exprs = Punctuated::<syn::Expr, syn::token::Comma>::parse_terminated.parse_str(text).ok()?;
    Some(exprs.iter().map(|e| e.to_token_stream().to_string()).collect())
}

/// Calls `syn::parse_str::<syn::Expr>` and tells the variants of the result
/// apart, printing the parts that are kept. Nothing is promised of the
/// result.
#[verifier::external_body]
fn expr_shape(text: &str) -> ExprShape {
    match syn::parse_str::<syn::Expr>(text) {
        Ok(syn::Expr::Assign(a)) => ExprShape::Assign {
            left: a.left.to_token_stream().to_string(),
            right: a.right.to_token_stream().to_string(),
        },
        Ok(syn::Expr::Array(a)) => ExprShape::Array(a.elems.iter().map(|e| e.to_token_stream().to_string()).collect()),
        Ok(syn::Expr::Lit(_)) => ExprShape::Lit,
        Ok(syn::Expr::Path(p)) => ExprShape::Path(p.path.segments.first().map(|s| (s.ident.to_string(), s.arguments.is_empty()))),
        _ => ExprShape::Other,
    }
}

/// Calls `syn::parse_str::<syn::ExprParen>`, and prints the inner expression
/// and tells whether it is an `Expr::Assign`; `None` where `syn` refuses the
/// text. Nothing is promised of the result.
#[verifier::external_body]
fn paren_argument(tokens: &str) -> Option<(String, bool)> {
    let paren = syn::parse_str::<syn::ExprParen>(tokens).ok()?;
    let is_assign = matches!(*paren.expr, syn::Expr::Assign(_));
    Some((paren.expr.to_token_stream().to_string(), is_assign))
}

/// Calls `syn::parse_str::<syn::Item>` and, for a function, prints its
/// attributes (with `Path::get_ident`), visibility, signature and statements.
/// The attributes' arguments are left unread. Nothing is promised of the
/// result.
#[verifier::external_body]
fn parse_item(text: &str) -> ParsedItem {
    match syn::parse_str::<syn::Item>(text) {
        Ok(syn::Item::Fn(f)) => ParsedItem::Function(ItemFn {
            attrs: f.attrs.iter().map(|a| Attribute {
                text: a.to_token_stream().to_string(),
                ident: a.path.get_ident().map(|i| i.to_string()),
                tokens: a.tokens.to_string(),
                argument: None,
            }).collect(),
            vis: f.vis.to_token_stream().to_string(),
            sig: f.sig.to_token_stream().to_string(),
            stmts: f.block.stmts.iter().map(|s| s.to_token_stream().to_string()).collect(),
        }),
        Ok(_) => ParsedItem::NotFunction,
        Err(_) => ParsedItem::Unparsable,
    }
}

/// A string literal, as text, and the string that it was made from.
pub struct StringLiteral {
    value: String,
    text: String,
}

impl StringLiteral {
    /// The string that the literal was made from.
    pub closed spec fn value(&self) -> Seq<char> {
        self.value@
    }

    /// The literal's text.
    pub closed spec fn text(&self) -> Seq<char> {
        self.text@
    }

    /// The literal's text.
    pub fn as_str(&self) -> (r: &str)
        ensures
            r@ == self.text(),
    {
        self.text.as_str()
    }
}

/// Calls `proc_macro2::Literal::string` and prints the literal, keeping the
/// string it was made from. The contract claims only that the literal is made
/// from `s`: how it is printed depends on the mode of `proc_macro2`.
#[verifier::external_body]
pub(crate) fn string_literal(s: &str) -> (r: StringLiteral)
    ensures
        r.value() == s@,
{
    StringLiteral { value: s.to_string(), text: proc_macro2::Literal::string(s).to_string() }
}

/// The argument that the reading of an expression and of the two sides of an
/// assignment give.
pub open spec fn argument_of(shape: ExprShapeView, key_shape: ExprShapeView, value_shape: ExprShapeView) -> ArgumentView {
    match shape {
        ExprShapeView::Assign { left: _, right } => ArgumentView::Assign {
            key: match key_shape {
                ExprShapeView::Path(head) => head,
                _ => None,
            },
            value: right,
            value_shape,
        },
        ExprShapeView::Array(_) => ArgumentView::Array,
        _ => ArgumentView::Other,
    }
}

/// Builds an argument from the reading of the expression and of the two
/// sides of an assignment: the key is the head of the left side where that
/// side is a path.
pub fn argument_from(shape: ExprShape, key_shape: ExprShape, value_shape: ExprShape) -> (r: Argument)
    ensures
        r@ == argument_of(shape@, key_shape@, value_shape@),
{
    match shape {
        ExprShape::Assign { left: _, right } => {
            let key = match key_shape {
                ExprShape::Path(head) => head,
                _ => None,
            };
            Argument::Assign { key, value: right, value_shape }
        },
        ExprShape::Array(_) => Argument::Array,
        _ => Argument::Other,
    }
}

/// Reads one argument of the attribute: its shape and, for an assignment, the
/// shapes of its two sides.
pub fn read_argument(text: &str) -> (r: Argument)
    ensures
        exists|shape: ExprShapeView, key_shape: ExprShapeView, value_shape: ExprShapeView|
            r@ == #[trigger] argument_of(shape, key_shape, value_shape),
{
    let shape = expr_shape(text);
    let (key_shape, value_shape) = match &shape {
        ExprShape::Assign { left, right } => (expr_shape(left.as_str()), expr_shape(right.as_str())),
        _ => (ExprShape::Other, ExprShape::Other),
    };
    let ghost views = (shape@, key_shape@, value_shape@);
    let r = argument_from(shape, key_shape, value_shape);
    assert(r@ == argument_of(views.0, views.1, views.2));
    r
}

/// Reads the attribute's arguments, a comma-separated list of expressions;
/// `None` where the text is no such list. An empty text is an empty list.
pub fn read_arguments(text: &str) -> (r: Option<Vec<Argument>>)
    ensures
        text@.len() == 0 ==> (r matches Some(v) && v.len() == 0),
{
    let read = parse_arguments(text);
    let texts = match read {
        Some(texts) => texts,
        None => return None,
    };
    assert(text@.len() == 0 ==> texts.deep_view().len() == 0);
    let mut args: Vec<Argument> = Vec::new();
    let mut i: usize = 0;
    while i < texts.len()
        invariant
            i <= texts.len(),
            args.len() == i,
        decreases texts.len() - i,
    {
        args.push(read_argument(texts[i].as_str()));
        i = i + 1;
    }
    Some(args)
}

/// The attribute with the reading of its argument.
pub open spec fn with_argument(a: AttributeView, argument: Option<(Seq<char>, bool)>) -> AttributeView {
    AttributeView { argument, ..a }
}

/// The attribute, with the reading of the expression in its parentheses.
pub fn attribute_with(attr: &Attribute, argument: Option<(String, bool)>) -> (r: Attribute)
    ensures
        r@ == with_argument(attr@, argument.deep_view()),
{
    Attribute {
        text: attr.text.clone(),
        ident: attr.ident.clone(),
        tokens: attr.tokens.clone(),
        argument,
    }
}

/// The item, each of its attributes with the reading at the same index.
pub open spec fn with_arguments(item: ParsedItemView, arguments: Seq<Option<(Seq<char>, bool)>>) -> ParsedItemView {
    match item {
        ParsedItemView::Function(f) => ParsedItemView::Function(
            ItemFnView {
                attrs: Seq::new(f.attrs.len(), |i: int| with_argument(f.attrs[i], arguments[i])),
                ..f
            },
        ),
        other => other,
    }
}

/// Reads an item and, for a function, the expression in parentheses that
/// each of its attributes holds. Each attribute keeps its text, path and
/// tokens, and gets the reading of its tokens; the rest of the item is as it
/// was read.
pub fn read_item(text: &str) -> (r: ParsedItem)
    ensures
        exists|item: ParsedItemView, arguments: Seq<Option<(Seq<char>, bool)>>|
            r@ == #[trigger] with_arguments(item, arguments),
{
    let parsed = parse_item(text);
    let ghost item = parsed@;
    match parsed {
        ParsedItem::Function(f) => {
            let ItemFn { attrs, vis, sig, stmts } = f;
            let ghost raw = attrs@.map_values(|a: Attribute| a@);
            let ghost mut arguments: Seq<Option<(Seq<char>, bool)>> = Seq::empty();
            let mut read: Vec<Attribute> = Vec::new();
            let mut i: usize = 0;
            while i < attrs.len()
                invariant
                    i <= attrs.len(),
                    raw == attrs@.map_values(|a: Attribute| a@),
                    read.len() == i,
                    arguments.len() == i,
                    forall|j: int| 0 <= j < i ==> #[trigger] read@[j]@ == with_argument(raw[j], arguments[j]),
                decreases attrs.len() - i,
            {
                let argument = paren_argument(attrs[i].tokens.as_str());
                proof {
                    arguments = arguments.push(argument.deep_view());
                }
                read.push(attribute_with(&attrs[i], argument));
                i = i + 1;
            }
            let r = ParsedItem::Function(ItemFn { attrs: read, vis, sig, stmts });
            assert(r@ == with_arguments(item, arguments)) by {
                if let ParsedItemView::Function(f) = item {
                    assert(r->Function_0@.attrs =~= Seq::new(f.attrs.len(), |i: int| with_argument(f.attrs[i], arguments[i])));
                }
            }
            r
        },
        other => {
            assert(other@ == with_arguments(item, Seq::empty()));
            other
        },
    }
}

} // verus!

verus! {

/// The whole text of each attribute.
pub open spec fn attribute_texts(attrs: Seq<AttributeView>) -> Seq<Seq<char>> {
    attrs.map_values(|a: AttributeView| a.text)
}

/// The whole text of each attribute of a list.
pub fn texts_of_attributes(attrs: &Vec<Attribute>) -> (r: Vec<String>)
    ensures
        r.deep_view() == attribute_texts(attrs@.map_values(|a: Attribute| a@)),
{
    let ghost want = attribute_texts(attrs@.map_values(|a: Attribute| a@));
    let mut r: Vec<String> = Vec::new();
    let mut i: usize = 0;
    while i < attrs.len()
        invariant
            i <= attrs.len(),
            want == attribute_texts(attrs@.map_values(|a: Attribute| a@)),
            r.len() == i,
            r.deep_view() == want.take(i as int),
        decreases attrs.len() - i,
    {
        let ghost prev = r.deep_view();
        r.push(attrs[i].text.clone());
        assert(want[i as int] == attrs@[i as int].text@);
        assert(r.deep_view() =~= prev.push(want[i as int]));
        assert(want.take(i + 1) =~= want.take(i as int).push(want[i as int]));
        i = i + 1;
    }
    assert(want.take(attrs.len() as int) =~= want);
    r
}

} // verus!
