//! Taking the `trace_field` attributes out of the function, and reading the
//! settings from the attribute's arguments.

use vstd::prelude::*;
use crate::diagnostic::Abort;
use crate::server_send::parse::{Args, Ast};
use crate::syntax::{Argument, ArgumentView, ExprShape, ExprShapeView, ItemFn, ItemFnView};
use crate::text::text_eq;
use crate::trace_field::{
    extract_fields, field_argument, lemma_extract_fields_content, lemma_extract_fields_success, others,
    take_trace_fields, trace_fields, well_formed,
};

verus! {

/// What the attribute knows of the function once its `trace_field`
/// attributes are taken out: the span fields they hold, the function without
/// them, and the span's level, name and skipped parameters.
pub struct Model {
    /// The text of each field assignment, such as `x = 0`.
    pub fields: Vec<String>,
    pub item: ItemFn,
    /// The level, such as `Level :: DEBUG`.
    pub level: String,
    /// The name, a string literal such as `"server_end"`.
    pub name: String,
    /// The skipped parameters, each as text.
    pub skip: Vec<String>,
}

pub struct ModelView {
    pub fields: Seq<Seq<char>>,
    pub item: ItemFnView,
    pub level: Seq<char>,
    pub name: Seq<char>,
    pub skip: Seq<Seq<char>>,
}

impl View for Model {
    type V = ModelView;

    open spec fn view(&self) -> ModelView {
        ModelView {
            fields: self.fields.deep_view(),
            item: self.item@,
            level: self.level@,
            name: self.name@,
            skip: self.skip.deep_view(),
        }
    }
}

/// The span settings that the attribute's arguments give.
pub struct Settings {
    pub level: Seq<char>,
    pub name: Seq<char>,
    pub skip: Seq<Seq<char>>,
}

/// The settings where no argument gives one.
pub open spec fn default_settings() -> Settings {
    Settings { level: "Level :: DEBUG"@, name: "\"server_end\""@, skip: Seq::empty() }
}

/// The settings after one more argument: `skip = [..]`, `name = <literal>` and
/// `level = <path>` replace their setting; any other argument changes nothing.
pub open spec fn apply_argument(s: Settings, arg: ArgumentView) -> Settings {
    match arg {
        ArgumentView::Assign { key: Some((key, true)), value, value_shape } => if key == "skip"@ {
            match value_shape {
                ExprShapeView::Array(elems) => Settings { skip: elems, ..s },
                _ => s,
            }
        } else if key == "name"@ {
            if value_shape is Lit {
                Settings { name: value, ..s }
            } else {
                s
            }
        } else if key == "level"@ {
            if value_shape is Path {
                Settings { level: value, ..s }
            } else {
                s
            }
        } else {
            s
        },
        _ => s,
    }
}

/// The settings that a list of arguments gives, read from the first to the
/// last.
pub open spec fn settings_of(args: Seq<ArgumentView>) -> Settings
    decreases args.len(),
{
    if args.len() == 0 {
        default_settings()
    } else {
        apply_argument(settings_of(args.drop_last()), args.last())
    }
}

/// The key and value of an argument `key = value` whose key is a plain
/// identifier (the first segment of its path, without generic arguments).
pub open spec fn assignment_of(arg: ArgumentView) -> Option<(Seq<char>, Seq<char>, ExprShapeView)> {
    match arg {
        ArgumentView::Assign { key: Some((key, true)), value, value_shape } => Some((key, value, value_shape)),
        _ => None,
    }
}

/// The level that an argument sets: `level = <path>`.
pub open spec fn level_setting(arg: ArgumentView) -> Option<Seq<char>> {
    match assignment_of(arg) {
        Some((key, value, shape)) => if key == "level"@ && shape is Path {
            Some(value)
        } else {
            None
        },
        None => None,
    }
}

/// The name that an argument sets: `name = <literal>`.
pub open spec fn name_setting(arg: ArgumentView) -> Option<Seq<char>> {
    match assignment_of(arg) {
        Some((key, value, shape)) => if key == "name"@ && shape is Lit {
            Some(value)
        } else {
            None
        },
        None => None,
    }
}

/// The skipped parameters that an argument sets: `skip = [..]`.
pub open spec fn skip_setting(arg: ArgumentView) -> Option<Seq<Seq<char>>> {
    match assignment_of(arg) {
        Some((key, value, shape)) => if key == "skip"@ {
            match shape {
                ExprShapeView::Array(elems) => Some(elems),
                _ => None,
            }
        } else {
            None
        },
        None => None,
    }
}

/// Each setting comes from the last argument that sets it; a setting that no
/// argument sets keeps its default.
pub proof fn lemma_last_setting_wins(args: Seq<ArgumentView>)
    ensures
        (forall|j: int| 0 <= j < args.len() ==> #[trigger] level_setting(args[j]) is None)
            ==> settings_of(args).level == default_settings().level,
        (forall|j: int| 0 <= j < args.len() ==> #[trigger] name_setting(args[j]) is None)
            ==> settings_of(args).name == default_settings().name,
        (forall|j: int| 0 <= j < args.len() ==> #[trigger] skip_setting(args[j]) is None)
            ==> settings_of(args).skip == default_settings().skip,
        forall|i: int| 0 <= i < args.len() && #[trigger] level_setting(args[i]) is Some
            && (forall|j: int| i < j < args.len() ==> #[trigger] level_setting(args[j]) is None)
            ==> settings_of(args).level == level_setting(args[i])->Some_0,
        forall|i: int| 0 <= i < args.len() && #[trigger] name_setting(args[i]) is Some
            && (forall|j: int| i < j < args.len() ==> #[trigger] name_setting(args[j]) is None)
            ==> settings_of(args).name == name_setting(args[i])->Some_0,
        forall|i: int| 0 <= i < args.len() && #[trigger] skip_setting(args[i]) is Some
            && (forall|j: int| i < j < args.len() ==> #[trigger] skip_setting(args[j]) is None)
            ==> settings_of(args).skip == skip_setting(args[i])->Some_0,
{
    lemma_last_level(args);
    lemma_last_name(args);
    lemma_last_skip(args);
}

/// The level comes from the last argument that sets it, or is the default
/// where none does.
proof fn lemma_last_level(args: Seq<ArgumentView>)
    ensures
        (forall|j: int| 0 <= j < args.len() ==> #[trigger] level_setting(args[j]) is None)
            ==> settings_of(args).level == default_settings().level,
        forall|i: int| 0 <= i < args.len() && #[trigger] level_setting(args[i]) is Some
            && (forall|j: int| i < j < args.len() ==> #[trigger] level_setting(args[j]) is None)
            ==> settings_of(args).level == level_setting(args[i])->Some_0,
    decreases args.len(),
{
    if args.len() > 0 {
        let init = args.drop_last();
        lemma_last_level(init);
        lemma_apply_argument(settings_of(init), args.last());
        assert forall|j: int| 0 <= j < init.len() implies init[j] == args[j] by {}
    }
}

/// The name comes from the last argument that sets it, or is the default
/// where none does.
proof fn lemma_last_name(args: Seq<ArgumentView>)
    ensures
        (forall|j: int| 0 <= j < args.len() ==> #[trigger] name_setting(args[j]) is None)
            ==> settings_of(args).name == default_settings().name,
        forall|i: int| 0 <= i < args.len() && #[trigger] name_setting(args[i]) is Some
            && (forall|j: int| i < j < args.len() ==> #[trigger] name_setting(args[j]) is None)
            ==> settings_of(args).name == name_setting(args[i])->Some_0,
    decreases args.len(),
{
    if args.len() > 0 {
        let init = args.drop_last();
        lemma_last_name(init);
        lemma_apply_argument(settings_of(init), args.last());
        assert forall|j: int| 0 <= j < init.len() implies init[j] == args[j] by {}
    }
}

/// The skip comes from the last argument that sets it, or is the default
/// where none does.
proof fn lemma_last_skip(args: Seq<ArgumentView>)
    ensures
        (forall|j: int| 0 <= j < args.len() ==> #[trigger] skip_setting(args[j]) is None)
            ==> settings_of(args).skip == default_settings().skip,
        forall|i: int| 0 <= i < args.len() && #[trigger] skip_setting(args[i]) is Some
            && (forall|j: int| i < j < args.len() ==> #[trigger] skip_setting(args[j]) is None)
            ==> settings_of(args).skip == skip_setting(args[i])->Some_0,
    decreases args.len(),
{
    if args.len() > 0 {
        let init = args.drop_last();
        lemma_last_skip(init);
        lemma_apply_argument(settings_of(init), args.last());
        assert forall|j: int| 0 <= j < init.len() implies init[j] == args[j] by {}
    }
}

/// One argument changes the setting that it sets, and no other.
proof fn lemma_apply_argument(s: Settings, arg: ArgumentView)
    ensures
        apply_argument(s, arg).level == (match level_setting(arg) { Some(v) => v, None => s.level }),
        apply_argument(s, arg).name == (match name_setting(arg) { Some(v) => v, None => s.name }),
        apply_argument(s, arg).skip == (match skip_setting(arg) { Some(v) => v, None => s.skip }),
{
    reveal_strlit("skip");
    reveal_strlit("name");
    reveal_strlit("level");
    assert("skip"@[0] != "name"@[0]);
    assert("skip"@.len() != "level"@.len());
    assert("name"@.len() != "level"@.len());
}

/// The settings after one more argument.
fn apply(level: &mut String, name: &mut String, skip: &mut Vec<String>, arg: &Argument)
    ensures
        apply_argument(Settings { level: old(level)@, name: old(name)@, skip: old(skip).deep_view() }, arg@)
            == (Settings { level: final(level)@, name: final(name)@, skip: final(skip).deep_view() }),
{
    if let Argument::Assign { key: Some((key, true)), value, value_shape } = arg {
        if text_eq(key.as_str(), "skip") {
            if let ExprShape::Array(elems) = value_shape {
                *skip = elems.clone();
                proof {
                    assert(skip.deep_view() =~= elems.deep_view());
                }
            }
        } else if text_eq(key.as_str(), "name") {
            if let ExprShape::Lit = value_shape {
                *name = value.clone();
            }
        } else if text_eq(key.as_str(), "level") {
            if let ExprShape::Path(_) = value_shape {
                *level = value.clone();
            }
        }
    }
}

/// What the analysis gives for a function and the arguments that were read.
pub open spec fn analyze_outcome(ast: ItemFnView, args: Seq<ArgumentView>) -> Result<ModelView, Abort> {
    match extract_fields(ast.attrs, true) {
        Err(i) => Err(Abort::TraceFieldNotAssignment(i as usize)),
        Ok((kept, fields)) => Ok(
            ModelView {
                fields,
                item: ItemFnView { attrs: kept, ..ast },
                level: settings_of(args).level,
                name: settings_of(args).name,
                skip: settings_of(args).skip,
            },
        ),
    }
}

/// The analysis keeps the function apart from its `trace_field` attributes,
/// whatever the arguments: the visibility, the signature and every statement
/// stay, the other attributes stay in their order, and the fields are what
/// the `trace_field` attributes hold, from the last to the first. It succeeds
/// exactly where every `trace_field` attribute holds an assignment, whatever
/// the arguments.
pub proof fn lemma_analysis_keeps_function(ast: ItemFnView, args: Seq<ArgumentView>)
    ensures
        analyze_outcome(ast, args) is Ok <==> forall|i: int| 0 <= i < ast.attrs.len()
            ==> #[trigger] well_formed(ast.attrs[i], true),
        analyze_outcome(ast, args) matches Ok(m) ==> {
            &&& m.item.vis == ast.vis
            &&& m.item.sig == ast.sig
            &&& m.item.stmts == ast.stmts
            &&& m.item.attrs == ast.attrs.filter(others())
            &&& m.fields == ast.attrs.filter(trace_fields()).map_values(
                |a: crate::syntax::AttributeView| field_argument(a, true).unwrap(),
            ).reverse()
            &&& m.level == settings_of(args).level
            &&& m.name == settings_of(args).name
            &&& m.skip == settings_of(args).skip
        },
{
    lemma_extract_fields_success(ast.attrs, true);
    if extract_fields(ast.attrs, true) is Ok {
        lemma_extract_fields_content(ast.attrs, true);
    }
}

/// Takes the `trace_field` attributes out of the function, from the last to
/// the first, and reads the span settings from the attribute's arguments.
///
/// The fields come in the reverse order of their attributes; the other
/// attributes stay, in their order. A `trace_field` attribute that holds no
/// assignment is refused: the last such one.
pub fn analyze(ast: Ast, meta: Args) -> (r: Result<Model, Abort>)
    ensures
        match analyze_outcome(ast@, meta@) {
            Err(e) => r == Err::<Model, Abort>(e),
            Ok(m) => r matches Ok(model) && model@ == m,
        },
        r is Ok <==> forall|i: int| 0 <= i < ast@.attrs.len() ==> #[trigger] well_formed(ast@.attrs[i], true),
        r matches Ok(model) ==> {
            &&& model.item@.vis == ast@.vis
            &&& model.item@.sig == ast@.sig
            &&& model.item@.stmts == ast@.stmts
            &&& model.item@.attrs == ast@.attrs.filter(others())
            &&& model.fields.deep_view() == ast@.attrs.filter(trace_fields()).map_values(
                |a: crate::syntax::AttributeView| field_argument(a, true).unwrap(),
            ).reverse()
        },
{
    proof {
        lemma_analysis_keeps_function(ast@, meta@);
    }
    let ItemFn { attrs, vis, sig, stmts } = ast;
    let (attrs, fields) = match take_trace_fields(attrs, true) {
        Ok(kept_and_fields) => kept_and_fields,
        Err(i) => return Err(Abort::TraceFieldNotAssignment(i)),
    };

    let mut level = String::from_str("Level :: DEBUG");
    let mut name = String::from_str("\"server_end\"");
    let mut skip: Vec<String> = Vec::new();
    let ghost vars = meta@;
    let mut i: usize = 0;
    assert(vars.take(0) =~= Seq::<ArgumentView>::empty());
    assert(skip.deep_view() =~= Seq::<Seq<char>>::empty());
    while i < meta.vars.len()
        invariant
            i <= meta.vars.len(),
            vars == meta@,
            settings_of(vars.take(i as int)) == (Settings { level: level@, name: name@, skip: skip.deep_view() }),
        decreases meta.vars.len() - i,
    {
        assert(vars.take(i + 1).drop_last() =~= vars.take(i as int));
        assert(vars[i as int] == meta.vars@[i as int]@);
        apply(&mut level, &mut name, &mut skip, &meta.vars[i]);
        i = i + 1;
    }
    assert(vars.take(meta.vars.len() as int) =~= vars);
    Ok(Model { fields, item: ItemFn { attrs, vis, sig, stmts }, level, name, skip })
}

} // verus!
