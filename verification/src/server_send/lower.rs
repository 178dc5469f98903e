//! Lowering the model to what the code generation writes.

use vstd::prelude::*;
use crate::server_send::analyze::{Model, ModelView};
use crate::syntax::{ItemFn, ItemFnView};

verus! {

/// What the code generation writes: the span fields, the function, and the
/// span's level, name and skipped parameters.
pub struct Ir {
    pub fields: Vec<Field>,
    pub item: ItemFn,
    pub level: String,
    pub name: String,
    pub skip: Vec<String>,
}

/// A span field, such as `x = 0`.
pub struct Field {
    pub expr: String,
}

pub struct IrView {
    pub fields: Seq<Seq<char>>,
    pub item: ItemFnView,
    pub level: Seq<char>,
    pub name: Seq<char>,
    pub skip: Seq<Seq<char>>,
}

impl View for Ir {
    type V = IrView;

    open spec fn view(&self) -> IrView {
        IrView {
            fields: field_texts(self.fields@),
            item: self.item@,
            level: self.level@,
            name: self.name@,
            skip: self.skip.deep_view(),
        }
    }
}

/// The texts of a list of fields.
pub open spec fn field_texts(fields: Seq<Field>) -> Seq<Seq<char>> {
    fields.map_values(|f: Field| f.expr@)
}

/// The lowering of a model: one field for each field assignment, in order;
/// the function and the span's level, name and skipped parameters as they
/// are.
pub open spec fn lower_ir(m: ModelView) -> IrView {
    IrView { fields: m.fields, item: m.item, level: m.level, name: m.name, skip: m.skip }
}

/// Lowers the model: one field for each field assignment, in order; the
/// function and the span's level, name and skipped parameters as they are.
pub fn lower(model: Model) -> (ir: Ir)
    ensures
        ir@ == lower_ir(model@),
        field_texts(ir.fields@) == model.fields.deep_view(),
        ir.item@ == model.item@,
        ir.level@ == model.level@,
        ir.name@ == model.name@,
        ir.skip.deep_view() == model.skip.deep_view(),
{
    let Model { fields, item, level, name, skip } = model;
    let ghost texts = fields.deep_view();
    let mut lowered: Vec<Field> = Vec::new();
    let mut i: usize = 0;
    while i < fields.len()
        invariant
            i <= fields.len(),
            texts == fields.deep_view(),
            lowered.len() == i,
            field_texts(lowered@) == texts.take(i as int),
        decreases fields.len() - i,
    {
        let expr = fields[i].clone();
        assert(texts[i as int] == fields@[i as int]@);
        let ghost prev = lowered@;
        lowered.push(Field { expr });
        assert forall|j: int| 0 <= j < i + 1 implies #[trigger] field_texts(lowered@)[j] == texts.take(i + 1)[j] by {
            if j < i {
                assert(lowered@[j] == prev[j]);
                assert(field_texts(prev)[j] == texts.take(i as int)[j]);
            }
        }
        assert(field_texts(lowered@) =~= texts.take(i + 1));
        i = i + 1;
    }
    assert(texts.take(fields.len() as int) =~= texts);
    Ir { fields: lowered, item, level, name, skip }
}

} // verus!
