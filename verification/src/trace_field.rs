//! The `trace_field` attributes of a function: finding them, reading the
//! expression each one holds, and taking them out of the attribute list.

use vstd::prelude::*;
use crate::syntax::{Attribute, AttributeView};
use crate::text::text_eq;

verus! {

/// Whether an attribute is a `trace_field` attribute: its path is that one
/// identifier.
pub open spec fn is_trace_field(a: AttributeView) -> bool {
    a.ident == Some("trace_field"@)
}

/// The expression that a `trace_field` attribute holds in parentheses, where
/// it holds one that is accepted: any expression, or only an assignment where
/// `assignment` is set.
pub open spec fn field_argument(a: AttributeView, assignment: bool) -> Option<Seq<char>> {
    match a.argument {
        Some((e, is_assign)) => if is_assign || !assignment {
            Some(e)
        } else {
            None
        },
        None => None,
    }
}

/// The attributes that are kept, and the fields read, when the attributes of
/// a list are taken from the last to the first; or the index of the
/// `trace_field` attribute (the last one without an accepted expression) that
/// stops the work.
pub open spec fn extract_fields(attrs: Seq<AttributeView>, assignment: bool) -> Result<
    (Seq<AttributeView>, Seq<Seq<char>>),
    int,
>
    decreases attrs.len(),
{
    if attrs.len() == 0 {
        Ok((Seq::empty(), Seq::empty()))
    } else {
        match extract_fields(attrs.drop_first(), assignment) {
            Err(i) => Err(i + 1),
            Ok((kept, fields)) => if is_trace_field(attrs[0]) {
                match field_argument(attrs[0], assignment) {
                    Some(e) => Ok((kept, fields.push(e))),
                    None => Err(0),
                }
            } else {
                Ok((seq![attrs[0]] + kept, fields))
            },
        }
    }
}

/// Where the attributes from index `k` on stop the work at their index `j`,
/// the whole list stops it at index `j + k`.
proof fn lemma_extract_error_shift(attrs: Seq<AttributeView>, assignment: bool, k: int, j: int)
    requires
        0 <= k <= attrs.len(),
        extract_fields(attrs.skip(k), assignment) == Err::<(Seq<AttributeView>, Seq<Seq<char>>), int>(j),
    ensures
        extract_fields(attrs, assignment) == Err::<(Seq<AttributeView>, Seq<Seq<char>>), int>(j + k),
    decreases k,
{
    if k > 0 {
        assert(attrs.skip(k - 1).drop_first() =~= attrs.skip(k));
        lemma_extract_error_shift(attrs, assignment, k - 1, j + 1);
    } else {
        assert(attrs.skip(0) =~= attrs);
    }
}

/// The attributes that are no `trace_field` attribute.
pub open spec fn others() -> spec_fn(AttributeView) -> bool {
    |a: AttributeView| !is_trace_field(a)
}

/// The `trace_field` attributes.
pub open spec fn trace_fields() -> spec_fn(AttributeView) -> bool {
    |a: AttributeView| is_trace_field(a)
}

/// Whether a `trace_field` attribute holds an expression that is accepted.
pub open spec fn well_formed(a: AttributeView, assignment: bool) -> bool {
    is_trace_field(a) ==> field_argument(a, assignment) is Some
}

/// Taking the `trace_field` attributes out keeps every other attribute, in
/// its order, and nothing else; it reads one field from each `trace_field`
/// attribute, the fields coming from the last such attribute to the first.
pub proof fn lemma_extract_fields_content(attrs: Seq<AttributeView>, assignment: bool)
    requires
        extract_fields(attrs, assignment) is Ok,
    ensures
        extract_fields(attrs, assignment)->Ok_0.0 == attrs.filter(others()),
        extract_fields(attrs, assignment)->Ok_0.1 == attrs.filter(trace_fields()).map_values(
            |a: AttributeView| field_argument(a, assignment).unwrap(),
        ).reverse(),
        forall|i: int| 0 <= i < extract_fields(attrs, assignment)->Ok_0.0.len()
            ==> !is_trace_field(#[trigger] extract_fields(attrs, assignment)->Ok_0.0[i]),
    decreases attrs.len(),
{
    broadcast use vstd::seq_lib::group_seq_properties;
    if attrs.len() == 0 {
        assert(attrs.filter(others()) =~= Seq::<AttributeView>::empty());
        assert(attrs.filter(trace_fields()) =~= Seq::<AttributeView>::empty());
    } else {
        let rest = attrs.drop_first();
        lemma_extract_fields_content(rest, assignment);
        assert(attrs =~= seq![attrs[0]] + rest);
        rest.lemma_filter_prepend(attrs[0], others());
        rest.lemma_filter_prepend(attrs[0], trace_fields());
        let f = |a: AttributeView| field_argument(a, assignment).unwrap();
        let tail = rest.filter(trace_fields()).map_values(f);
        if is_trace_field(attrs[0]) {
            assert(attrs.filter(others()) =~= rest.filter(others()));
            assert(attrs.filter(trace_fields()) =~= seq![attrs[0]] + rest.filter(trace_fields()));
            let whole = attrs.filter(trace_fields()).map_values(f);
            assert(whole =~= seq![f(attrs[0])] + tail);
            assert(whole.reverse() =~= tail.reverse().push(f(attrs[0])));
        } else {
            assert(attrs.filter(others()) =~= seq![attrs[0]] + rest.filter(others()));
            assert(attrs.filter(trace_fields()) =~= rest.filter(trace_fields()));
            let kept = extract_fields(attrs, assignment)->Ok_0.0;
            assert forall|i: int| 0 <= i < kept.len() implies !is_trace_field(#[trigger] kept[i]) by {
                if i > 0 {
                    assert(kept[i] == extract_fields(rest, assignment)->Ok_0.0[i - 1]);
                }
            }
        }
    }
}

/// The work succeeds exactly where every `trace_field` attribute holds an
/// accepted expression; where it stops, it stops at the last one that holds
/// none.
pub proof fn lemma_extract_fields_success(attrs: Seq<AttributeView>, assignment: bool)
    ensures
        extract_fields(attrs, assignment) is Ok <==> forall|i: int| 0 <= i < attrs.len()
            ==> #[trigger] well_formed(attrs[i], assignment),
        extract_fields(attrs, assignment) matches Err(k) ==> {
            &&& 0 <= k < attrs.len()
            &&& !well_formed(attrs[k], assignment)
            &&& forall|j: int| k < j < attrs.len() ==> #[trigger] well_formed(attrs[j], assignment)
        },
    decreases attrs.len(),
{
    if attrs.len() > 0 {
        let rest = attrs.drop_first();
        lemma_extract_fields_success(rest, assignment);
        assert forall|i: int| 0 < i < attrs.len() implies #[trigger] well_formed(attrs[i], assignment)
            == well_formed(rest[i - 1], assignment) by {}
        if extract_fields(attrs, assignment) is Ok {
            assert forall|i: int| 0 <= i < attrs.len() implies #[trigger] well_formed(attrs[i], assignment) by {
                if i > 0 {
                    assert(well_formed(rest[i - 1], assignment));
                }
            }
        }
        if forall|i: int| 0 <= i < attrs.len() ==> #[trigger] well_formed(attrs[i], assignment) {
            assert forall|i: int| 0 <= i < rest.len() implies #[trigger] well_formed(rest[i], assignment) by {
                assert(well_formed(attrs[i + 1], assignment));
            }
            assert(well_formed(attrs[0], assignment));
        }
        if let Err(k) = extract_fields(attrs, assignment) {
            if let Err(k1) = extract_fields(rest, assignment) {
                assert(k == k1 + 1);
                assert forall|j: int| k < j < attrs.len() implies #[trigger] well_formed(attrs[j], assignment) by {
                    assert(well_formed(rest[j - 1], assignment));
                }
            } else {
                assert(k == 0);
                assert forall|j: int| k < j < attrs.len() implies #[trigger] well_formed(attrs[j], assignment) by {
                    assert(well_formed(rest[j - 1], assignment));
                }
            }
        }
    }
}

/// Whether the attribute's path is `trace_field`.
pub fn names_trace_field(a: &Attribute) -> (r: bool)
    ensures
        r == is_trace_field(a@),
{
    match &a.ident {
        Some(id) => text_eq(id.as_str(), "trace_field"),
        None => false,
    }
}

/// Reads the expression that a `trace_field` attribute holds into `fields`,
/// or gives back the attribute's `index`, leaving `fields` as it is, where it
/// holds none that is accepted.
pub fn get_field(fields: &mut Vec<String>, index: usize, argument: &Option<(String, bool)>, assignment: bool) -> (r: Result<(), usize>)
    ensures
        match argument.deep_view() {
            Some((e, is_assign)) if is_assign || !assignment => r is Ok
                && final(fields).deep_view() == old(fields).deep_view().push(e),
            _ => r == Err::<(), usize>(index) && final(fields)@ == old(fields)@,
        },
{
    match argument {
        Some((e, is_assign)) => {
            if *is_assign || !assignment {
                fields.push(e.clone());
                proof {
                    assert(final(fields).deep_view() =~= old(fields).deep_view().push(e@));
                }
                Ok(())
            } else {
                Err(index)
            }
        },
        None => Err(index),
    }
}

/// Takes the `trace_field` attributes out of a list, from the last to the
/// first, reading the expression each one holds. Gives back the attributes
/// that stay and the fields; or the index of the attribute that stops the
/// work.
pub fn take_trace_fields(attrs: Vec<Attribute>, assignment: bool) -> (r: Result<(Vec<Attribute>, Vec<String>), usize>)
    ensures
        match extract_fields(attrs@.map_values(|a: Attribute| a@), assignment) {
            Err(i) => r == Err::<(Vec<Attribute>, Vec<String>), usize>(i as usize),
            Ok((kept, fields)) => r matches Ok((rest, found)) && rest@.map_values(|a: Attribute| a@) == kept
                && found.deep_view() == fields,
        },
{
    let ghost all = attrs@.map_values(|a: Attribute| a@);
    let mut rest = attrs;
    let mut fields: Vec<String> = Vec::new();
    let mut index = rest.len();
    assert(all.skip(index as int) =~= Seq::<AttributeView>::empty());
    while index > 0
        invariant
            index <= rest.len(),
            all == attrs@.map_values(|a: Attribute| a@),
            all.len() >= rest.len(),
            extract_fields(all.skip(index as int), assignment) matches Ok((kept, found)) && {
                &&& rest@.map_values(|a: Attribute| a@) == all.take(index as int) + kept
                &&& fields.deep_view() == found
            },
        decreases index,
    {
        let ghost before = rest@;
        let ghost kept = extract_fields(all.skip(index as int), assignment)->Ok_0.0;
        index = index - 1;
        assert(all.skip(index as int).drop_first() =~= all.skip(index + 1));
        assert(all.skip(index as int)[0] == all[index as int]);
        assert(all.take(index + 1) =~= all.take(index as int).push(all[index as int]));
        assert(before.map_values(|a: Attribute| a@)[index as int] == all[index as int]);
        assert(before[index as int]@ == all[index as int]);
        if names_trace_field(&rest[index]) {
            let attr = rest.remove(index);
            assert(attr@ == all[index as int]);
            let res = get_field(&mut fields, index, &attr.argument, assignment);
            if res.is_err() {
                proof {
                    assert(extract_fields(all.skip(index as int), assignment) == Err::<
                        (Seq<AttributeView>, Seq<Seq<char>>),
                        int,
                    >(0));
                    lemma_extract_error_shift(all, assignment, index as int, 0);
                }
                return Err(index);
            }
            assert(rest@ == before.remove(index as int));
            assert(before.map_values(|a: Attribute| a@) =~= all.take(index as int) + seq![all[index as int]] + kept);
            assert forall|j: int| 0 <= j < rest@.len() implies #[trigger] rest@[j]@ == (all.take(
                index as int,
            ) + kept)[j] by {
                if j < index {
                    assert(rest@[j] == before[j]);
                    assert(before.map_values(|a: Attribute| a@)[j] == before[j]@);
                } else {
                    assert(rest@[j] == before[j + 1]);
                    assert(before.map_values(|a: Attribute| a@)[j + 1] == before[j + 1]@);
                }
            }
            assert(rest@.map_values(|a: Attribute| a@) =~= all.take(index as int) + kept);
        } else {
            assert(rest@.map_values(|a: Attribute| a@) =~= all.take(index as int) + (seq![all[index as int]] + kept));
        }
    }
    assert(all.skip(0) =~= all);
    Ok((rest, fields))
}

} // verus!
