//! Properties of the whole derive, proved over the contracts' models.
use crate::annotation::{
    is_desc_key, is_skip_key, lemma_scan_attrs_err, lemma_scan_items_err, no_options, options_of,
    scan_attrs, scan_items, SeenOptions,
};
use crate::emit::derive_outcome;
use crate::model::{AnnotationError, Attr, Body, DeclInput, DeriveError, MetaItem, ShapeKind};
use crate::receiver::{
    decl_fields, descs_of, has_positional, ident_of, lemma_scan_fields_err, names_of,
    scan_fields, FieldModel,
};
use vstd::prelude::*;

verus! {

/// How many fields are marked skipped.
pub open spec fn count_skipped(ms: Seq<FieldModel>) -> nat
    decreases ms.len(),
{
    if ms.len() == 0 {
        0
    } else {
        count_skipped(ms.drop_last()) + if ms.last().skip {
            1nat
        } else {
            0nat
        }
    }
}

/// The indices of the fields that are not skipped, in increasing order.
pub open spec fn kept_indices(ms: Seq<FieldModel>) -> Seq<int>
    decreases ms.len(),
{
    if ms.len() == 0 {
        Seq::empty()
    } else {
        let p = kept_indices(ms.drop_last());
        if ms.last().skip {
            p
        } else {
            p.push(ms.len() - 1)
        }
    }
}

/// Of a struct with N fields of which K are skipped, both arrays have N - K entries.
pub proof fn lemma_array_lengths(ms: Seq<FieldModel>)
    ensures
        names_of(ms).len() == ms.len() - count_skipped(ms),
        descs_of(ms).len() == ms.len() - count_skipped(ms),
    decreases ms.len(),
{
    if ms.len() > 0 {
        lemma_array_lengths(ms.drop_last());
    }
}

/// Entry i of both arrays comes from one and the same field, the fields that are
/// not skipped all appear, and they appear in declaration order.
pub proof fn lemma_aligned_in_order(ms: Seq<FieldModel>)
    ensures
        kept_indices(ms).len() == names_of(ms).len(),
        kept_indices(ms).len() == descs_of(ms).len(),
        forall|i: int|
            #![trigger kept_indices(ms)[i]]
            0 <= i < kept_indices(ms).len() ==> {
                let j = kept_indices(ms)[i];
                &&& 0 <= j < ms.len()
                &&& !ms[j].skip
                &&& names_of(ms)[i] == ms[j].name
                &&& descs_of(ms)[i] == ms[j].desc
            },
        forall|i: int, k: int|
            0 <= i < k < kept_indices(ms).len() ==> kept_indices(ms)[i] < kept_indices(ms)[k],
        forall|j: int|
            0 <= j < ms.len() && !(#[trigger] ms[j]).skip ==> kept_indices(ms).contains(j),
    decreases ms.len(),
{
    if ms.len() > 0 {
        let prev = ms.drop_last();
        lemma_aligned_in_order(prev);
        let p = kept_indices(prev);
        assert forall|j: int| 0 <= j < ms.len() && !(#[trigger] ms[j]).skip implies kept_indices(
            ms,
        ).contains(j) by {
            if j < ms.len() - 1 {
                assert(prev[j] == ms[j]);
                let w = choose|w: int| 0 <= w < p.len() && p[w] == j;
                assert(kept_indices(ms)[w] == j);
            } else {
                assert(kept_indices(ms)[p.len() as int] == j);
            }
        }
    }
}

/// The fields that a valid declaration yields: one per field, in order, each with
/// the field's identifier and the options its annotations give.
pub proof fn lemma_fields_follow_declaration(fs: Seq<crate::model::FieldInput>, n: nat)
    requires
        n <= fs.len(),
        scan_fields(fs, n) is Ok,
    ensures
        scan_fields(fs, n)->Ok_0.len() == n,
        forall|i: int|
            0 <= i < n ==> {
                let m = #[trigger] scan_fields(fs, n)->Ok_0[i];
                &&& m.name == ident_of(fs[i])
                &&& options_of(fs[i].attrs@) == Ok::<(bool, Seq<char>), AnnotationError>(
                    (m.skip, m.desc),
                )
            },
    decreases n,
{
    if n > 0 {
        lemma_fields_follow_declaration(fs, (n - 1) as nat);
    }
}

/// A field with no `field_names` annotation is not skipped and has an empty description.
pub proof fn lemma_defaults(attrs: Seq<Attr>)
    requires
        forall|a: int| 0 <= a < attrs.len() ==> (#[trigger] attrs[a]).path@ != "field_names"@,
    ensures
        options_of(attrs) == Ok::<(bool, Seq<char>), AnnotationError>((false, Seq::empty())),
{
    lemma_scan_attrs_unannotated(attrs, attrs.len());
}

proof fn lemma_scan_attrs_unannotated(attrs: Seq<Attr>, n: nat)
    requires
        n <= attrs.len(),
        forall|a: int| 0 <= a < attrs.len() ==> (#[trigger] attrs[a]).path@ != "field_names"@,
    ensures
        scan_attrs(attrs, n) == Ok::<SeenOptions, AnnotationError>(no_options()),
    decreases n,
{
    if n > 0 {
        lemma_scan_attrs_unannotated(attrs, (n - 1) as nat);
    }
}

/// Running the derive twice on one declaration gives the same text, or the same error.
pub proof fn lemma_rerun_identical(
    input: DeclInput,
    r1: Result<String, DeriveError>,
    r2: Result<String, DeriveError>,
)
    requires
        derive_outcome(input, r1),
        derive_outcome(input, r2),
    ensures
        r1 is Ok <==> r2 is Ok,
        r1 is Ok ==> r1->Ok_0@ == r2->Ok_0@,
        r1 is Err ==> r1 == r2,
{
}

/// A struct with a positional field is rejected for its shape.
pub proof fn lemma_positional_rejected(input: DeclInput)
    requires
        input.body matches Body::Struct(fs) && has_positional(fs@),
    ensures
        decl_fields(input) == Err::<Seq<FieldModel>, DeriveError>(
            DeriveError::UnsupportedShape(ShapeKind::Tuple),
        ),
{
}

/// An entry whose key is neither `skip` nor `desc`.
pub open spec fn is_unknown_entry(item: MetaItem) -> bool {
    match item {
        MetaItem::Word(k) => !is_skip_key(k@) && !is_desc_key(k@),
        MetaItem::NameValue(k, _) => !is_skip_key(k@) && !is_desc_key(k@),
        MetaItem::List(k) => !is_skip_key(k@) && !is_desc_key(k@),
        MetaItem::Literal => false,
    }
}

/// A named-field struct with an unknown key in some field's `field_names`
/// annotation is rejected with an annotation error.
pub proof fn lemma_unknown_key_rejected(input: DeclInput, f: int, a: int, k: int)
    requires
        input.body is Struct,
        !has_positional(input.body->Struct_0@),
        0 <= f < input.body->Struct_0@.len(),
        0 <= a < input.body->Struct_0@[f].attrs@.len(),
        input.body->Struct_0@[f].attrs@[a].path@ == "field_names"@,
        input.body->Struct_0@[f].attrs@[a].args is List,
        0 <= k < input.body->Struct_0@[f].attrs@[a].args->List_0@.len(),
        is_unknown_entry(input.body->Struct_0@[f].attrs@[a].args->List_0@[k]),
    ensures
        decl_fields(input) matches Err(DeriveError::Annotation { .. }),
{
    let fs = input.body->Struct_0@;
    let attrs = fs[f].attrs@;
    lemma_scan_attrs_fails_at(attrs, a, k);
    lemma_scan_attrs_err(attrs, (a + 1) as nat, attrs.len());
    assert(options_of(attrs) is Err);
    lemma_scan_fields_fails(fs, f);
    lemma_scan_fields_err(fs, (f + 1) as nat, fs.len());
}

proof fn lemma_scan_attrs_fails_at(attrs: Seq<Attr>, a: int, k: int)
    requires
        0 <= a < attrs.len(),
        attrs[a].path@ == "field_names"@,
        attrs[a].args is List,
        0 <= k < attrs[a].args->List_0@.len(),
        is_unknown_entry(attrs[a].args->List_0@[k]),
    ensures
        scan_attrs(attrs, (a + 1) as nat) is Err,
{
    let items = attrs[a].args->List_0@;
    match scan_attrs(attrs, a as nat) {
        Ok(s) => {
            if scan_items(s, items, a as usize, k as nat) is Err {
                lemma_scan_items_err(s, items, a as usize, k as nat, items.len());
            } else {
                assert(scan_items(s, items, a as usize, (k + 1) as nat) is Err);
                lemma_scan_items_err(s, items, a as usize, (k + 1) as nat, items.len());
            }
        },
        Err(_) => {},
    }
}

proof fn lemma_scan_fields_fails(fs: Seq<crate::model::FieldInput>, f: int)
    requires
        0 <= f < fs.len(),
        options_of(fs[f].attrs@) is Err,
    ensures
        scan_fields(fs, (f + 1) as nat) matches Err(DeriveError::Annotation { .. }),
{
    lemma_scan_fields_errs_are_annotations(fs, f as nat);
}

proof fn lemma_scan_fields_errs_are_annotations(fs: Seq<crate::model::FieldInput>, n: nat)
    ensures
        scan_fields(fs, n) is Err ==> scan_fields(fs, n) matches Err(DeriveError::Annotation { .. }),
    decreases n,
{
    if n > 0 {
        lemma_scan_fields_errs_are_annotations(fs, (n - 1) as nat);
    }
}

} // verus!
