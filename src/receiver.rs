//! The checked declaration and the projection of its visible fields.
use crate::annotation::{field_options, options_of};
use crate::model::{Body, DeclInput, DeriveError, FieldInput, ShapeKind};
use vstd::prelude::*;

verus! {

/// A field of a named-field struct with its options read.
#[derive(Clone, Debug)]
pub struct ReceiverField {
    pub ident: String,
    pub skip: bool,
    pub desc: String,
}

/// A field as the contracts see it.
pub struct FieldModel {
    pub name: Seq<char>,
    pub skip: bool,
    pub desc: Seq<char>,
}

impl ReceiverField {
    pub open spec fn model(self) -> FieldModel {
        FieldModel { name: self.ident@, skip: self.skip, desc: self.desc@ }
    }

    /// The field's name.
    pub fn name(&self) -> (r: String)
        ensures
            r@ == self.ident@,
    {
        self.ident.clone()
    }
}

/// A named-field struct whose annotations have all been read.
#[derive(Clone, Debug)]
pub struct Receiver {
    pub ident: String,
    pub impl_generics: String,
    pub ty_generics: String,
    pub where_clause: String,
    pub fields: Vec<ReceiverField>,
}

pub open spec fn models(fs: Seq<ReceiverField>) -> Seq<FieldModel> {
    fs.map_values(|f: ReceiverField| f.model())
}

/// Some field has no identifier: the struct is a tuple struct.
pub open spec fn has_positional(fs: Seq<FieldInput>) -> bool {
    exists|i: int| 0 <= i < fs.len() && (#[trigger] fs[i]).ident is None
}

pub open spec fn ident_of(f: FieldInput) -> Seq<char> {
    match f.ident {
        Some(id) => id@,
        None => Seq::empty(),
    }
}

/// The first `n` fields with their options read, or the first field in order
/// whose annotations are malformed.
pub open spec fn scan_fields(fs: Seq<FieldInput>, n: nat) -> Result<Seq<FieldModel>, DeriveError>
    decreases n,
{
    if n == 0 {
        Ok(Seq::empty())
    } else {
        match scan_fields(fs, (n - 1) as nat) {
            Ok(ms) => match options_of(fs[n - 1].attrs@) {
                Ok((s, d)) => Ok(ms.push(FieldModel { name: ident_of(fs[n - 1]), skip: s, desc: d })),
                Err(e) => Err(DeriveError::Annotation { field: (n - 1) as usize, error: e }),
            },
            Err(e) => Err(e),
        }
    }
}

/// The fields of a declaration, or why it is rejected: a shape other than a
/// named-field struct first, then the first malformed annotation.
pub open spec fn decl_fields(input: DeclInput) -> Result<Seq<FieldModel>, DeriveError> {
    match input.body {
        Body::Struct(fs) => if has_positional(fs@) {
            Err(DeriveError::UnsupportedShape(ShapeKind::Tuple))
        } else {
            scan_fields(fs@, fs@.len())
        },
        Body::UnitStruct => Err(DeriveError::UnsupportedShape(ShapeKind::Unit)),
        Body::Enum => Err(DeriveError::UnsupportedShape(ShapeKind::Enum)),
        Body::Union => Err(DeriveError::UnsupportedShape(ShapeKind::Union)),
    }
}

/// The fields that are not skipped, in declaration order.
pub open spec fn projected(ms: Seq<FieldModel>) -> Seq<FieldModel>
    decreases ms.len(),
{
    if ms.len() == 0 {
        ms
    } else {
        let p = projected(ms.drop_last());
        if ms.last().skip {
            p
        } else {
            p.push(ms.last())
        }
    }
}

pub open spec fn names_of(ms: Seq<FieldModel>) -> Seq<Seq<char>> {
    projected(ms).map_values(|m: FieldModel| m.name)
}

pub open spec fn descs_of(ms: Seq<FieldModel>) -> Seq<Seq<char>> {
    projected(ms).map_values(|m: FieldModel| m.desc)
}

pub open spec fn views(v: Seq<String>) -> Seq<Seq<char>> {
    v.map_values(|s: String| s@)
}

/// The two projections have one entry per field that is not skipped.
pub proof fn lemma_projection_aligned(ms: Seq<FieldModel>)
    ensures
        names_of(ms).len() == descs_of(ms).len(),
        names_of(ms).len() == projected(ms).len(),
{
}

pub proof fn lemma_scan_fields_err(fs: Seq<FieldInput>, k: nat, n: nat)
    requires
        k <= n,
        scan_fields(fs, k) is Err,
    ensures
        scan_fields(fs, n) == scan_fields(fs, k),
    decreases n - k,
{
    if k < n {
        lemma_scan_fields_err(fs, k, (n - 1) as nat);
    }
}

impl Receiver {
    /// Checks that the declaration is a struct with named fields and reads the
    /// annotations of each field.
    pub fn from_derive_input(input: &DeclInput) -> (r: Result<Receiver, DeriveError>)
        ensures
            match decl_fields(*input) {
                Ok(ms) => r matches Ok(rc) && models(rc.fields@) == ms && rc.ident@
                    == input.ident@ && rc.impl_generics@ == input.impl_generics@
                    && rc.ty_generics@ == input.ty_generics@ && rc.where_clause@
                    == input.where_clause@,
                Err(e) => r matches Err(x) && x == e,
            },
    {
        let fs = match &input.body {
            Body::Struct(fs) => fs,
            Body::UnitStruct => {
                return Err(DeriveError::UnsupportedShape(ShapeKind::Unit));
            },
            Body::Enum => {
                return Err(DeriveError::UnsupportedShape(ShapeKind::Enum));
            },
            Body::Union => {
                return Err(DeriveError::UnsupportedShape(ShapeKind::Union));
            },
        };
        let mut k: usize = 0;
        while k < fs.len()
            invariant
                k <= fs@.len(),
                input.body == Body::Struct(*fs),
                forall|j: int| 0 <= j < k ==> (#[trigger] fs@[j]).ident is Some,
            decreases fs@.len() - k,
        {
            if fs[k].ident.is_none() {
                assert(fs@[k as int].ident is None);
                return Err(DeriveError::UnsupportedShape(ShapeKind::Tuple));
            }
            k = k + 1;
        }
        assert(!has_positional(fs@));
        let mut fields: Vec<ReceiverField> = Vec::new();
        assert(models(fields@) =~= Seq::empty());
        let mut i: usize = 0;
        while i < fs.len()
            invariant
                i <= fs@.len(),
                !has_positional(fs@),
                input.body == Body::Struct(*fs),
                scan_fields(fs@, i as nat) == Ok::<Seq<FieldModel>, DeriveError>(
                    models(fields@),
                ),
            decreases fs@.len() - i,
        {
            let f = &fs[i];
            let ident = match &f.ident {
                Some(id) => id.clone(),
                None => {
                    assert(fs@[i as int].ident is None);
                    return Err(DeriveError::UnsupportedShape(ShapeKind::Tuple));
                },
            };
            match field_options(&f.attrs) {
                Ok(o) => {
                    let rf = ReceiverField { ident, skip: o.skip, desc: o.desc };
                    fields.push(rf);
                    assert(models(fields@) =~= scan_fields(fs@, i as nat)->Ok_0.push(rf.model()));
                },
                Err(e) => {
                    proof {
                        lemma_scan_fields_err(fs@, (i + 1) as nat, fs@.len());
                    }
                    return Err(DeriveError::Annotation { field: i, error: e });
                },
            }
            i = i + 1;
        }
        Ok(
            Receiver {
                ident: input.ident.clone(),
                impl_generics: input.impl_generics.clone(),
                ty_generics: input.ty_generics.clone(),
                where_clause: input.where_clause.clone(),
                fields,
            },
        )
    }

    /// The names and the descriptions of the fields that are not skipped, in
    /// declaration order, taken in one pass so that they stay aligned.
    pub fn project(&self) -> (r: (Vec<String>, Vec<String>))
        ensures
            views(r.0@) == names_of(models(self.fields@)),
            views(r.1@) == descs_of(models(self.fields@)),
    {
        let ghost ms = models(self.fields@);
        let mut names: Vec<String> = Vec::new();
        let mut descs: Vec<String> = Vec::new();
        let mut i: usize = 0;
        while i < self.fields.len()
            invariant
                i <= self.fields@.len(),
                ms == models(self.fields@),
                views(names@) == names_of(ms.take(i as int)),
                views(descs@) == descs_of(ms.take(i as int)),
            decreases self.fields@.len() - i,
        {
            let f = &self.fields[i];
            assert(ms.take(i + 1).drop_last() =~= ms.take(i as int));
            assert(ms.take(i + 1).last() == f.model());
            if !f.skip {
                names.push(f.name());
                descs.push(f.desc.clone());
                assert(names_of(ms.take(i + 1)) =~= names_of(ms.take(i as int)).push(f.ident@));
                assert(descs_of(ms.take(i + 1)) =~= descs_of(ms.take(i as int)).push(f.desc@));
            }
            assert(views(names@) =~= names_of(ms.take(i + 1)));
            assert(views(descs@) =~= descs_of(ms.take(i + 1)));
            i = i + 1;
        }
        assert(ms.take(i as int) =~= ms);
        (names, descs)
    }

    /// The names of the fields that are not skipped, in declaration order.
    pub fn fields_to_emit(&self) -> (r: Vec<String>)
        ensures
            views(r@) == names_of(models(self.fields@)),
    {
        self.project().0
    }

    /// The descriptions of the fields that are not skipped, in declaration order.
    pub fn descs(&self) -> (r: Vec<String>)
        ensures
            views(r@) == descs_of(models(self.fields@)),
    {
        self.project().1
    }
}

} // verus!
