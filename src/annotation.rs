//! The grammar of `#[field_names(...)]`: the keys `skip` (a flag or a boolean)
//! and `desc` (a string), each at most once per field.
use crate::model::{AnnotationError, Attr, AttrArgs, Lit, MetaItem};
use vstd::prelude::*;

verus! {

/// The options of one field, with their defaults filled in.
#[derive(Clone, Debug)]
pub struct FieldOptions {
    pub skip: bool,
    pub desc: String,
}

/// The options seen so far while scanning a field's annotations.
pub struct SeenOptions {
    pub skip: Option<bool>,
    pub desc: Option<Seq<char>>,
}

pub open spec fn no_options() -> SeenOptions {
    SeenOptions { skip: None, desc: None }
}

pub open spec fn is_skip_key(k: Seq<char>) -> bool {
    k == "skip"@
}

pub open spec fn is_desc_key(k: Seq<char>) -> bool {
    k == "desc"@
}

/// The boolean that a literal gives to `skip`: a boolean literal, or the
/// strings "true" and "false".
pub open spec fn bool_of_lit(l: Lit) -> Option<bool> {
    match l {
        Lit::Bool(b) => Some(b),
        Lit::Str(s) => if s@ == "true"@ {
            Some(true)
        } else if s@ == "false"@ {
            Some(false)
        } else {
            None
        },
        Lit::Other => None,
    }
}

/// The effect of entry `i` of attribute `a` on the options seen so far.
pub open spec fn item_step(st: SeenOptions, item: MetaItem, a: usize, i: usize) -> Result<
    SeenOptions,
    AnnotationError,
> {
    let unknown = AnnotationError::UnknownKey { attr: a, item: i };
    let dup = AnnotationError::DuplicateKey { attr: a, item: i };
    let bad = AnnotationError::UnexpectedValue { attr: a, item: i };
    match item {
        MetaItem::Literal => Err(AnnotationError::UnexpectedLiteral { attr: a, item: i }),
        MetaItem::Word(k) => if is_skip_key(k@) {
            if st.skip is Some { Err(dup) } else { Ok(SeenOptions { skip: Some(true), ..st }) }
        } else if is_desc_key(k@) {
            if st.desc is Some { Err(dup) } else { Err(bad) }
        } else {
            Err(unknown)
        },
        MetaItem::NameValue(k, l) => if is_skip_key(k@) {
            if st.skip is Some {
                Err(dup)
            } else {
                match bool_of_lit(l) {
                    Some(b) => Ok(SeenOptions { skip: Some(b), ..st }),
                    None => Err(bad),
                }
            }
        } else if is_desc_key(k@) {
            if st.desc is Some {
                Err(dup)
            } else {
                match l {
                    Lit::Str(s) => Ok(SeenOptions { desc: Some(s@), ..st }),
                    _ => Err(bad),
                }
            }
        } else {
            Err(unknown)
        },
        MetaItem::List(k) => if is_skip_key(k@) {
            if st.skip is Some { Err(dup) } else { Err(bad) }
        } else if is_desc_key(k@) {
            if st.desc is Some { Err(dup) } else { Err(bad) }
        } else {
            Err(unknown)
        },
    }
}

/// The options after the first `n` entries of attribute `a`, starting from `st`;
/// the first malformed entry ends the scan.
pub open spec fn scan_items(st: SeenOptions, items: Seq<MetaItem>, a: usize, n: nat) -> Result<
    SeenOptions,
    AnnotationError,
>
    decreases n,
{
    if n == 0 {
        Ok(st)
    } else {
        match scan_items(st, items, a, (n - 1) as nat) {
            Ok(s) => item_step(s, items[n - 1], a, (n - 1) as usize),
            Err(e) => Err(e),
        }
    }
}

/// The effect of attribute `a`: attributes of other paths are ignored.
pub open spec fn attr_step(st: SeenOptions, attr: Attr, a: usize) -> Result<
    SeenOptions,
    AnnotationError,
> {
    if attr.path@ != "field_names"@ {
        Ok(st)
    } else {
        match attr.args {
            AttrArgs::Word => Ok(st),
            AttrArgs::Value => Err(AnnotationError::NameValueForm { attr: a }),
            AttrArgs::List(items) => scan_items(st, items@, a, items@.len()),
        }
    }
}

/// The options after the first `n` attributes of a field.
pub open spec fn scan_attrs(attrs: Seq<Attr>, n: nat) -> Result<SeenOptions, AnnotationError>
    decreases n,
{
    if n == 0 {
        Ok(no_options())
    } else {
        match scan_attrs(attrs, (n - 1) as nat) {
            Ok(s) => attr_step(s, attrs[n - 1], (n - 1) as usize),
            Err(e) => Err(e),
        }
    }
}

/// What a field's attributes give: its skip flag and description, false and
/// empty where absent, or the first malformed entry.
pub open spec fn options_of(attrs: Seq<Attr>) -> Result<(bool, Seq<char>), AnnotationError> {
    match scan_attrs(attrs, attrs.len()) {
        Ok(s) => Ok(
            (
                match s.skip {
                    Some(b) => b,
                    None => false,
                },
                match s.desc {
                    Some(d) => d,
                    None => Seq::empty(),
                },
            ),
        ),
        Err(e) => Err(e),
    }
}

pub open spec fn seen_view(skip: Option<bool>, desc: Option<String>) -> SeenOptions {
    SeenOptions {
        skip,
        desc: match desc {
            Some(s) => Some(s@),
            None => None,
        },
    }
}

pub proof fn lemma_scan_items_err(st: SeenOptions, items: Seq<MetaItem>, a: usize, k: nat, n: nat)
    requires
        k <= n,
        scan_items(st, items, a, k) is Err,
    ensures
        scan_items(st, items, a, n) == scan_items(st, items, a, k),
    decreases n - k,
{
    if k < n {
        lemma_scan_items_err(st, items, a, k, (n - 1) as nat);
    }
}

pub proof fn lemma_scan_attrs_err(attrs: Seq<Attr>, k: nat, n: nat)
    requires
        k <= n,
        scan_attrs(attrs, k) is Err,
    ensures
        scan_attrs(attrs, n) == scan_attrs(attrs, k),
    decreases n - k,
{
    if k < n {
        lemma_scan_attrs_err(attrs, k, (n - 1) as nat);
    }
}

fn key_is(k: &String, key: &str) -> (r: bool)
    ensures
        r == (k@ == key@),
{
    let s = String::from_str(key);
    k.eq(&s)
}

fn lit_bool(l: &Lit) -> (r: Option<bool>)
    ensures
        r == bool_of_lit(*l),
{
    match l {
        Lit::Bool(b) => Some(*b),
        Lit::Str(s) => if key_is(s, "true") {
            Some(true)
        } else if key_is(s, "false") {
            Some(false)
        } else {
            None
        },
        Lit::Other => None,
    }
}

fn apply_item(skip: Option<bool>, desc: Option<String>, item: &MetaItem, a: usize, i: usize) -> (r:
    Result<(Option<bool>, Option<String>), AnnotationError>)
    ensures
        match item_step(seen_view(skip, desc), *item, a, i) {
            Ok(s) => r matches Ok((k, d)) && seen_view(k, d) == s,
            Err(e) => r == Err::<(Option<bool>, Option<String>), AnnotationError>(e),
        },
{
    let unknown = AnnotationError::UnknownKey { attr: a, item: i };
    let dup = AnnotationError::DuplicateKey { attr: a, item: i };
    let bad = AnnotationError::UnexpectedValue { attr: a, item: i };
    match item {
        MetaItem::Literal => Err(AnnotationError::UnexpectedLiteral { attr: a, item: i }),
        MetaItem::Word(k) => if key_is(k, "skip") {
            if skip.is_some() { Err(dup) } else { Ok((Some(true), desc)) }
        } else if key_is(k, "desc") {
            if desc.is_some() { Err(dup) } else { Err(bad) }
        } else {
            Err(unknown)
        },
        MetaItem::NameValue(k, l) => if key_is(k, "skip") {
            if skip.is_some() {
                Err(dup)
            } else {
                match lit_bool(l) {
                    Some(b) => Ok((Some(b), desc)),
                    None => Err(bad),
                }
            }
        } else if key_is(k, "desc") {
            if desc.is_some() {
                Err(dup)
            } else {
                match l {
                    Lit::Str(s) => Ok((skip, Some(s.clone()))),
                    _ => Err(bad),
                }
            }
        } else {
            Err(unknown)
        },
        MetaItem::List(k) => if key_is(k, "skip") {
            if skip.is_some() { Err(dup) } else { Err(bad) }
        } else if key_is(k, "desc") {
            if desc.is_some() { Err(dup) } else { Err(bad) }
        } else {
            Err(unknown)
        },
    }
}

/// Reads a field's `field_names` annotations: its skip flag and description,
/// false and empty where absent, or the first malformed entry in order.
pub fn field_options(attrs: &Vec<Attr>) -> (r: Result<FieldOptions, AnnotationError>)
    ensures
        match options_of(attrs@) {
            Ok((s, d)) => r matches Ok(o) && o.skip == s && o.desc@ == d,
            Err(e) => r matches Err(x) && x == e,
        },
{
    let mut skip: Option<bool> = None;
    let mut desc: Option<String> = None;
    let mut a: usize = 0;
    while a < attrs.len()
        invariant
            a <= attrs@.len(),
            scan_attrs(attrs@, a as nat) == Ok::<SeenOptions, AnnotationError>(
                seen_view(skip, desc),
            ),
        decreases attrs@.len() - a,
    {
        let attr = &attrs[a];
        if key_is(&attr.path, "field_names") {
            match &attr.args {
                AttrArgs::Word => {},
                AttrArgs::Value => {
                    proof {
                        lemma_scan_attrs_err(attrs@, (a + 1) as nat, attrs@.len());
                    }
                    return Err(AnnotationError::NameValueForm { attr: a });
                },
                AttrArgs::List(items) => {
                    let ghost st0 = seen_view(skip, desc);
                    let mut i: usize = 0;
                    while i < items.len()
                        invariant
                            i <= items@.len(),
                            a < attrs@.len(),
                            attrs@[a as int].path@ == "field_names"@,
                            attrs@[a as int].args matches AttrArgs::List(v) && v@ == items@,
                            scan_attrs(attrs@, a as nat) == Ok::<SeenOptions, AnnotationError>(
                                st0,
                            ),
                            scan_items(st0, items@, a, i as nat) == Ok::<
                                SeenOptions,
                                AnnotationError,
                            >(seen_view(skip, desc)),
                        decreases items@.len() - i,
                    {
                        match apply_item(skip, desc, &items[i], a, i) {
                            Ok((k, d)) => {
                                skip = k;
                                desc = d;
                            },
                            Err(e) => {
                                proof {
                                    lemma_scan_items_err(
                                        st0,
                                        items@,
                                        a,
                                        (i + 1) as nat,
                                        items@.len(),
                                    );
                                    lemma_scan_attrs_err(attrs@, (a + 1) as nat, attrs@.len());
                                }
                                return Err(e);
                            },
                        }
                        i = i + 1;
                    }
                },
            }
        }
        a = a + 1;
    }
    Ok(
        FieldOptions {
            skip: match skip {
                Some(b) => b,
                None => false,
            },
            desc: match desc {
                Some(d) => d,
                None => String::new(),
            },
        },
    )
}

} // verus!
