//! Rendering of the impl block that carries the two constant arrays.
use crate::model::{DeclInput, DeriveError};
use crate::receiver::{decl_fields, descs_of, names_of, views, Receiver, models};
use vstd::prelude::*;

verus! {

/// The token text of a string literal holding `s`, quoted and escaped.
pub uninterp spec fn string_literal_of(s: Seq<char>) -> Seq<char>;

/// Relies on proc_macro2::Literal::string and its `Display`: the token text of a
/// string literal with the given contents, which depends on the contents alone.
#[verifier::external_body]
fn string_literal(s: &String) -> (r: String)
    ensures
        r@ == string_literal_of(s@),
{
    proc_macro2::Literal::string(s).to_string()
}

pub open spec fn digit_char(d: nat) -> char {
    seq!['0', '1', '2', '3', '4', '5', '6', '7', '8', '9'][d as int]
}

/// The decimal digits of `n`.
pub open spec fn decimal(n: nat) -> Seq<char>
    decreases n,
{
    if n < 10 {
        seq![digit_char(n)]
    } else {
        decimal(n / 10).push(digit_char(n % 10))
    }
}

/// Relies on proc_macro2::Literal::usize_suffixed and its `Display`: the value
/// in decimal followed by the suffix `usize`.
#[verifier::external_body]
fn usize_literal(n: usize) -> (r: String)
    ensures
        r@ == decimal(n as nat) + "usize"@,
{
    proc_macro2::Literal::usize_suffixed(n).to_string()
}

/// The first `n` strings as literals, separated by commas.
pub open spec fn joined_literals(xs: Seq<Seq<char>>, n: nat) -> Seq<char>
    decreases n,
{
    if n == 0 {
        Seq::empty()
    } else if n == 1 {
        string_literal_of(xs[0])
    } else {
        joined_literals(xs, (n - 1) as nat) + ", "@ + string_literal_of(xs[n - 1])
    }
}

/// The impl block for type `ident` with the given generics texts, whose two
/// constant arrays hold `names` and `descs` (of the same length).
pub open spec fn fragment_text(
    ident: Seq<char>,
    impl_generics: Seq<char>,
    ty_generics: Seq<char>,
    where_clause: Seq<char>,
    names: Seq<Seq<char>>,
    descs: Seq<Seq<char>>,
) -> Seq<char> {
    let len = decimal(names.len()) + "usize"@;
    "#[automatically_derived] impl "@ + impl_generics + " "@ + ident + " "@ + ty_generics + " "@
        + where_clause + " { pub const FIELDS: [&'static str; "@ + len + "] = ["@
        + joined_literals(names, names.len()) + "]; pub const DESCS: [&'static str; "@ + len
        + "] = ["@ + joined_literals(descs, descs.len()) + "]; }"@
}

/// Appends the strings of `xs` as literals separated by commas.
fn push_literals(out: &mut String, xs: &Vec<String>)
    ensures
        final(out)@ == old(out)@ + joined_literals(views(xs@), xs@.len()),
{
    let ghost start = out@;
    let mut i: usize = 0;
    while i < xs.len()
        invariant
            i <= xs@.len(),
            out@ == start + joined_literals(views(xs@), i as nat),
        decreases xs@.len() - i,
    {
        if i > 0 {
            out.append(", ");
        }
        let lit = string_literal(&xs[i]);
        out.append(lit.as_str());
        assert(views(xs@)[i as int] == xs@[i as int]@);
        i = i + 1;
    }
}

impl Receiver {
    /// The impl block that gives the type its `FIELDS` and `DESCS` arrays.
    pub fn to_tokens(&self) -> (r: String)
        ensures
            r@ == fragment_text(
                self.ident@,
                self.impl_generics@,
                self.ty_generics@,
                self.where_clause@,
                names_of(models(self.fields@)),
                descs_of(models(self.fields@)),
            ),
    {
        let (fields, descs) = self.project();
        proof {
            crate::receiver::lemma_projection_aligned(models(self.fields@));
        }
        let fields_len = usize_literal(fields.len());
        let mut out = String::from_str("#[automatically_derived] impl ");
        out.append(self.impl_generics.as_str());
        out.append(" ");
        out.append(self.ident.as_str());
        out.append(" ");
        out.append(self.ty_generics.as_str());
        out.append(" ");
        out.append(self.where_clause.as_str());
        out.append(" { pub const FIELDS: [&'static str; ");
        out.append(fields_len.as_str());
        out.append("] = [");
        push_literals(&mut out, &fields);
        out.append("]; pub const DESCS: [&'static str; ");
        out.append(fields_len.as_str());
        out.append("] = [");
        push_literals(&mut out, &descs);
        out.append("]; }");
        out
    }
}

/// What the derive returns for `input`: the impl block text for a valid
/// declaration, or the reason it is rejected.
pub open spec fn derive_outcome(input: DeclInput, r: Result<String, DeriveError>) -> bool {
    match decl_fields(input) {
        Ok(ms) => r matches Ok(s) && s@ == fragment_text(
            input.ident@,
            input.impl_generics@,
            input.ty_generics@,
            input.where_clause@,
            names_of(ms),
            descs_of(ms),
        ),
        Err(e) => r matches Err(x) && x == e,
    }
}

/// The whole derive: the impl block for a valid declaration, or why it is rejected.
pub fn derive_field_names(input: &DeclInput) -> (r: Result<String, DeriveError>)
    ensures
        derive_outcome(*input, r),
{
    match Receiver::from_derive_input(input) {
        Ok(rc) => Ok(rc.to_tokens()),
        Err(e) => Err(e),
    }
}

} // verus!
