use vstd::prelude::*;
use vstd::string::*;

use crate::generate::{
    generate, impls_view, spec_generate, Conversion, ConversionView, Generated, ImplView,
    Implementation,
};
use crate::shape::{GenError, GenErrorView, Generics, TypeDecl};

verus! {

/// The body of a generated `from_unchecked` for a target named `target`.
pub open spec fn conversion_text(target: Seq<char>, source: Seq<char>, c: ConversionView) -> Seq<
    char,
> {
    match c {
        ConversionView::Construct(Some(field)) => target + " { "@ + field + ": inner }"@,
        ConversionView::Construct(None) => target + "(inner)"@,
        ConversionView::Reinterpret => "unsafe { ::core::mem::transmute::<"@ + source
            + ", Self>(inner) }"@,
        ConversionView::CastAndDelegate(p) => "<Self as ::uncon::FromUnchecked<"@ + p
            + ">>::from_unchecked(inner as "@ + p + ")"@,
    }
}

/// The source text of one generated implementation.
pub open spec fn impl_text(target: Seq<char>, generics: Generics, i: ImplView) -> Seq<char> {
    "impl"@ + generics.impl_params@ + " ::uncon::FromUnchecked<"@ + i.source + "> for "@ + target
        + generics.type_args@ + " "@ + generics.where_clause@
        + " { #[inline] fn from_unchecked(inner: "@ + i.source + ") -> Self { "@
        + conversion_text(target, i.source, i.conversion) + " } }\n"@
}

/// The source text of all of `impls`, one after another.
pub open spec fn rendered(target: Seq<char>, generics: Generics, impls: Seq<ImplView>) -> Seq<char>
    decreases impls.len(),
{
    if impls.len() == 0 {
        seq![]
    } else {
        rendered(target, generics, impls.drop_last()) + impl_text(target, generics, impls.last())
    }
}

/// The diagnostic that reports `e`.
pub open spec fn error_text(e: GenErrorView) -> Seq<char> {
    match e {
        GenErrorView::NonUnitVariant(n) => "Found non-unit variant '"@ + n + "'"@,
        GenErrorView::MissingRepr => "Could not find `#[repr]` attribute"@,
        GenErrorView::NoIntegerRepr => "Could not find integer repr for conversion"@,
        GenErrorView::NotSingleField => "`FromUnchecked` can only be derived for types with a single field"@,
    }
}

impl GenError {
    /// The diagnostic that reports this error.
    pub fn message(&self) -> (r: String)
        ensures
            r@ == error_text(self@),
    {
        match self {
            GenError::NonUnitVariant(n) => {
                let mut t = String::from_str("Found non-unit variant '");
                t.append(n.as_str());
                t.append("'");
                t
            },
            GenError::MissingRepr => String::from_str("Could not find `#[repr]` attribute"),
            GenError::NoIntegerRepr => String::from_str("Could not find integer repr for conversion"),
            GenError::NotSingleField => String::from_str(
                "`FromUnchecked` can only be derived for types with a single field",
            ),
        }
    }
}

fn render_conversion(target: &String, source: &String, c: &Conversion) -> (r: String)
    ensures
        r@ == conversion_text(target@, source@, c@),
{
    match c {
        Conversion::Construct(crate::shape::FieldBinding::Named(field)) => {
            let mut t = target.clone();
            t.append(" { ");
            t.append(field.as_str());
            t.append(": inner }");
            t
        },
        Conversion::Construct(crate::shape::FieldBinding::Positional) => {
            let mut t = target.clone();
            t.append("(inner)");
            t
        },
        Conversion::Reinterpret => {
            let mut t = String::from_str("unsafe { ::core::mem::transmute::<");
            t.append(source.as_str());
            t.append(", Self>(inner) }");
            t
        },
        Conversion::CastAndDelegate(p) => {
            let mut t = String::from_str("<Self as ::uncon::FromUnchecked<");
            t.append(p.as_str());
            t.append(">>::from_unchecked(inner as ");
            t.append(p.as_str());
            t.append(")");
            t
        },
    }
}

fn render_impl(target: &String, generics: &Generics, i: &Implementation) -> (r: String)
    ensures
        r@ == impl_text(target@, *generics, i@),
{
    let body = render_conversion(target, &i.source, &i.conversion);
    let mut t = String::from_str("impl");
    t.append(generics.impl_params.as_str());
    t.append(" ::uncon::FromUnchecked<");
    t.append(i.source.as_str());
    t.append("> for ");
    t.append(target.as_str());
    t.append(generics.type_args.as_str());
    t.append(" ");
    t.append(generics.where_clause.as_str());
    t.append(" { #[inline] fn from_unchecked(inner: ");
    t.append(i.source.as_str());
    t.append(") -> Self { ");
    t.append(body.as_str());
    t.append(" } }\n");
    t
}

/// The source text of every implementation in `g`.
pub fn render(g: &Generated) -> (r: String)
    ensures
        r@ == rendered(g.target@, g.generics, impls_view(*g)),
{
    let mut out = String::new();
    let mut i: usize = 0;
    while i < g.impls.len()
        invariant
            0 <= i <= g.impls@.len(),
            out@ == rendered(g.target@, g.generics, impls_view(*g).subrange(0, i as int)),
        decreases g.impls@.len() - i,
    {
        assert(impls_view(*g).subrange(0, i + 1).drop_last() =~= impls_view(*g).subrange(
            0,
            i as int,
        ));
        let t = render_impl(&g.target, &g.generics, &g.impls[i]);
        out.append(t.as_str());
        i = i + 1;
    }
    assert(impls_view(*g).subrange(0, g.impls@.len() as int) =~= impls_view(*g));
    out
}

/// Generates the source text of the `FromUnchecked` implementations for
/// `decl`: the primary one, then one per declared secondary source; or the
/// reason that none can be generated, in which case nothing is emitted.
pub fn from_unchecked(decl: &TypeDecl) -> (r: Result<String, GenError>)
    ensures
        match spec_generate(*decl) {
            Ok(impls) => r is Ok && r->Ok_0@ == rendered(decl.name@, decl.generics, impls),
            Err(e) => r is Err && r->Err_0@ == e,
        },
{
    match generate(decl) {
        Ok(g) => Ok(render(&g)),
        Err(e) => Err(e),
    }
}

} // verus!
