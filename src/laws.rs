use vstd::prelude::*;

use crate::convert::{FromUnchecked, IntoUnchecked};
use crate::generate::{primary_impl, spec_generate, ConversionView, ImplView};
use crate::render::conversion_text;
use crate::shape::{
    first_int_kind, first_non_unit, int_kind_named, list_named, meta_name, repr_args,
    secondary_sources, spec_classify, Attribute, GenErrorView, IntKind, Meta, ShapeView, TypeDecl,
    Variant,
};

verus! {

/// Attributes none of which is named `uncon` declare no secondary source.
pub proof fn lemma_no_directive_no_sources(attrs: Seq<Attribute>)
    requires
        forall|i: int| 0 <= i < attrs.len() ==> attrs[i].name@ != "uncon"@,
    ensures
        secondary_sources(attrs) == Seq::<Seq<char>>::empty(),
    decreases attrs.len(),
{
    if attrs.len() > 0 {
        lemma_no_directive_no_sources(attrs.drop_last());
        assert(secondary_sources(attrs) =~= Seq::<Seq<char>>::empty());
    }
}

/// A single-field wrapper with no generation directive gets exactly one
/// implementation: from its field's type, placing the input into that field.
pub proof fn lemma_wrapper_single_impl(decl: TypeDecl)
    requires
        decl.body is Struct,
        decl.body->Struct_0@.len() == 1,
        forall|i: int| 0 <= i < decl.attrs@.len() ==> decl.attrs@[i].name@ != "uncon"@,
    ensures
        spec_generate(decl) == Ok::<Seq<ImplView>, GenErrorView>(
            seq![
                ImplView {
                    source: decl.body->Struct_0@[0].ty@,
                    conversion: ConversionView::Construct(
                        decl.body->Struct_0@[0].name.deep_view(),
                    ),
                },
            ],
        ),
{
    lemma_no_directive_no_sources(decl.attrs@);
    let shape = spec_classify(decl)->Ok_0;
    assert(seq![primary_impl(shape)] + Seq::<Seq<char>>::empty().map_values(
        |s: Seq<char>| crate::generate::secondary_impl(crate::generate::primary_type(shape), s),
    ) =~= seq![primary_impl(shape)]);
}

/// A single-field wrapper with field type `F` and secondary sources
/// `S1, ..., Sn` gets `1 + n` implementations: the primary one from `F`, then,
/// for each `Si` in order, one that casts its input to `F` and calls the
/// primary one.
pub proof fn lemma_wrapper_secondary_impls(decl: TypeDecl)
    requires
        decl.body is Struct,
        decl.body->Struct_0@.len() == 1,
    ensures
        ({
            let field = decl.body->Struct_0@[0];
            let sources = secondary_sources(decl.attrs@);
            let impls = spec_generate(decl)->Ok_0;
            &&& spec_generate(decl) is Ok
            &&& impls.len() == 1 + sources.len()
            &&& impls[0] == ImplView {
                source: field.ty@,
                conversion: ConversionView::Construct(field.name.deep_view()),
            }
            &&& forall|i: int|
                0 <= i < sources.len() ==> #[trigger] impls[i + 1] == ImplView {
                    source: sources[i],
                    conversion: ConversionView::CastAndDelegate(field.ty@),
                }
            &&& forall|i: int|
                0 <= i < sources.len() ==> conversion_text(
                    decl.name@,
                    sources[i],
                    #[trigger] impls[i + 1].conversion,
                ) == "<Self as ::uncon::FromUnchecked<"@ + field.ty@
                    + ">>::from_unchecked(inner as "@ + field.ty@ + ")"@
        }),
{
}

/// A data-less enum whose first `repr` list names the integer kind `R` gets,
/// as its primary implementation, one from `R` that reinterprets the input's
/// bits as the enum, and its shape lists the variants in declaration order.
pub proof fn lemma_enum_primary_impl(decl: TypeDecl, r: IntKind)
    requires
        decl.body is Enum,
        forall|i: int|
            0 <= i < decl.body->Enum_0@.len() ==> (#[trigger] decl.body->Enum_0@[i]).is_unit,
        repr_args(decl.attrs@) is Some,
        first_int_kind(repr_args(decl.attrs@)->Some_0) == Some(r),
    ensures
        spec_generate(decl) is Ok,
        spec_generate(decl)->Ok_0[0] == (ImplView {
            source: r.spec_name(),
            conversion: ConversionView::Reinterpret,
        }),
        spec_classify(decl) == Ok::<ShapeView, GenErrorView>(
            ShapeView::UnitEnum {
                variants: decl.body->Enum_0@.map_values(|v: Variant| v.name@),
                repr: r,
            },
        ),
{
    lemma_all_unit(decl.body->Enum_0@);
}

/// Variants that all carry no data have no first non-unit variant.
pub proof fn lemma_all_unit(variants: Seq<Variant>)
    requires
        forall|i: int| 0 <= i < variants.len() ==> (#[trigger] variants[i]).is_unit,
    ensures
        first_non_unit(variants) is None,
    decreases variants.len(),
{
    if variants.len() > 0 {
        lemma_all_unit(variants.drop_last());
    }
}

/// Where some variant carries data, the first non-unit variant is one that
/// carries data and comes no later than it, with only unit variants before it.
pub proof fn lemma_first_non_unit(variants: Seq<Variant>, i: int)
    requires
        0 <= i < variants.len(),
        !variants[i].is_unit,
    ensures
        exists|j: int|
            0 <= j <= i && !variants[j].is_unit && first_non_unit(variants) == Some(
                variants[j].name@,
            ) && forall|k: int| 0 <= k < j ==> (#[trigger] variants[k]).is_unit,
    decreases variants.len(),
{
    let p = variants.drop_last();
    if i < variants.len() - 1 {
        lemma_first_non_unit(p, i);
        let j = choose|j: int|
            0 <= j <= i && !p[j].is_unit && first_non_unit(p) == Some(p[j].name@) && forall|k: int|
                0 <= k < j ==> (#[trigger] p[k]).is_unit;
        assert(forall|k: int| 0 <= k < j ==> p[k] == variants[k]);
    } else if exists|m: int| 0 <= m < p.len() && !(#[trigger] p[m]).is_unit {
        let m = choose|m: int| 0 <= m < p.len() && !(#[trigger] p[m]).is_unit;
        lemma_first_non_unit(p, m);
        let j = choose|j: int|
            0 <= j <= m && !p[j].is_unit && first_non_unit(p) == Some(p[j].name@) && forall|k: int|
                0 <= k < j ==> (#[trigger] p[k]).is_unit;
        assert(forall|k: int| 0 <= k < j ==> p[k] == variants[k]);
    } else {
        lemma_all_unit(p);
        assert forall|k: int| 0 <= k < i implies (#[trigger] variants[k]).is_unit by {
            assert(p[k] == variants[k]);
        }
    }
}

/// An enum with a variant that carries data is refused, and the diagnostic
/// names a variant that carries data: the first one.
pub proof fn lemma_non_unit_refused(decl: TypeDecl, i: int)
    requires
        decl.body is Enum,
        0 <= i < decl.body->Enum_0@.len(),
        !decl.body->Enum_0@[i].is_unit,
    ensures
        exists|j: int|
            0 <= j <= i && !decl.body->Enum_0@[j].is_unit && spec_generate(decl) == Err::<
                Seq<ImplView>,
                GenErrorView,
            >(GenErrorView::NonUnitVariant(decl.body->Enum_0@[j].name@)),
{
    lemma_first_non_unit(decl.body->Enum_0@, i);
}

/// Attributes none of which is `repr(...)` have no `repr` argument list.
pub proof fn lemma_no_repr(attrs: Seq<Attribute>)
    requires
        forall|i: int| 0 <= i < attrs.len() ==> list_named(#[trigger] attrs[i], "repr"@) is None,
    ensures
        repr_args(attrs) is None,
    decreases attrs.len(),
{
    if attrs.len() > 0 {
        lemma_no_repr(attrs.drop_last());
    }
}

/// A data-less enum with no `repr(...)` attribute is refused.
pub proof fn lemma_missing_repr_refused(decl: TypeDecl)
    requires
        decl.body is Enum,
        forall|i: int|
            0 <= i < decl.body->Enum_0@.len() ==> (#[trigger] decl.body->Enum_0@[i]).is_unit,
        forall|i: int|
            0 <= i < decl.attrs@.len() ==> list_named(#[trigger] decl.attrs@[i], "repr"@) is None,
    ensures
        spec_generate(decl) == Err::<Seq<ImplView>, GenErrorView>(GenErrorView::MissingRepr),
{
    lemma_all_unit(decl.body->Enum_0@);
    lemma_no_repr(decl.attrs@);
}

/// Arguments none of which names an integer kind name none.
pub proof fn lemma_no_int_kind(args: Seq<Meta>)
    requires
        forall|i: int|
            0 <= i < args.len() ==> meta_name(#[trigger] args[i]) is None || int_kind_named(
                meta_name(args[i])->Some_0,
            ) is None,
    ensures
        first_int_kind(args) is None,
    decreases args.len(),
{
    if args.len() > 0 {
        lemma_no_int_kind(args.drop_last());
    }
}

/// A data-less enum whose `repr(...)` list names no integer kind is refused.
pub proof fn lemma_no_integer_repr_refused(decl: TypeDecl)
    requires
        decl.body is Enum,
        forall|i: int|
            0 <= i < decl.body->Enum_0@.len() ==> (#[trigger] decl.body->Enum_0@[i]).is_unit,
        repr_args(decl.attrs@) is Some,
        forall|i: int|
            0 <= i < repr_args(decl.attrs@)->Some_0.len() ==> meta_name(
                #[trigger] repr_args(decl.attrs@)->Some_0[i],
            ) is None || int_kind_named(meta_name(repr_args(decl.attrs@)->Some_0[i])->Some_0)
                is None,
    ensures
        spec_generate(decl) == Err::<Seq<ImplView>, GenErrorView>(GenErrorView::NoIntegerRepr),
{
    lemma_all_unit(decl.body->Enum_0@);
    lemma_no_int_kind(repr_args(decl.attrs@)->Some_0);
}

/// A struct with no field, or with more than one, is refused.
pub proof fn lemma_field_count_refused(decl: TypeDecl)
    requires
        decl.body is Struct,
        decl.body->Struct_0@.len() != 1,
    ensures
        spec_generate(decl) == Err::<Seq<ImplView>, GenErrorView>(GenErrorView::NotSingleField),
{
}

/// Converting `a` into `B` through `IntoUnchecked` asks the same of `a`, and
/// may give exactly the values that building a `B` from `a` through
/// `FromUnchecked` may build.
pub proof fn lemma_into_is_from<A, B: FromUnchecked<A>>(a: A, b: B)
    ensures
        <A as IntoUnchecked<B>>::admits_into(a) == B::admits(a),
        <A as IntoUnchecked<B>>::gives(a, b) == B::builds(a, b),
{
}

} // verus!
