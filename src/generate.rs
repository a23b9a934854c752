use vstd::prelude::*;
use vstd::string::*;

use crate::shape::{
    classify, collect_secondary_sources, secondary_sources, spec_classify, FieldBinding, GenError,
    GenErrorView, Generics, ShapeView, TypeDecl, TypeShape,
};

verus! {

/// The body of one generated conversion.
#[derive(Debug)]
pub enum Conversion {
    /// Places the input into the wrapper's single field.
    Construct(FieldBinding),
    /// Reinterprets the input's bits as the enum, with no check of the value.
    Reinterpret,
    /// Casts the input to the named primary type, then calls the primary conversion.
    CastAndDelegate(String),
}

/// One generated implementation of `FromUnchecked<source>` for the target type.
#[derive(Debug)]
pub struct Implementation {
    /// The source type as source text.
    pub source: String,
    pub conversion: Conversion,
}

/// Everything generated for one declaration.
#[derive(Debug)]
pub struct Generated {
    /// The target type's name.
    pub target: String,
    /// The target's generics, carried into every implementation unchanged.
    pub generics: Generics,
    /// The primary implementation first, then one per secondary source, in order.
    pub impls: Vec<Implementation>,
}

/// What a `Conversion` describes, as mathematical values.
pub enum ConversionView {
    /// The field's name; `None` for a positional field.
    Construct(Option<Seq<char>>),
    Reinterpret,
    CastAndDelegate(Seq<char>),
}

/// What an `Implementation` describes, as mathematical values.
pub struct ImplView {
    pub source: Seq<char>,
    pub conversion: ConversionView,
}

impl View for Conversion {
    type V = ConversionView;

    open spec fn view(&self) -> ConversionView {
        match self {
            Conversion::Construct(b) => ConversionView::Construct(b@),
            Conversion::Reinterpret => ConversionView::Reinterpret,
            Conversion::CastAndDelegate(p) => ConversionView::CastAndDelegate(p@),
        }
    }
}

impl View for Implementation {
    type V = ImplView;

    open spec fn view(&self) -> ImplView {
        ImplView { source: self.source@, conversion: self.conversion@ }
    }
}

/// The implementations of `g`, as mathematical values.
pub open spec fn impls_view(g: Generated) -> Seq<ImplView> {
    g.impls@.map_values(|i: Implementation| i@)
}

/// The primary representation type of a shape: the wrapped field's type, or
/// the enum's integer representation.
pub open spec fn primary_type(shape: ShapeView) -> Seq<char> {
    match shape {
        ShapeView::SingleFieldWrapper { field_type, .. } => field_type,
        ShapeView::UnitEnum { repr, .. } => repr.spec_name(),
    }
}

/// The primary implementation for a shape.
pub open spec fn primary_impl(shape: ShapeView) -> ImplView {
    match shape {
        ShapeView::SingleFieldWrapper { field_type, field_name } => ImplView {
            source: field_type,
            conversion: ConversionView::Construct(field_name),
        },
        ShapeView::UnitEnum { repr, .. } => ImplView {
            source: repr.spec_name(),
            conversion: ConversionView::Reinterpret,
        },
    }
}

/// The implementation from a secondary source type `s`, given the primary type.
pub open spec fn secondary_impl(primary: Seq<char>, s: Seq<char>) -> ImplView {
    ImplView { source: s, conversion: ConversionView::CastAndDelegate(primary) }
}

/// The implementations generated for `decl`: the primary one, then one per
/// declared secondary source in order; or why none can be.
pub open spec fn spec_generate(decl: TypeDecl) -> Result<Seq<ImplView>, GenErrorView> {
    match spec_classify(decl) {
        Err(e) => Err(e),
        Ok(shape) => Ok(
            seq![primary_impl(shape)] + secondary_sources(decl.attrs@).map_values(
                |s: Seq<char>| secondary_impl(primary_type(shape), s),
            ),
        ),
    }
}

fn clone_generics(g: &Generics) -> (r: Generics)
    ensures
        r == *g,
{
    Generics {
        impl_params: g.impl_params.clone(),
        type_args: g.type_args.clone(),
        where_clause: g.where_clause.clone(),
    }
}

/// Works out every implementation to generate for `decl`, or the reason that
/// none can be generated.
pub fn generate(decl: &TypeDecl) -> (r: Result<Generated, GenError>)
    ensures
        match spec_generate(*decl) {
            Ok(impls) => r is Ok && r->Ok_0.target@ == decl.name@ && r->Ok_0.generics
                == decl.generics && impls_view(r->Ok_0) == impls,
            Err(e) => r is Err && r->Err_0@ == e,
        },
{
    let shape = match classify(decl) {
        Ok(s) => s,
        Err(e) => {
            return Err(e);
        },
    };
    let ghost sv = shape@;
    let (primary, conversion) = match shape {
        TypeShape::SingleFieldWrapper { field_type, binding } => (
            field_type,
            Conversion::Construct(binding),
        ),
        TypeShape::UnitEnum { repr, .. } => (repr.name(), Conversion::Reinterpret),
    };
    assert(primary@ == primary_type(sv));
    let sources = collect_secondary_sources(&decl.attrs);
    let ghost secondary = secondary_sources(decl.attrs@).map_values(
        |s: Seq<char>| secondary_impl(primary_type(sv), s),
    );
    let mut impls: Vec<Implementation> = Vec::new();
    impls.push(Implementation { source: primary.clone(), conversion });
    assert(impls@.map_values(|i: Implementation| i@) =~= seq![primary_impl(sv)]);
    let mut i: usize = 0;
    while i < sources.len()
        invariant
            0 <= i <= sources@.len(),
            sources.deep_view() == secondary_sources(decl.attrs@),
            secondary.len() == sources@.len(),
            primary@ == primary_type(sv),
            secondary == secondary_sources(decl.attrs@).map_values(
                |s: Seq<char>| secondary_impl(primary_type(sv), s),
            ),
            impls@.map_values(|i: Implementation| i@) =~= seq![primary_impl(sv)]
                + secondary.subrange(0, i as int),
        decreases sources@.len() - i,
    {
        let ghost before = impls@.map_values(|i: Implementation| i@);
        let item = Implementation {
            source: sources[i].clone(),
            conversion: Conversion::CastAndDelegate(primary.clone()),
        };
        assert(item@ == secondary[i as int]) by {
            assert(sources.deep_view()[i as int] == sources@[i as int]@);
        }
        impls.push(item);
        assert(impls@.map_values(|i: Implementation| i@) =~= before.push(item@));
        assert(secondary.subrange(0, i + 1) =~= secondary.subrange(0, i as int).push(
            secondary[i as int],
        ));
        i = i + 1;
    }
    assert(secondary.subrange(0, sources@.len() as int) =~= secondary);
    Ok(Generated { target: decl.name.clone(), generics: clone_generics(&decl.generics), impls })
}

} // verus!
