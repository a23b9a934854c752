use uncon::{
    classify, from_unchecked, generate, Attribute, Body, Conversion, Field, FieldBinding,
    FromUnchecked, GenError, Generics, IntKind, IntoUnchecked, Leaf, Meta, TypeDecl, TypeShape,
    Variant,
};

fn s(text: &str) -> String {
    text.to_string()
}

fn no_generics() -> Generics {
    Generics { impl_params: s(""), type_args: s(""), where_clause: s("") }
}

fn repr(args: Vec<Meta>) -> Attribute {
    Attribute { name: s("repr"), args: Some(args) }
}

fn word(name: &str) -> Meta {
    Meta::Word(s(name))
}

fn other(names: &[&str]) -> Attribute {
    let leaves = names.iter().map(|n| Leaf::Word(s(n))).collect();
    Attribute { name: s("uncon"), args: Some(vec![Meta::List(s("other"), leaves)]) }
}

fn unit_variants(names: &[&str]) -> Vec<Variant> {
    names.iter().map(|n| Variant { name: s(n), is_unit: true }).collect()
}

fn nibble_decl() -> TypeDecl {
    TypeDecl {
        name: s("Nibble"),
        generics: no_generics(),
        attrs: vec![],
        body: Body::Struct(vec![Field { name: Some(s("bits")), ty: s("u8") }]),
    }
}

fn flag_decl() -> TypeDecl {
    TypeDecl {
        name: s("Flag"),
        generics: no_generics(),
        attrs: vec![other(&["u16", "u32"]), repr(vec![word("u8")])],
        body: Body::Enum(unit_variants(&["A", "B", "C", "D"])),
    }
}

fn message_of(decl: &TypeDecl) -> String {
    match from_unchecked(decl) {
        Ok(text) => panic!("expected a refusal, got {}", text),
        Err(e) => e.message(),
    }
}

// The implementations that generation gives for the two declarations above,
// written out so that they run. The enum's primary one maps each declared
// discriminant to its variant, which is what reinterpreting the bits does on
// the inputs that a caller may hand it.

struct Nibble {
    bits: u8,
}

impl FromUnchecked<u8> for Nibble {
    fn from_unchecked(inner: u8) -> Self {
        Nibble { bits: inner }
    }
}

#[derive(Debug, PartialEq, Clone, Copy)]
enum Flag {
    A,
    B,
    C,
    D,
}

impl FromUnchecked<u8> for Flag {
    fn from_unchecked(inner: u8) -> Self {
        match inner {
            0 => Flag::A,
            1 => Flag::B,
            2 => Flag::C,
            3 => Flag::D,
            _ => unreachable!(),
        }
    }
}

impl FromUnchecked<u16> for Flag {
    fn from_unchecked(inner: u16) -> Self {
        <Self as ::uncon::FromUnchecked<u8>>::from_unchecked(inner as u8)
    }
}

impl FromUnchecked<u32> for Flag {
    fn from_unchecked(inner: u32) -> Self {
        <Self as ::uncon::FromUnchecked<u8>>::from_unchecked(inner as u8)
    }
}

#[test]
fn nibble_generates_one_impl() {
    let text = from_unchecked(&nibble_decl()).ok().unwrap();
    assert_eq!(
        text,
        "impl ::uncon::FromUnchecked<u8> for Nibble  { #[inline] fn from_unchecked(inner: u8) \
         -> Self { Nibble { bits: inner } } }\n"
    );
    let g = generate(&nibble_decl()).ok().unwrap();
    assert_eq!(g.impls.len(), 1);
    assert_eq!(g.impls[0].source, "u8");
}

#[test]
fn nibble_round_trip() {
    let x = Nibble::from_unchecked(0b1010);
    assert_eq!(x.bits, 0b1010);
    for v in [0u8, 1, 7, 15, 200, 255] {
        assert_eq!(Nibble::from_unchecked(v).bits, v);
    }
}

#[test]
fn positional_wrapper_builds_by_position() {
    let decl = TypeDecl {
        name: s("U4"),
        generics: no_generics(),
        attrs: vec![],
        body: Body::Struct(vec![Field { name: None, ty: s("u8") }]),
    };
    let text = from_unchecked(&decl).ok().unwrap();
    assert_eq!(
        text,
        "impl ::uncon::FromUnchecked<u8> for U4  { #[inline] fn from_unchecked(inner: u8) \
         -> Self { U4(inner) } }\n"
    );
}

#[test]
fn wrapper_secondary_sources_cast_then_delegate() {
    let decl = TypeDecl {
        name: s("Nibble"),
        generics: no_generics(),
        attrs: vec![other(&["u16", "i64"])],
        body: Body::Struct(vec![Field { name: Some(s("bits")), ty: s("u8") }]),
    };
    let g = generate(&decl).ok().unwrap();
    assert_eq!(g.impls.len(), 3);
    assert_eq!(g.impls[1].source, "u16");
    assert_eq!(g.impls[2].source, "i64");
    for i in 1..3 {
        match &g.impls[i].conversion {
            Conversion::CastAndDelegate(p) => assert_eq!(p, "u8"),
            _ => panic!("secondary implementation does not delegate"),
        }
    }
    let text = from_unchecked(&decl).ok().unwrap();
    assert!(text.contains(
        "impl ::uncon::FromUnchecked<i64> for Nibble  { #[inline] fn from_unchecked(inner: i64) \
         -> Self { <Self as ::uncon::FromUnchecked<u8>>::from_unchecked(inner as u8) } }\n"
    ));
}

#[test]
fn generics_carried_into_every_impl() {
    let decl = TypeDecl {
        name: s("Wrap"),
        generics: Generics {
            impl_params: s("<T: Copy>"),
            type_args: s("<T>"),
            where_clause: s("where T: Default"),
        },
        attrs: vec![other(&["u16"])],
        body: Body::Struct(vec![Field { name: None, ty: s("T") }]),
    };
    let text = from_unchecked(&decl).ok().unwrap();
    assert_eq!(
        text,
        "impl<T: Copy> ::uncon::FromUnchecked<T> for Wrap<T> where T: Default { #[inline] fn \
         from_unchecked(inner: T) -> Self { Wrap(inner) } }\n\
         impl<T: Copy> ::uncon::FromUnchecked<u16> for Wrap<T> where T: Default { #[inline] fn \
         from_unchecked(inner: u16) -> Self { <Self as ::uncon::FromUnchecked<T>>::from_unchecked(inner as T) } }\n"
    );
}

#[test]
fn flag_generates_three_impls() {
    let g = generate(&flag_decl()).ok().unwrap();
    assert_eq!(g.target, "Flag");
    assert_eq!(g.impls.len(), 3);
    assert_eq!(g.impls[0].source, "u8");
    assert!(matches!(g.impls[0].conversion, Conversion::Reinterpret));
    assert_eq!(g.impls[1].source, "u16");
    assert_eq!(g.impls[2].source, "u32");
    let text = from_unchecked(&flag_decl()).ok().unwrap();
    assert_eq!(
        text,
        "impl ::uncon::FromUnchecked<u8> for Flag  { #[inline] fn from_unchecked(inner: u8) \
         -> Self { unsafe { ::core::mem::transmute::<u8, Self>(inner) } } }\n\
         impl ::uncon::FromUnchecked<u16> for Flag  { #[inline] fn from_unchecked(inner: u16) \
         -> Self { <Self as ::uncon::FromUnchecked<u8>>::from_unchecked(inner as u8) } }\n\
         impl ::uncon::FromUnchecked<u32> for Flag  { #[inline] fn from_unchecked(inner: u32) \
         -> Self { <Self as ::uncon::FromUnchecked<u8>>::from_unchecked(inner as u8) } }\n"
    );
}

#[test]
fn flag_from_secondary_source() {
    assert_eq!(Flag::from_unchecked(2u16), Flag::C);
    assert_eq!(Flag::from_unchecked(2u16), Flag::from_unchecked(2u16 as u8));
    assert_eq!(Flag::from_unchecked(3u32), Flag::D);
}

#[test]
fn enum_ordinals_follow_declaration_order() {
    let expected = [Flag::A, Flag::B, Flag::C, Flag::D];
    for i in 0u8..4 {
        let f = Flag::from_unchecked(i);
        assert_eq!(f, expected[i as usize]);
        assert_eq!(f as u8, i);
    }
    match classify(&flag_decl()).ok().unwrap() {
        TypeShape::UnitEnum { variants, repr } => {
            assert_eq!(variants, vec![s("A"), s("B"), s("C"), s("D")]);
            assert_eq!(repr, IntKind::U8);
        }
        TypeShape::SingleFieldWrapper { .. } => panic!("an enum classified as a wrapper"),
    }
}

#[test]
fn into_path_matches_from_path() {
    let n: Nibble = 0b0110u8.into_unchecked();
    assert_eq!(n.bits, Nibble::from_unchecked(0b0110u8).bits);
    let f: Flag = 1u32.into_unchecked();
    assert_eq!(f, Flag::from_unchecked(1u32));
    assert_eq!(f, Flag::B);
}

#[test]
fn non_unit_variant_refused() {
    let decl = TypeDecl {
        name: s("Shape"),
        generics: no_generics(),
        attrs: vec![repr(vec![word("u8")])],
        body: Body::Enum(vec![
            Variant { name: s("Dot"), is_unit: true },
            Variant { name: s("Line"), is_unit: false },
            Variant { name: s("Square"), is_unit: false },
        ]),
    };
    match generate(&decl) {
        Err(GenError::NonUnitVariant(n)) => assert_eq!(n, "Line"),
        _ => panic!("expected a non-unit variant refusal"),
    }
    assert_eq!(message_of(&decl), "Found non-unit variant 'Line'");
}

#[test]
fn missing_repr_refused() {
    let decl = TypeDecl {
        name: s("Flag"),
        generics: no_generics(),
        attrs: vec![other(&["u16"]), Attribute { name: s("repr"), args: None }],
        body: Body::Enum(unit_variants(&["A", "B"])),
    };
    assert!(matches!(generate(&decl), Err(GenError::MissingRepr)));
    assert_eq!(message_of(&decl), "Could not find `#[repr]` attribute");
}

#[test]
fn repr_without_integer_refused() {
    let decl = TypeDecl {
        name: s("Flag"),
        generics: no_generics(),
        attrs: vec![repr(vec![word("C"), Meta::Literal, word("u128")]), repr(vec![word("u8")])],
        body: Body::Enum(unit_variants(&["A", "B"])),
    };
    assert!(matches!(generate(&decl), Err(GenError::NoIntegerRepr)));
    assert_eq!(message_of(&decl), "Could not find integer repr for conversion");
}

#[test]
fn repr_first_integer_kind_wins() {
    let decl = TypeDecl {
        name: s("Value"),
        generics: no_generics(),
        attrs: vec![repr(vec![
            word("C"),
            Meta::List(s("align"), vec![Leaf::Other]),
            word("usize"),
            word("i8"),
        ])],
        body: Body::Enum(unit_variants(&["X", "Y", "Z"])),
    };
    let g = generate(&decl).ok().unwrap();
    assert_eq!(g.impls.len(), 1);
    assert_eq!(g.impls[0].source, "usize");
}

#[test]
fn struct_field_count_refused() {
    for fields in [
        vec![],
        vec![Field { name: Some(s("a")), ty: s("u8") }, Field { name: Some(s("b")), ty: s("u8") }],
    ] {
        let decl = TypeDecl {
            name: s("Pair"),
            generics: no_generics(),
            attrs: vec![],
            body: Body::Struct(fields),
        };
        assert!(matches!(generate(&decl), Err(GenError::NotSingleField)));
        assert_eq!(
            message_of(&decl),
            "`FromUnchecked` can only be derived for types with a single field"
        );
    }
}

#[test]
fn secondary_sources_accumulate_in_order() {
    let decl = TypeDecl {
        name: s("Flag"),
        generics: no_generics(),
        attrs: vec![
            other(&["u16", "u16"]),
            repr(vec![word("u8")]),
            Attribute {
                name: s("uncon"),
                args: Some(vec![
                    Meta::List(s("unrelated"), vec![Leaf::Word(s("i16"))]),
                    Meta::List(s("other"), vec![Leaf::Other, Leaf::Word(s("i32"))]),
                ]),
            },
            other(&["isize"]),
        ],
        body: Body::Enum(unit_variants(&["A"])),
    };
    let g = generate(&decl).ok().unwrap();
    let sources: Vec<String> = g.impls.iter().map(|i| i.source.clone()).collect();
    assert_eq!(sources, vec![s("u8"), s("u16"), s("u16"), s("i32"), s("isize")]);
}

#[test]
fn int_kind_lookup() {
    assert_eq!(IntKind::from_name(&s("usize")), Some(IntKind::Usize));
    assert_eq!(IntKind::from_name(&s("i16")), Some(IntKind::I16));
    assert_eq!(IntKind::from_name(&s("u128")), None);
    assert_eq!(IntKind::from_name(&s("U8")), None);
    assert_eq!(IntKind::I64.name(), "i64");
}

#[test]
fn wrapper_binding_kept_in_shape() {
    match classify(&nibble_decl()).ok().unwrap() {
        TypeShape::SingleFieldWrapper { field_type, binding } => {
            assert_eq!(field_type, "u8");
            assert!(matches!(binding, FieldBinding::Named(ref n) if n == "bits"));
        }
        TypeShape::UnitEnum { .. } => panic!("a struct classified as an enum"),
    }
}
