use vstd::prelude::*;
use vstd::string::*;

verus! {

/// One of the ten primitive integer types that can represent a data-less enum.
#[derive(Clone, Copy, Debug, PartialEq, Eq, Structural)]
pub enum IntKind {
    I8,
    I16,
    I32,
    I64,
    Isize,
    U8,
    U16,
    U32,
    U64,
    Usize,
}

impl IntKind {
    /// The type's name as source text writes it.
    pub open spec fn spec_name(self) -> Seq<char> {
        match self {
            IntKind::I8 => seq!['i', '8'],
            IntKind::I16 => seq!['i', '1', '6'],
            IntKind::I32 => seq!['i', '3', '2'],
            IntKind::I64 => seq!['i', '6', '4'],
            IntKind::Isize => seq!['i', 's', 'i', 'z', 'e'],
            IntKind::U8 => seq!['u', '8'],
            IntKind::U16 => seq!['u', '1', '6'],
            IntKind::U32 => seq!['u', '3', '2'],
            IntKind::U64 => seq!['u', '6', '4'],
            IntKind::Usize => seq!['u', 's', 'i', 'z', 'e'],
        }
    }

    /// The type's name as source text writes it.
    pub fn name(&self) -> (r: String)
        ensures
            r@ == self.spec_name(),
    {
        match self {
            IntKind::I8 => {
                proof { reveal_strlit("i8"); }
                String::from_str("i8")
            },
            IntKind::I16 => {
                proof { reveal_strlit("i16"); }
                String::from_str("i16")
            },
            IntKind::I32 => {
                proof { reveal_strlit("i32"); }
                String::from_str("i32")
            },
            IntKind::I64 => {
                proof { reveal_strlit("i64"); }
                String::from_str("i64")
            },
            IntKind::Isize => {
                proof { reveal_strlit("isize"); }
                String::from_str("isize")
            },
            IntKind::U8 => {
                proof { reveal_strlit("u8"); }
                String::from_str("u8")
            },
            IntKind::U16 => {
                proof { reveal_strlit("u16"); }
                String::from_str("u16")
            },
            IntKind::U32 => {
                proof { reveal_strlit("u32"); }
                String::from_str("u32")
            },
            IntKind::U64 => {
                proof { reveal_strlit("u64"); }
                String::from_str("u64")
            },
            IntKind::Usize => {
                proof { reveal_strlit("usize"); }
                String::from_str("usize")
            },
        }
    }

    /// The integer kind that `name` spells, if it spells one.
    pub fn from_name(name: &String) -> (r: Option<IntKind>)
        ensures
            r == int_kind_named(name@),
    {
        let kinds = [
            IntKind::I8,
            IntKind::I16,
            IntKind::I32,
            IntKind::I64,
            IntKind::Isize,
            IntKind::U8,
            IntKind::U16,
            IntKind::U32,
            IntKind::U64,
            IntKind::Usize,
        ];
        let mut i: usize = 0;
        while i < 10
            invariant
                0 <= i <= 10,
                kinds@ == all_int_kinds(),
                forall|j: int| 0 <= j < i ==> kinds@[j].spec_name() != name@,
            decreases 10 - i,
        {
            if kinds[i].name() == *name {
                proof { lemma_int_kind_named(kinds@[i as int]); }
                return Some(kinds[i]);
            }
            i = i + 1;
        }
        proof {
            if let Some(k) = int_kind_named(name@) {
                lemma_int_kind_named(k);
                assert(all_int_kinds().contains(k));
            }
        }
        None
    }
}

/// The ten integer kinds, signed before unsigned, narrow before wide.
pub open spec fn all_int_kinds() -> Seq<IntKind> {
    seq![
        IntKind::I8,
        IntKind::I16,
        IntKind::I32,
        IntKind::I64,
        IntKind::Isize,
        IntKind::U8,
        IntKind::U16,
        IntKind::U32,
        IntKind::U64,
        IntKind::Usize,
    ]
}

/// The integer kind whose name is `s`, if there is one.
pub open spec fn int_kind_named(s: Seq<char>) -> Option<IntKind> {
    if s == IntKind::I8.spec_name() {
        Some(IntKind::I8)
    } else if s == IntKind::I16.spec_name() {
        Some(IntKind::I16)
    } else if s == IntKind::I32.spec_name() {
        Some(IntKind::I32)
    } else if s == IntKind::I64.spec_name() {
        Some(IntKind::I64)
    } else if s == IntKind::Isize.spec_name() {
        Some(IntKind::Isize)
    } else if s == IntKind::U8.spec_name() {
        Some(IntKind::U8)
    } else if s == IntKind::U16.spec_name() {
        Some(IntKind::U16)
    } else if s == IntKind::U32.spec_name() {
        Some(IntKind::U32)
    } else if s == IntKind::U64.spec_name() {
        Some(IntKind::U64)
    } else if s == IntKind::Usize.spec_name() {
        Some(IntKind::Usize)
    } else {
        None
    }
}

/// Each kind is the one that its own name looks up, and is among the ten kinds.
pub proof fn lemma_int_kind_named(k: IntKind)
    ensures
        int_kind_named(k.spec_name()) == Some(k),
        all_int_kinds().contains(k),
{
    match k {
        IntKind::I8 => assert(all_int_kinds()[0] == k),
        IntKind::I16 => assert(all_int_kinds()[1] == k),
        IntKind::I32 => assert(all_int_kinds()[2] == k),
        IntKind::I64 => assert(all_int_kinds()[3] == k),
        IntKind::Isize => assert(all_int_kinds()[4] == k),
        IntKind::U8 => assert(all_int_kinds()[5] == k),
        IntKind::U16 => assert(all_int_kinds()[6] == k),
        IntKind::U32 => assert(all_int_kinds()[7] == k),
        IntKind::U64 => assert(all_int_kinds()[8] == k),
        IntKind::Usize => assert(all_int_kinds()[9] == k),
    }
}

/// An item inside a nested directive list, such as `u16` in `#[uncon(other(u16))]`.
#[derive(Debug)]
pub enum Leaf {
    /// A plain identifier.
    Word(String),
    /// A literal, a nested list, or a `name = value` item.
    Other,
}

/// An argument of an attribute list, such as `u8` in `#[repr(u8)]` or
/// `other(u16, u32)` in `#[uncon(other(u16, u32))]`.
#[derive(Debug)]
pub enum Meta {
    /// A plain identifier.
    Word(String),
    /// A named list of items.
    List(String, Vec<Leaf>),
    /// A `name = value` item; only its name is kept.
    NameValue(String),
    /// A bare literal.
    Literal,
}

/// An attribute attached to a declaration, such as `#[repr(u8)]`.
#[derive(Debug)]
pub struct Attribute {
    pub name: String,
    /// The argument list, where the attribute has the list form `name(...)`.
    pub args: Option<Vec<Meta>>,
}

/// A field of a struct declaration.
#[derive(Debug)]
pub struct Field {
    /// The field's name; `None` for a positional field.
    pub name: Option<String>,
    /// The field's type as source text.
    pub ty: String,
}

/// A variant of an enum declaration.
#[derive(Debug)]
pub struct Variant {
    pub name: String,
    /// Whether the variant carries no data.
    pub is_unit: bool,
}

/// The body of a declaration: a struct's fields or an enum's variants.
#[derive(Debug)]
pub enum Body {
    Struct(Vec<Field>),
    Enum(Vec<Variant>),
}

/// A declaration's generic parameters, as the three pieces of source text that
/// an implementation for it needs.
#[derive(Debug)]
pub struct Generics {
    /// The parameters with their bounds, such as `<T: Copy>`, or empty.
    pub impl_params: String,
    /// The arguments of the type, such as `<T>`, or empty.
    pub type_args: String,
    /// The `where` clause, or empty.
    pub where_clause: String,
}

/// The static description of an annotated type declaration.
#[derive(Debug)]
pub struct TypeDecl {
    pub name: String,
    pub generics: Generics,
    /// The attributes, in source order.
    pub attrs: Vec<Attribute>,
    pub body: Body,
}

/// How a generated conversion places its input into a wrapper's field.
#[derive(Debug)]
pub enum FieldBinding {
    /// By field name: `W { name: inner }`.
    Named(String),
    /// By position: `W(inner)`.
    Positional,
}

/// The two shapes of declaration for which conversions can be generated.
#[derive(Debug)]
pub enum TypeShape {
    /// A struct with exactly one field.
    SingleFieldWrapper { field_type: String, binding: FieldBinding },
    /// An enum whose variants all carry no data, with an integer representation.
    UnitEnum { variants: Vec<String>, repr: IntKind },
}

/// Why no conversions can be generated for a declaration.
#[derive(Debug)]
pub enum GenError {
    /// The enum has a variant that carries data; this is the first such variant's name.
    NonUnitVariant(String),
    /// The enum has no `repr` attribute in list form.
    MissingRepr,
    /// The enum's first `repr` list names no integer kind.
    NoIntegerRepr,
    /// The struct does not have exactly one field.
    NotSingleField,
}

/// What a `TypeShape` describes, as mathematical values.
pub enum ShapeView {
    SingleFieldWrapper { field_type: Seq<char>, field_name: Option<Seq<char>> },
    UnitEnum { variants: Seq<Seq<char>>, repr: IntKind },
}

/// What a `GenError` describes, as mathematical values.
pub enum GenErrorView {
    NonUnitVariant(Seq<char>),
    MissingRepr,
    NoIntegerRepr,
    NotSingleField,
}

impl View for FieldBinding {
    type V = Option<Seq<char>>;

    open spec fn view(&self) -> Option<Seq<char>> {
        match self {
            FieldBinding::Named(n) => Some(n@),
            FieldBinding::Positional => None,
        }
    }
}

impl View for TypeShape {
    type V = ShapeView;

    open spec fn view(&self) -> ShapeView {
        match self {
            TypeShape::SingleFieldWrapper { field_type, binding } => ShapeView::SingleFieldWrapper {
                field_type: field_type@,
                field_name: binding@,
            },
            TypeShape::UnitEnum { variants, repr } => ShapeView::UnitEnum {
                variants: variants.deep_view(),
                repr: *repr,
            },
        }
    }
}

impl View for GenError {
    type V = GenErrorView;

    open spec fn view(&self) -> GenErrorView {
        match self {
            GenError::NonUnitVariant(n) => GenErrorView::NonUnitVariant(n@),
            GenError::MissingRepr => GenErrorView::MissingRepr,
            GenError::NoIntegerRepr => GenErrorView::NoIntegerRepr,
            GenError::NotSingleField => GenErrorView::NotSingleField,
        }
    }
}

/// The name of an attribute argument; a bare literal has none.
pub open spec fn meta_name(m: Meta) -> Option<Seq<char>> {
    match m {
        Meta::Word(n) => Some(n@),
        Meta::List(n, _) => Some(n@),
        Meta::NameValue(n) => Some(n@),
        Meta::Literal => None,
    }
}

/// The argument list of `a`, where `a` is named `name` and has the list form.
pub open spec fn list_named(a: Attribute, name: Seq<char>) -> Option<Seq<Meta>> {
    if a.name@ == name {
        match a.args {
            Some(v) => Some(v@),
            None => None,
        }
    } else {
        None
    }
}

/// The argument list of the first `repr(...)` attribute among `attrs`.
pub open spec fn repr_args(attrs: Seq<Attribute>) -> Option<Seq<Meta>>
    decreases attrs.len(),
{
    if attrs.len() == 0 {
        None
    } else {
        match repr_args(attrs.drop_last()) {
            Some(args) => Some(args),
            None => list_named(attrs.last(), "repr"@),
        }
    }
}

/// The integer kind named by the first argument in `args` that names one.
pub open spec fn first_int_kind(args: Seq<Meta>) -> Option<IntKind>
    decreases args.len(),
{
    if args.len() == 0 {
        None
    } else {
        match first_int_kind(args.drop_last()) {
            Some(k) => Some(k),
            None => match meta_name(args.last()) {
                Some(n) => int_kind_named(n),
                None => None,
            },
        }
    }
}

/// The name of the first variant that carries data.
pub open spec fn first_non_unit(variants: Seq<Variant>) -> Option<Seq<char>>
    decreases variants.len(),
{
    if variants.len() == 0 {
        None
    } else {
        match first_non_unit(variants.drop_last()) {
            Some(n) => Some(n),
            None => if variants.last().is_unit {
                None
            } else {
                Some(variants.last().name@)
            },
        }
    }
}

/// The plain identifiers among `leaves`, in order.
pub open spec fn words(leaves: Seq<Leaf>) -> Seq<Seq<char>>
    decreases leaves.len(),
{
    if leaves.len() == 0 {
        seq![]
    } else {
        words(leaves.drop_last()) + match leaves.last() {
            Leaf::Word(w) => seq![w@],
            Leaf::Other => seq![],
        }
    }
}

/// The identifiers inside every `other(...)` list among `args`, in order.
pub open spec fn other_sources(args: Seq<Meta>) -> Seq<Seq<char>>
    decreases args.len(),
{
    if args.len() == 0 {
        seq![]
    } else {
        other_sources(args.drop_last()) + match args.last() {
            Meta::List(n, leaves) => if n@ == "other"@ {
                words(leaves@)
            } else {
                seq![]
            },
            _ => seq![],
        }
    }
}

/// The secondary source types that the `uncon(other(...))` directives among
/// `attrs` declare, in the order in which they are written.
pub open spec fn secondary_sources(attrs: Seq<Attribute>) -> Seq<Seq<char>>
    decreases attrs.len(),
{
    if attrs.len() == 0 {
        seq![]
    } else {
        secondary_sources(attrs.drop_last()) + match list_named(attrs.last(), "uncon"@) {
            Some(args) => other_sources(args),
            None => seq![],
        }
    }
}

/// The shape of `decl`, or why it has none that conversions can be generated for.
pub open spec fn spec_classify(decl: TypeDecl) -> Result<ShapeView, GenErrorView> {
    match decl.body {
        Body::Struct(fields) => if fields@.len() == 1 {
            Ok(
                ShapeView::SingleFieldWrapper {
                    field_type: fields@[0].ty@,
                    field_name: fields@[0].name.deep_view(),
                },
            )
        } else {
            Err(GenErrorView::NotSingleField)
        },
        Body::Enum(variants) => match first_non_unit(variants@) {
            Some(n) => Err(GenErrorView::NonUnitVariant(n)),
            None => match repr_args(decl.attrs@) {
                None => Err(GenErrorView::MissingRepr),
                Some(args) => match first_int_kind(args) {
                    None => Err(GenErrorView::NoIntegerRepr),
                    Some(k) => Ok(
                        ShapeView::UnitEnum {
                            variants: variants@.map_values(|v: Variant| v.name@),
                            repr: k,
                        },
                    ),
                },
            },
        },
    }
}

/// Whether `s` reads `lit`.
fn reads(s: &String, lit: &str) -> (r: bool)
    ensures
        r == (s@ == lit@),
{
    *s == String::from_str(lit)
}

/// The argument list of the first `repr(...)` attribute among `attrs`.
pub fn find_repr_args(attrs: &Vec<Attribute>) -> (r: Option<&Vec<Meta>>)
    ensures
        match repr_args(attrs@) {
            Some(args) => r is Some && r->Some_0@ == args,
            None => r is None,
        },
{
    let mut i: usize = 0;
    while i < attrs.len()
        invariant
            0 <= i <= attrs@.len(),
            repr_args(attrs@.subrange(0, i as int)) is None,
        decreases attrs@.len() - i,
    {
        assert(attrs@.subrange(0, i + 1).drop_last() == attrs@.subrange(0, i as int));
        let a = &attrs[i];
        if reads(&a.name, "repr") {
            if let Some(args) = &a.args {
                proof { lemma_prefix_repr(attrs@, i as int); }
                return Some(args);
            }
        }
        i = i + 1;
    }
    assert(attrs@.subrange(0, attrs@.len() as int) == attrs@);
    None
}

proof fn lemma_prefix_repr(attrs: Seq<Attribute>, i: int)
    requires
        0 <= i < attrs.len(),
        repr_args(attrs.subrange(0, i)) is None,
        list_named(attrs[i], "repr"@) is Some,
    ensures
        repr_args(attrs) == list_named(attrs[i], "repr"@),
    decreases attrs.len(),
{
    if i < attrs.len() - 1 {
        assert(attrs.drop_last().subrange(0, i) == attrs.subrange(0, i));
        assert(attrs.drop_last()[i] == attrs[i]);
        lemma_prefix_repr(attrs.drop_last(), i);
    } else {
        assert(attrs.drop_last() == attrs.subrange(0, i));
    }
}

/// The integer kind named by the first argument in `args` that names one.
pub fn find_int_kind(args: &Vec<Meta>) -> (r: Option<IntKind>)
    ensures
        r == first_int_kind(args@),
{
    let mut found: Option<IntKind> = None;
    let mut i: usize = 0;
    while i < args.len()
        invariant
            0 <= i <= args@.len(),
            found == first_int_kind(args@.subrange(0, i as int)),
        decreases args@.len() - i,
    {
        assert(args@.subrange(0, i + 1).drop_last() == args@.subrange(0, i as int));
        if found.is_none() {
            found = match &args[i] {
                Meta::Word(n) => IntKind::from_name(n),
                Meta::List(n, _) => IntKind::from_name(n),
                Meta::NameValue(n) => IntKind::from_name(n),
                Meta::Literal => None,
            };
        }
        i = i + 1;
    }
    assert(args@.subrange(0, args@.len() as int) == args@);
    found
}

/// The name of the first variant that carries data.
pub fn find_non_unit(variants: &Vec<Variant>) -> (r: Option<String>)
    ensures
        r.deep_view() == first_non_unit(variants@),
{
    let mut found: Option<String> = None;
    let mut i: usize = 0;
    while i < variants.len()
        invariant
            0 <= i <= variants@.len(),
            found.deep_view() == first_non_unit(variants@.subrange(0, i as int)),
        decreases variants@.len() - i,
    {
        assert(variants@.subrange(0, i + 1).drop_last() == variants@.subrange(0, i as int));
        if found.is_none() && !variants[i].is_unit {
            found = Some(variants[i].name.clone());
        }
        i = i + 1;
    }
    assert(variants@.subrange(0, variants@.len() as int) == variants@);
    found
}

/// Appends clones of `items` to `out`.
fn push_all(out: &mut Vec<String>, items: &Vec<String>)
    ensures
        final(out).deep_view() == old(out).deep_view() + items.deep_view(),
{
    let ghost start = out.deep_view();
    let mut i: usize = 0;
    while i < items.len()
        invariant
            0 <= i <= items@.len(),
            out.deep_view() == start + items.deep_view().subrange(0, i as int),
        decreases items@.len() - i,
    {
        let ghost before = out.deep_view();
        out.push(items[i].clone());
        assert(out.deep_view() =~= before.push(items@[i as int]@));
        assert(items.deep_view().subrange(0, i + 1) =~= items.deep_view().subrange(0, i as int).push(
            items@[i as int]@,
        ));
        assert(out.deep_view() =~= start + items.deep_view().subrange(0, i + 1));
        i = i + 1;
    }
    assert(items.deep_view().subrange(0, items@.len() as int) =~= items.deep_view());
}

/// The plain identifiers among `leaves`, in order.
pub fn collect_words(leaves: &Vec<Leaf>) -> (r: Vec<String>)
    ensures
        r.deep_view() == words(leaves@),
{
    let mut out: Vec<String> = Vec::new();
    let mut i: usize = 0;
    while i < leaves.len()
        invariant
            0 <= i <= leaves@.len(),
            out.deep_view() == words(leaves@.subrange(0, i as int)),
        decreases leaves@.len() - i,
    {
        assert(leaves@.subrange(0, i + 1).drop_last() == leaves@.subrange(0, i as int));
        let ghost before = out.deep_view();
        if let Leaf::Word(w) = &leaves[i] {
            out.push(w.clone());
            assert(out.deep_view() =~= before + seq![w@]);
        } else {
            assert(out.deep_view() =~= before + Seq::<Seq<char>>::empty());
        }
        i = i + 1;
    }
    assert(leaves@.subrange(0, leaves@.len() as int) == leaves@);
    out
}

/// The identifiers inside every `other(...)` list among `args`, in order.
pub fn collect_other_sources(args: &Vec<Meta>) -> (r: Vec<String>)
    ensures
        r.deep_view() == other_sources(args@),
{
    let mut out: Vec<String> = Vec::new();
    let mut i: usize = 0;
    while i < args.len()
        invariant
            0 <= i <= args@.len(),
            out.deep_view() == other_sources(args@.subrange(0, i as int)),
        decreases args@.len() - i,
    {
        assert(args@.subrange(0, i + 1).drop_last() == args@.subrange(0, i as int));
        let ghost before = out.deep_view();
        match &args[i] {
            Meta::List(n, leaves) => {
                if reads(n, "other") {
                    let ws = collect_words(leaves);
                    push_all(&mut out, &ws);
                } else {
                    assert(out.deep_view() =~= before + Seq::<Seq<char>>::empty());
                }
            },
            _ => {
                assert(out.deep_view() =~= before + Seq::<Seq<char>>::empty());
            },
        }
        i = i + 1;
    }
    assert(args@.subrange(0, args@.len() as int) == args@);
    out
}

/// The secondary source types that the `uncon(other(...))` directives among
/// `attrs` declare, in the order in which they are written.
pub fn collect_secondary_sources(attrs: &Vec<Attribute>) -> (r: Vec<String>)
    ensures
        r.deep_view() == secondary_sources(attrs@),
{
    let mut out: Vec<String> = Vec::new();
    let mut i: usize = 0;
    while i < attrs.len()
        invariant
            0 <= i <= attrs@.len(),
            out.deep_view() == secondary_sources(attrs@.subrange(0, i as int)),
        decreases attrs@.len() - i,
    {
        assert(attrs@.subrange(0, i + 1).drop_last() == attrs@.subrange(0, i as int));
        let ghost before = out.deep_view();
        let a = &attrs[i];
        let mut added = false;
        if reads(&a.name, "uncon") {
            if let Some(args) = &a.args {
                let found = collect_other_sources(args);
                push_all(&mut out, &found);
                added = true;
            }
        }
        if !added {
            assert(out.deep_view() =~= before + Seq::<Seq<char>>::empty());
        }
        i = i + 1;
    }
    assert(attrs@.subrange(0, attrs@.len() as int) == attrs@);
    out
}

/// Classifies `decl` as a single-field wrapper or a data-less enum with an
/// integer representation, or says why it is neither.
pub fn classify(decl: &TypeDecl) -> (r: Result<TypeShape, GenError>)
    ensures
        match spec_classify(*decl) {
            Ok(shape) => r is Ok && r->Ok_0@ == shape,
            Err(e) => r is Err && r->Err_0@ == e,
        },
{
    match &decl.body {
        Body::Struct(fields) => {
            if fields.len() != 1 {
                return Err(GenError::NotSingleField);
            }
            let binding = match &fields[0].name {
                Some(n) => FieldBinding::Named(n.clone()),
                None => FieldBinding::Positional,
            };
            Ok(TypeShape::SingleFieldWrapper { field_type: fields[0].ty.clone(), binding })
        },
        Body::Enum(variants) => {
            if let Some(n) = find_non_unit(variants) {
                return Err(GenError::NonUnitVariant(n));
            }
            let repr = match find_repr_args(&decl.attrs) {
                None => {
                    return Err(GenError::MissingRepr);
                },
                Some(args) => match find_int_kind(args) {
                    None => {
                        return Err(GenError::NoIntegerRepr);
                    },
                    Some(k) => k,
                },
            };
            let mut names: Vec<String> = Vec::new();
            let mut i: usize = 0;
            while i < variants.len()
                invariant
                    0 <= i <= variants@.len(),
                    names.deep_view() =~= variants@.subrange(0, i as int).map_values(
                        |v: Variant| v.name@,
                    ),
                decreases variants@.len() - i,
            {
                let ghost before = names.deep_view();
                names.push(variants[i].name.clone());
                assert(names.deep_view() =~= before.push(variants@[i as int].name@));
                assert(variants@.subrange(0, i + 1).map_values(|v: Variant| v.name@)
                    =~= variants@.subrange(0, i as int).map_values(|v: Variant| v.name@).push(
                    variants@[i as int].name@,
                ));
                i = i + 1;
            }
            assert(variants@.subrange(0, variants@.len() as int) == variants@);
            Ok(TypeShape::UnitEnum { variants: names, repr })
        },
    }
}

} // verus!
