//! The schema reader: the plain model of a record declaration, and its
//! processing into the ordered visible-field schema.

use crate::text::str_eq;
use vstd::prelude::*;

verus! {

/// The shape of a field's type expression, as far as the generator reads
/// it: a plain path keeps its last segment; anything else (a tuple, a
/// reference, a generic instantiation) is opaque.
pub enum TypeShape {
    /// A path type; `qualified` records a qualified-self prefix
    /// (`<T as Trait>::Item`), `last` the final path segment.
    Path { qualified: bool, last: String },
    /// Any non-path type expression.
    Other,
}

/// A field's type expression: its full textual form — the unit of
/// distinctness for the value carrier — together with its shape.
pub struct TypeExpr {
    pub text: String,
    pub shape: TypeShape,
}

/// One entry of a record-level `field(..)` annotation.
pub enum RecordMeta {
    /// `derive(..)`: extra capability names for the selector.
    Derive(Vec<String>),
    /// `derive_value(..)`: extra capability names for the carrier.
    DeriveValue(Vec<String>),
    /// Any other key: tolerated and ignored.
    Other,
}

/// One entry of a field-level `field(..)` annotation.
#[derive(Clone, Copy, PartialEq, Eq, Structural, Debug)]
pub enum FieldMeta {
    /// `skip`: the field is invisible to reflection.
    Skip,
    /// `swap_only`: the field is replaced wholesale, with no nested
    /// descent even when its type is itself reflective.
    SwapOnly,
    /// Any other key: tolerated and ignored.
    Other,
}

/// One field of a record declaration, as handed to the schema reader.
pub struct FieldDecl {
    pub name: String,
    pub ty: TypeExpr,
    pub metas: Vec<FieldMeta>,
}

/// The body of the annotated declaration.
pub enum DeclKind {
    /// A struct with named fields.
    NamedStruct(Vec<FieldDecl>),
    /// A struct with unnamed or no fields.
    OtherStruct,
    /// An enum or a union.
    NotAStruct,
}

/// A record declaration: the input of the schema reader.
pub struct RecordDecl {
    pub name: String,
    pub metas: Vec<RecordMeta>,
    pub kind: DeclKind,
}

/// A reflection-visible field of the processed schema.
pub struct FieldSchema {
    pub name: String,
    pub ty: TypeExpr,
    pub swap_only: bool,
}

/// The processed schema: the record name, the two derive lists (defaults
/// included, user additions appended in order), and the ordered visible
/// fields.
pub struct Schema {
    pub name: String,
    pub derives: Vec<String>,
    pub value_derives: Vec<String>,
    pub fields: Vec<FieldSchema>,
}

/// A compile-time schema error.
#[derive(Clone, Copy, PartialEq, Eq, Structural, Debug)]
pub enum SchemaError {
    /// The declaration is not a struct at all.
    OnlyStructs,
    /// The struct's fields are not named.
    OnlyNamedFields,
}

impl SchemaError {
    /// The diagnostic text attached to the offending declaration.
    pub open spec fn message_spec(self) -> Seq<char> {
        match self {
            SchemaError::OnlyStructs => "Only structs are supported"@,
            SchemaError::OnlyNamedFields => "Only named fields are supported"@,
        }
    }

    /// The diagnostic text attached to the offending declaration.
    pub fn message(&self) -> (r: &'static str)
        ensures
            r@ == self.message_spec(),
    {
        match self {
            SchemaError::OnlyStructs => "Only structs are supported",
            SchemaError::OnlyNamedFields => "Only named fields are supported",
        }
    }
}

/// Whether a field's annotations mark it `skip`.
pub open spec fn metas_have_skip(metas: Seq<FieldMeta>) -> bool {
    exists|i: int| 0 <= i < metas.len() && metas[i] is Skip
}

/// Whether a field's annotations mark it `swap_only`.
pub open spec fn metas_have_swap_only(metas: Seq<FieldMeta>) -> bool {
    exists|i: int| 0 <= i < metas.len() && metas[i] is SwapOnly
}

/// The schema entry a visible declaration field turns into.
pub open spec fn schema_field_of(f: FieldDecl) -> FieldSchema {
    FieldSchema { name: f.name, ty: f.ty, swap_only: metas_have_swap_only(f.metas@) }
}

/// The visible part of a field list: skipped fields dropped, the rest in
/// declaration order, each with its `swap_only` flag resolved.
pub open spec fn visible_schema(fields: Seq<FieldDecl>) -> Seq<FieldSchema>
    decreases fields.len(),
{
    if fields.len() == 0 {
        Seq::<FieldSchema>::empty()
    } else {
        let rest = visible_schema(fields.drop_last());
        if metas_have_skip(fields.last().metas@) {
            rest
        } else {
            rest.push(schema_field_of(fields.last()))
        }
    }
}

/// The views of a list of owned strings.
pub open spec fn views_of(xs: Seq<String>) -> Seq<Seq<char>> {
    xs.map_values(|x: String| x@)
}

/// The built-in capability set of every selector type.
pub open spec fn default_derives() -> Seq<Seq<char>> {
    seq!["Clone"@, "Copy"@, "PartialEq"@, "Eq"@, "Hash"@]
}

/// The built-in capability set of every carrier type.
pub open spec fn default_value_derives() -> Seq<Seq<char>> {
    seq!["Clone"@, "PartialEq"@]
}

/// The user-supplied selector capabilities, in order of appearance.
pub open spec fn derive_items(metas: Seq<RecordMeta>) -> Seq<Seq<char>>
    decreases metas.len(),
{
    if metas.len() == 0 {
        Seq::<Seq<char>>::empty()
    } else {
        derive_items(metas.drop_last()) + (match metas.last() {
            RecordMeta::Derive(xs) => views_of(xs@),
            _ => Seq::<Seq<char>>::empty(),
        })
    }
}

/// The user-supplied carrier capabilities, in order of appearance.
pub open spec fn derive_value_items(metas: Seq<RecordMeta>) -> Seq<Seq<char>>
    decreases metas.len(),
{
    if metas.len() == 0 {
        Seq::<Seq<char>>::empty()
    } else {
        derive_value_items(metas.drop_last()) + (match metas.last() {
            RecordMeta::DeriveValue(xs) => views_of(xs@),
            _ => Seq::<Seq<char>>::empty(),
        })
    }
}

/// The fixed primitive set: a field whose type's last path segment is one
/// of these is atomic for reflection.
pub open spec fn is_primitive_name(s: Seq<char>) -> bool {
    ||| s == "u8"@
    ||| s == "u16"@
    ||| s == "u32"@
    ||| s == "u64"@
    ||| s == "u128"@
    ||| s == "i8"@
    ||| s == "i16"@
    ||| s == "i32"@
    ||| s == "i64"@
    ||| s == "i128"@
    ||| s == "usize"@
    ||| s == "isize"@
    ||| s == "bool"@
    ||| s == "char"@
    ||| s == "f32"@
    ||| s == "f64"@
    ||| s == "String"@
    ||| s == "str"@
}

/// Whether a type expression is primitive: an unqualified path whose last
/// segment is in the fixed primitive set.
pub open spec fn is_primitive_spec(ty: TypeExpr) -> bool {
    match ty.shape {
        TypeShape::Path { qualified, last } => !qualified && is_primitive_name(last@),
        TypeShape::Other => false,
    }
}

/// Whether a visible field is atomic for reflection: annotated
/// `swap_only`, or of a primitive type.
pub open spec fn is_atomic(f: FieldSchema) -> bool {
    f.swap_only || is_primitive_spec(f.ty)
}

/// Whether a type expression is primitive: an unqualified path whose last
/// segment is in the fixed primitive set.
pub fn is_primitive(ty: &TypeExpr) -> (r: bool)
    ensures
        r == is_primitive_spec(*ty),
{
    match &ty.shape {
        TypeShape::Path { qualified, last } => {
            if *qualified {
                return false;
            }
            let name = last.as_str();
            str_eq(name, "u8") || str_eq(name, "u16") || str_eq(name, "u32") || str_eq(name, "u64")
                || str_eq(name, "u128") || str_eq(name, "i8") || str_eq(name, "i16") || str_eq(
                name,
                "i32",
            ) || str_eq(name, "i64") || str_eq(name, "i128") || str_eq(name, "usize") || str_eq(
                name,
                "isize",
            ) || str_eq(name, "bool") || str_eq(name, "char") || str_eq(name, "f32") || str_eq(
                name,
                "f64",
            ) || str_eq(name, "String") || str_eq(name, "str")
        },
        TypeShape::Other => false,
    }
}

/// Extending a string list by one element extends its views by the view.
pub(crate) proof fn lemma_views_of_push(xs: Seq<String>, x: String)
    ensures
        views_of(xs.push(x)) =~= views_of(xs).push(x@),
{
}

/// One step of [`visible_schema`] along a prefix of the field list.
proof fn lemma_visible_schema_step(s: Seq<FieldDecl>, k: int)
    requires
        0 <= k < s.len(),
    ensures
        visible_schema(s.take(k + 1)) == (if metas_have_skip(s[k].metas@) {
            visible_schema(s.take(k))
        } else {
            visible_schema(s.take(k)).push(schema_field_of(s[k]))
        }),
{
    assert(s.take(k + 1).drop_last() =~= s.take(k));
    assert(s.take(k + 1).last() == s[k]);
}

/// One step of [`derive_items`] along a prefix of the annotation list.
proof fn lemma_derive_items_step(metas: Seq<RecordMeta>, k: int)
    requires
        0 <= k < metas.len(),
    ensures
        derive_items(metas.take(k + 1)) == derive_items(metas.take(k)) + (match metas[k] {
            RecordMeta::Derive(xs) => views_of(xs@),
            _ => Seq::<Seq<char>>::empty(),
        }),
{
    assert(metas.take(k + 1).drop_last() =~= metas.take(k));
    assert(metas.take(k + 1).last() == metas[k]);
}

/// One step of [`derive_value_items`] along a prefix of the annotation list.
proof fn lemma_derive_value_items_step(metas: Seq<RecordMeta>, k: int)
    requires
        0 <= k < metas.len(),
    ensures
        derive_value_items(metas.take(k + 1)) == derive_value_items(metas.take(k)) + (
        match metas[k] {
            RecordMeta::DeriveValue(xs) => views_of(xs@),
            _ => Seq::<Seq<char>>::empty(),
        }),
{
    assert(metas.take(k + 1).drop_last() =~= metas.take(k));
    assert(metas.take(k + 1).last() == metas[k]);
}

/// Whether a field's annotation list contains `skip`.
pub fn metas_have_skip_exec(metas: &Vec<FieldMeta>) -> (r: bool)
    ensures
        r == metas_have_skip(metas@),
{
    let mut i: usize = 0;
    while i < metas.len()
        invariant
            i <= metas@.len(),
            forall|j: int| 0 <= j < i ==> !(metas@[j] is Skip),
        decreases metas@.len() - i,
    {
        if metas[i] == FieldMeta::Skip {
            return true;
        }
        i += 1;
    }
    false
}

/// Whether a field's annotation list contains `swap_only`.
pub fn metas_have_swap_only_exec(metas: &Vec<FieldMeta>) -> (r: bool)
    ensures
        r == metas_have_swap_only(metas@),
{
    let mut i: usize = 0;
    while i < metas.len()
        invariant
            i <= metas@.len(),
            forall|j: int| 0 <= j < i ==> !(metas@[j] is SwapOnly),
        decreases metas@.len() - i,
    {
        if metas[i] == FieldMeta::SwapOnly {
            return true;
        }
        i += 1;
    }
    false
}

/// Append clones of every string of `xs` to `out`.
pub(crate) fn push_all(out: &mut Vec<String>, xs: &Vec<String>)
    ensures
        views_of(final (out)@) == views_of(old(out)@) + views_of(xs@),
{
    let mut j: usize = 0;
    while j < xs.len()
        invariant
            j <= xs@.len(),
            views_of(out@) == views_of(old(out)@) + views_of(xs@.take(j as int)),
        decreases xs@.len() - j,
    {
        let ghost before = out@;
        out.push(xs[j].clone());
        proof {
            lemma_views_of_push(before, xs@[j as int]);
            assert(xs@.take(j + 1) =~= xs@.take(j as int).push(xs@[j as int]));
            lemma_views_of_push(xs@.take(j as int), xs@[j as int]);
            assert(views_of(out@) =~= views_of(old(out)@) + views_of(xs@.take(j + 1)));
        }
        j += 1;
    }
    proof {
        assert(xs@.take(xs@.len() as int) =~= xs@);
    }
}

/// Every entry of the visible schema descends from some non-skipped
/// declaration field.
pub proof fn lemma_visible_schema_membership(fields: Seq<FieldDecl>, i: int)
    requires
        0 <= i < visible_schema(fields).len(),
    ensures
        exists|j: int|
            0 <= j < fields.len() && !metas_have_skip(fields[j].metas@) && visible_schema(
                fields,
            )[i] == schema_field_of(fields[j]),
    decreases fields.len(),
{
    if fields.len() == 0 {
    } else {
        let rest = visible_schema(fields.drop_last());
        if !metas_have_skip(fields.last().metas@) && i == rest.len() {
            assert(fields.last() == fields[fields.len() - 1]);
            assert(visible_schema(fields)[i] == schema_field_of(fields[fields.len() - 1]));
        } else {
            lemma_visible_schema_membership(fields.drop_last(), i);
            let j = choose|j: int|
                0 <= j < fields.drop_last().len() && !metas_have_skip(
                    fields.drop_last()[j].metas@,
                ) && visible_schema(fields.drop_last())[i] == schema_field_of(
                    fields.drop_last()[j],
                );
            assert(fields.drop_last()[j] == fields[j]);
        }
    }
}

/// Skip invisibility: when field names are unique, no entry of the
/// visible schema carries the name of a skipped field, so the skipped
/// field contributes no selector case and no dispatch arm.
pub proof fn lemma_skip_invisible(fields: Seq<FieldDecl>, k: int)
    requires
        0 <= k < fields.len(),
        metas_have_skip(fields[k].metas@),
        forall|a: int, b: int| 0 <= a < b < fields.len() ==> fields[a].name@ != fields[b].name@,
    ensures
        forall|i: int|
            0 <= i < visible_schema(fields).len() ==> (#[trigger] visible_schema(
                fields,
            )[i]).name@ != fields[k].name@,
{
    assert forall|i: int| 0 <= i < visible_schema(fields).len() implies (visible_schema(
        fields,
    )[i]).name@ != fields[k].name@ by {
        lemma_visible_schema_membership(fields, i);
        let j = choose|j: int|
            0 <= j < fields.len() && !metas_have_skip(fields[j].metas@) && visible_schema(
                fields,
            )[i] == schema_field_of(fields[j]);
        assert(j != k);
    }
}

/// Read a record declaration into its schema: reject anything but a
/// struct with named fields; accumulate the user's `derive(..)` and
/// `derive_value(..)` items onto the built-in defaults; resolve each
/// field's `skip` and `swap_only` flags and drop the skipped fields.
pub fn read_schema(decl: RecordDecl) -> (r: Result<Schema, SchemaError>)
    ensures
        decl.kind is NamedStruct ==> r is Ok && {
            let s = r->Ok_0;
            &&& s.name == decl.name
            &&& views_of(s.derives@) == default_derives() + derive_items(decl.metas@)
            &&& views_of(s.value_derives@) == default_value_derives() + derive_value_items(
                decl.metas@,
            )
            &&& s.fields@ == visible_schema(decl.kind->NamedStruct_0@)
        },
        decl.kind is OtherStruct ==> r == Err::<Schema, SchemaError>(SchemaError::OnlyNamedFields),
        decl.kind is NotAStruct ==> r == Err::<Schema, SchemaError>(SchemaError::OnlyStructs),
{
    let RecordDecl { name, metas, kind } = decl;
    let named = match kind {
        DeclKind::NamedStruct(fields) => fields,
        DeclKind::OtherStruct => {
            return Err(SchemaError::OnlyNamedFields);
        },
        DeclKind::NotAStruct => {
            return Err(SchemaError::OnlyStructs);
        },
    };
    let mut derives: Vec<String> = Vec::new();
    derives.push("Clone".to_owned());
    derives.push("Copy".to_owned());
    derives.push("PartialEq".to_owned());
    derives.push("Eq".to_owned());
    derives.push("Hash".to_owned());
    proof {
        assert(views_of(derives@) =~= default_derives());
    }
    let mut value_derives: Vec<String> = Vec::new();
    value_derives.push("Clone".to_owned());
    value_derives.push("PartialEq".to_owned());
    proof {
        assert(views_of(value_derives@) =~= default_value_derives());
    }
    let mut i: usize = 0;
    while i < metas.len()
        invariant
            i <= metas@.len(),
            views_of(derives@) == default_derives() + derive_items(metas@.take(i as int)),
            views_of(value_derives@) == default_value_derives() + derive_value_items(
                metas@.take(i as int),
            ),
        decreases metas@.len() - i,
    {
        match &metas[i] {
            RecordMeta::Derive(xs) => {
                push_all(&mut derives, xs);
            },
            RecordMeta::DeriveValue(xs) => {
                push_all(&mut value_derives, xs);
            },
            RecordMeta::Other => {},
        }
        proof {
            lemma_derive_items_step(metas@, i as int);
            lemma_derive_value_items_step(metas@, i as int);
        }
        i += 1;
    }
    proof {
        assert(metas@.take(metas@.len() as int) =~= metas@);
    }
    let mut fields: Vec<FieldSchema> = Vec::new();
    let mut rest = named;
    let ghost all = rest@;
    while rest.len() > 0
        invariant
            rest@.len() <= all.len(),
            all.skip(all.len() - rest@.len()) =~= rest@,
            fields@ == visible_schema(all.take(all.len() - rest@.len())),
        decreases rest@.len(),
    {
        let ghost k = all.len() - rest@.len();
        let f = rest.remove(0);
        proof {
            assert(f == all[k]);
            assert(all.skip(all.len() - rest@.len()) =~= rest@);
            lemma_visible_schema_step(all, k);
        }
        let skip = metas_have_skip_exec(&f.metas);
        if !skip {
            let swap_only = metas_have_swap_only_exec(&f.metas);
            fields.push(FieldSchema { name: f.name, ty: f.ty, swap_only });
        }
    }
    proof {
        assert(all.take(all.len() as int) =~= all);
    }
    Ok(Schema { name, derives, value_derives, fields })
}

} // verus!
