//! The code emitter: from a schema to the description of the companion
//! pair, with one selector case per visible field and one carrier case
//! per distinct field type.

use crate::schema::is_atomic;
use crate::schema::is_primitive;
use crate::schema::push_all;
use crate::schema::views_of;
use crate::schema::FieldSchema;
use crate::schema::Schema;
use crate::schema::TypeShape;
use crate::text::pascal_case;
use crate::text::pascal_of;
use crate::text::string_eq;
use vstd::prelude::*;
use vstd::string::StringExecFns;

verus! {

/// The payload of an emitted enum case.
pub enum CasePayload {
    /// No payload: the selector case of an atomic field.
    Empty,
    /// The selector type of the named record type: the selector case of a
    /// composite field carries the inner record's selector.
    SelectorOf(String),
    /// The carrier type of the named record type: the carrier case of a
    /// composite field type holds the inner record's carrier.
    CarrierOf(String),
    /// The named type itself: the carrier case of an atomic field type.
    Plain(String),
}

/// One case of an emitted enum.
pub struct EnumCase {
    pub name: String,
    pub payload: CasePayload,
}

/// How a dispatch arm treats its field.
#[derive(Clone, Copy, PartialEq, Eq, Structural, Debug)]
pub enum ArmKind {
    /// Project the carrier to the field's own type and replace the field
    /// wholesale.
    Atomic,
    /// Project the carrier to the inner record's carrier and recurse with
    /// the inner selector.
    Composite,
}

/// One arm of the generated `set_field` / `get_field` dispatch: the
/// selector case it answers, the record field it routes to, and whether
/// it replaces the field or recurses into it.
pub struct DispatchArm {
    pub case_name: String,
    pub field_name: String,
    pub kind: ArmKind,
}

/// The companion pair emitted for one record: the selector enum, the
/// carrier enum, their capability lists, and the dispatch table shared by
/// `set_field` and `get_field`. Each carrier case additionally induces
/// the two conversion laws for its payload type: the injection into the
/// carrier and the fallible projection out of it.
pub struct Emitted {
    pub record_name: String,
    pub selector_name: String,
    pub carrier_name: String,
    pub selector_derives: Vec<String>,
    pub carrier_derives: Vec<String>,
    pub selector_cases: Vec<EnumCase>,
    pub carrier_cases: Vec<EnumCase>,
    pub arms: Vec<DispatchArm>,
}

/// Whether `t` is the textual form of some field type of `s`.
pub open spec fn seen_contains(s: Seq<FieldSchema>, t: Seq<char>) -> bool {
    exists|i: int| 0 <= i < s.len() && s[i].ty.text@ == t
}

/// The fields carrying the distinct textual type forms of `s`, each
/// represented by its first occurrence, in order of first appearance.
pub open spec fn distinct_fields(s: Seq<FieldSchema>) -> Seq<FieldSchema>
    decreases s.len(),
{
    if s.len() == 0 {
        Seq::<FieldSchema>::empty()
    } else {
        let rest = distinct_fields(s.drop_last());
        if seen_contains(s.drop_last(), s.last().ty.text@) {
            rest
        } else {
            rest.push(s.last())
        }
    }
}

/// The textual type forms of a field list.
pub open spec fn tys_of(s: Seq<FieldSchema>) -> Seq<Seq<char>> {
    s.map_values(|f: FieldSchema| f.ty.text@)
}

/// What the selector case of a visible field looks like: named after the
/// field in upper camel; no payload when the field is atomic, the inner
/// record's selector when it is composite.
pub open spec fn selector_case_matches(f: FieldSchema, c: EnumCase) -> bool {
    &&& c.name@ == pascal_of(f.name@)
    &&& if is_atomic(f) {
        c.payload is Empty
    } else {
        c.payload is SelectorOf && c.payload->SelectorOf_0@ == f.ty.text@
    }
}

/// The carrier case name of a field type: the last path segment in upper
/// camel, or the fixed label for a non-path type expression.
pub open spec fn carrier_case_name(f: FieldSchema) -> Seq<char> {
    match f.ty.shape {
        TypeShape::Path { qualified, last } => pascal_of(last@),
        TypeShape::Other => "UnknownType"@,
    }
}

/// What the carrier case of a distinct field type looks like: the type
/// itself as payload when the representative field is atomic, the inner
/// record's carrier when it is composite.
pub open spec fn carrier_case_matches(f: FieldSchema, c: EnumCase) -> bool {
    &&& c.name@ == carrier_case_name(f)
    &&& if is_atomic(f) {
        c.payload is Plain && c.payload->Plain_0@ == f.ty.text@
    } else {
        c.payload is CarrierOf && c.payload->CarrierOf_0@ == f.ty.text@
    }
}

/// What the dispatch arm of a visible field looks like.
pub open spec fn arm_matches(f: FieldSchema, a: DispatchArm) -> bool {
    &&& a.case_name@ == pascal_of(f.name@)
    &&& a.field_name@ == f.name@
    &&& (a.kind is Atomic <==> is_atomic(f))
}

/// The whole contract of the emitter, over the schema's visible fields.
pub open spec fn emitted_matches(s: Schema, r: Emitted) -> bool {
    &&& r.record_name@ == s.name@
    &&& r.selector_name@ == s.name@ + "Field"@
    &&& r.carrier_name@ == s.name@ + "Value"@
    &&& views_of(r.selector_derives@) == views_of(s.derives@)
    &&& views_of(r.carrier_derives@) == views_of(s.value_derives@)
    &&& r.selector_cases@.len() == s.fields@.len()
    &&& forall|i: int|
        0 <= i < s.fields@.len() ==> #[trigger] selector_case_matches(
            s.fields@[i],
            r.selector_cases@[i],
        )
    &&& r.carrier_cases@.len() == distinct_fields(s.fields@).len()
    &&& forall|i: int|
        0 <= i < distinct_fields(s.fields@).len() ==> #[trigger] carrier_case_matches(
            distinct_fields(s.fields@)[i],
            r.carrier_cases@[i],
        )
    &&& r.arms@.len() == s.fields@.len()
    &&& forall|i: int|
        0 <= i < s.fields@.len() ==> #[trigger] arm_matches(s.fields@[i], r.arms@[i])
}

/// One step of [`distinct_fields`] along a prefix of the field list.
proof fn lemma_distinct_fields_step(s: Seq<FieldSchema>, k: int)
    requires
        0 <= k < s.len(),
    ensures
        distinct_fields(s.take(k + 1)) == (if seen_contains(s.take(k), s[k].ty.text@) {
            distinct_fields(s.take(k))
        } else {
            distinct_fields(s.take(k)).push(s[k])
        }),
{
    assert(s.take(k + 1).drop_last() =~= s.take(k));
    assert(s.take(k + 1).last() == s[k]);
}

/// Whether some string of `seen` reads as `t`.
fn contains_text(seen: &Vec<String>, t: &String) -> (r: bool)
    ensures
        r == views_of(seen@).contains(t@),
{
    let mut i: usize = 0;
    while i < seen.len()
        invariant
            i <= seen@.len(),
            forall|j: int| 0 <= j < i ==> views_of(seen@)[j] != t@,
        decreases seen@.len() - i,
    {
        if string_eq(&seen[i], t) {
            assert(views_of(seen@)[i as int] == t@);
            return true;
        }
        i += 1;
    }
    assert(forall|j: int| 0 <= j < seen@.len() ==> views_of(seen@)[j] != t@);
    false
}

/// Skip invisibility, end to end: when a declaration's field names are
/// unique, the companion pair emitted for its schema routes no dispatch
/// arm to a skipped field.
pub proof fn lemma_skip_has_no_arm(
    fields: Seq<crate::schema::FieldDecl>,
    k: int,
    s: Schema,
    r: Emitted,
)
    requires
        s.fields@ == crate::schema::visible_schema(fields),
        emitted_matches(s, r),
        0 <= k < fields.len(),
        crate::schema::metas_have_skip(fields[k].metas@),
        forall|a: int, b: int| 0 <= a < b < fields.len() ==> fields[a].name@ != fields[b].name@,
    ensures
        forall|i: int|
            0 <= i < r.arms@.len() ==> (#[trigger] r.arms@[i]).field_name@ != fields[k].name@,
{
    crate::schema::lemma_skip_invisible(fields, k);
    assert forall|i: int| 0 <= i < r.arms@.len() implies (r.arms@[i]).field_name@
        != fields[k].name@ by {
        assert(arm_matches(s.fields@[i], r.arms@[i]));
    }
}

/// Emit the companion pair for a schema: the selector enum with one case
/// per visible field in declaration order; the carrier enum with one case
/// per distinct textual field type in order of first appearance; the two
/// capability lists as the schema fixed them; and one dispatch arm per
/// visible field.
pub fn emit(schema: &Schema) -> (r: Emitted)
    ensures
        emitted_matches(*schema, r),
{
    let record_name = schema.name.clone();
    let selector_name = schema.name.clone().concat("Field");
    let carrier_name = schema.name.clone().concat("Value");
    let mut selector_derives: Vec<String> = Vec::new();
    push_all(&mut selector_derives, &schema.derives);
    let mut carrier_derives: Vec<String> = Vec::new();
    push_all(&mut carrier_derives, &schema.value_derives);
    proof {
        assert(views_of(selector_derives@) =~= views_of(schema.derives@));
        assert(views_of(carrier_derives@) =~= views_of(schema.value_derives@));
    }
    let mut selector_cases: Vec<EnumCase> = Vec::new();
    let mut carrier_cases: Vec<EnumCase> = Vec::new();
    let mut arms: Vec<DispatchArm> = Vec::new();
    let mut seen: Vec<String> = Vec::new();
    let n = schema.fields.len();
    let ghost fs = schema.fields@;
    let mut i: usize = 0;
    while i < n
        invariant
            n == fs.len(),
            i <= n,
            fs == schema.fields@,
            selector_cases@.len() == i,
            forall|j: int|
                0 <= j < i ==> #[trigger] selector_case_matches(fs[j], selector_cases@[j]),
            arms@.len() == i,
            forall|j: int| 0 <= j < i ==> #[trigger] arm_matches(fs[j], arms@[j]),
            views_of(seen@) =~= tys_of(fs.take(i as int)),
            carrier_cases@.len() == distinct_fields(fs.take(i as int)).len(),
            forall|j: int|
                0 <= j < distinct_fields(fs.take(i as int)).len()
                    ==> #[trigger] carrier_case_matches(
                    distinct_fields(fs.take(i as int))[j],
                    carrier_cases@[j],
                ),
        decreases n - i,
    {
        let f = &schema.fields[i];
        let atomic = f.swap_only || is_primitive(&f.ty);
        let case_name = pascal_case(f.name.as_str());
        let selector_payload = if atomic {
            CasePayload::Empty
        } else {
            CasePayload::SelectorOf(f.ty.text.clone())
        };
        selector_cases.push(EnumCase { name: case_name.clone(), payload: selector_payload });
        arms.push(
            DispatchArm {
                case_name,
                field_name: f.name.clone(),
                kind: if atomic {
                    ArmKind::Atomic
                } else {
                    ArmKind::Composite
                },
            },
        );
        let fresh = !contains_text(&seen, &f.ty.text);
        proof {
            assert(seen_contains(fs.take(i as int), f.ty.text@) == views_of(seen@).contains(
                f.ty.text@,
            )) by {
                if seen_contains(fs.take(i as int), f.ty.text@) {
                    let w = choose|k: int|
                        0 <= k < fs.take(i as int).len() && fs.take(i as int)[k].ty.text@
                            == f.ty.text@;
                    assert(tys_of(fs.take(i as int))[w] == f.ty.text@);
                }
                if views_of(seen@).contains(f.ty.text@) {
                    let w = choose|k: int|
                        0 <= k < views_of(seen@).len() && views_of(seen@)[k] == f.ty.text@;
                    assert(fs.take(i as int)[w].ty.text@ == f.ty.text@);
                }
            }
            lemma_distinct_fields_step(fs, i as int);
        }
        if fresh {
            let carrier_case = match &f.ty.shape {
                TypeShape::Path { qualified: _, last } => pascal_case(last.as_str()),
                TypeShape::Other => "UnknownType".to_owned(),
            };
            let carrier_payload = if atomic {
                CasePayload::Plain(f.ty.text.clone())
            } else {
                CasePayload::CarrierOf(f.ty.text.clone())
            };
            carrier_cases.push(EnumCase { name: carrier_case, payload: carrier_payload });
            assert(carrier_case_matches(fs[i as int], carrier_cases@.last()));
        }
        let ghost seen_before = seen@;
        seen.push(f.ty.text.clone());
        proof {
            crate::schema::lemma_views_of_push(seen_before, fs[i as int].ty.text);
            assert(fs.take(i + 1) =~= fs.take(i as int).push(fs[i as int]));
            assert(tys_of(fs.take(i as int).push(fs[i as int])) =~= tys_of(
                fs.take(i as int),
            ).push(fs[i as int].ty.text@));
            assert(views_of(seen@) =~= tys_of(fs.take(i + 1)));
        }
        i += 1;
    }
    proof {
        assert(fs.take(n as int) =~= fs);
    }
    Emitted {
        record_name,
        selector_name,
        carrier_name,
        selector_derives,
        carrier_derives,
        selector_cases,
        carrier_cases,
        arms,
    }
}

/// The whole contract of the derivation for a named-field struct, over
/// the declaration alone.
pub open spec fn derive_output_matches(decl: crate::schema::RecordDecl, e: Emitted) -> bool {
    let visible = crate::schema::visible_schema(decl.kind->NamedStruct_0@);
    &&& e.selector_name@ == decl.name@ + "Field"@
    &&& e.carrier_name@ == decl.name@ + "Value"@
    &&& views_of(e.selector_derives@) == crate::schema::default_derives()
        + crate::schema::derive_items(decl.metas@)
    &&& views_of(e.carrier_derives@) == crate::schema::default_value_derives()
        + crate::schema::derive_value_items(decl.metas@)
    &&& e.selector_cases@.len() == visible.len()
    &&& forall|i: int|
        0 <= i < visible.len() ==> #[trigger] selector_case_matches(
            visible[i],
            e.selector_cases@[i],
        )
    &&& e.carrier_cases@.len() == distinct_fields(visible).len()
    &&& forall|i: int|
        0 <= i < distinct_fields(visible).len() ==> #[trigger] carrier_case_matches(
            distinct_fields(visible)[i],
            e.carrier_cases@[i],
        )
    &&& e.arms@.len() == visible.len()
    &&& forall|i: int| 0 <= i < visible.len() ==> #[trigger] arm_matches(visible[i], e.arms@[i])
}

/// Derive the companion pair of a record declaration: read its schema,
/// then emit the selector, the carrier, the conversion laws and the
/// dispatch table. A declaration that is no struct with named fields is
/// rejected with the matching diagnostic.
pub fn field_enum_derive(decl: crate::schema::RecordDecl) -> (r: Result<
    Emitted,
    crate::schema::SchemaError,
>)
    ensures
        decl.kind is NamedStruct ==> r is Ok && derive_output_matches(decl, r->Ok_0),
        decl.kind is OtherStruct ==> r == Err::<Emitted, crate::schema::SchemaError>(
            crate::schema::SchemaError::OnlyNamedFields,
        ),
        decl.kind is NotAStruct ==> r == Err::<Emitted, crate::schema::SchemaError>(
            crate::schema::SchemaError::OnlyStructs,
        ),
{
    match crate::schema::read_schema(decl) {
        Ok(schema) => Ok(emit(&schema)),
        Err(e) => Err(e),
    }
}

} // verus!
