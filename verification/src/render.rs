//! Rendering the emitted companion pair as Rust source text: the two
//! enum declarations, the conversion-law impls of each carrier case, the
//! selector's deepest-name walk, and the `Fielded` impl.

use crate::emit::ArmKind;
use crate::emit::CasePayload;
use crate::emit::DispatchArm;
use crate::emit::Emitted;
use crate::emit::EnumCase;
use crate::schema::views_of;
use vstd::prelude::*;
use vstd::string::StringExecFns;

verus! {

/// The text of one case payload: nothing for an atomic selector case,
/// the inner record's selector or carrier type for a composite one, the
/// type itself for an atomic carrier case.
pub open spec fn payload_text(p: CasePayload) -> Seq<char> {
    match p {
        CasePayload::Empty => Seq::<char>::empty(),
        CasePayload::SelectorOf(t) => "(<"@ + t@ + " as Fielded>::Field)"@,
        CasePayload::CarrierOf(t) => "(<"@ + t@ + " as Fielded>::FieldValue)"@,
        CasePayload::Plain(t) => "("@ + t@ + ")"@,
    }
}

/// The text of an enum's case lines, one case per line, in order.
pub open spec fn cases_text(cs: Seq<EnumCase>) -> Seq<char>
    decreases cs.len(),
{
    if cs.len() == 0 {
        Seq::<char>::empty()
    } else {
        cases_text(cs.drop_last()) + "    "@ + cs.last().name@ + payload_text(cs.last().payload)
            + ",\n"@
    }
}

/// The comma-separated capability list.
pub open spec fn derive_list_text(ds: Seq<Seq<char>>) -> Seq<char>
    decreases ds.len(),
{
    if ds.len() == 0 {
        Seq::<char>::empty()
    } else if ds.len() == 1 {
        ds[0]
    } else {
        derive_list_text(ds.drop_last()) + ", "@ + ds.last()
    }
}

/// The text of a derive attribute line, or nothing for an empty list.
pub open spec fn derive_attr_text(ds: Seq<Seq<char>>) -> Seq<char> {
    if ds.len() == 0 {
        Seq::<char>::empty()
    } else {
        "#[derive("@ + derive_list_text(ds) + ")]\n"@
    }
}

/// The full text of an emitted enum declaration.
pub open spec fn enum_text(name: Seq<char>, ds: Seq<Seq<char>>, cs: Seq<EnumCase>) -> Seq<char> {
    derive_attr_text(ds) + "pub enum "@ + name + " {\n"@ + cases_text(cs) + "}\n"@
}

/// One step of [`cases_text`] along a prefix of the case list.
proof fn lemma_cases_text_step(cs: Seq<EnumCase>, k: int)
    requires
        0 <= k < cs.len(),
    ensures
        cases_text(cs.take(k + 1)) == cases_text(cs.take(k)) + "    "@ + cs[k].name@
            + payload_text(cs[k].payload) + ",\n"@,
{
    assert(cs.take(k + 1).drop_last() =~= cs.take(k));
    assert(cs.take(k + 1).last() == cs[k]);
}

/// One step of [`derive_list_text`] along a prefix of the list.
proof fn lemma_derive_list_text_step(ds: Seq<Seq<char>>, k: int)
    requires
        1 <= k < ds.len(),
    ensures
        derive_list_text(ds.take(k + 1)) == derive_list_text(ds.take(k)) + ", "@ + ds[k],
{
    assert(ds.take(k + 1).drop_last() =~= ds.take(k));
    assert(ds.take(k + 1).last() == ds[k]);
}

/// Append the payload text of one case.
fn push_payload(out: &mut String, p: &CasePayload)
    ensures
        final (out)@ == old(out)@ + payload_text(*p),
{
    match p {
        CasePayload::Empty => {},
        CasePayload::SelectorOf(t) => {
            out.append("(<");
            out.append(t.as_str());
            out.append(" as Fielded>::Field)");
        },
        CasePayload::CarrierOf(t) => {
            out.append("(<");
            out.append(t.as_str());
            out.append(" as Fielded>::FieldValue)");
        },
        CasePayload::Plain(t) => {
            out.append("(");
            out.append(t.as_str());
            out.append(")");
        },
    }
}

/// Render one emitted enum declaration as Rust source text.
fn render_enum(name: &String, derives: &Vec<String>, cases: &Vec<EnumCase>) -> (r: String)
    ensures
        r@ == enum_text(name@, views_of(derives@), cases@),
{
    let mut out = String::new();
    if derives.len() > 0 {
        out.append("#[derive(");
        out.append(derives[0].as_str());
        proof {
            assert(views_of(derives@).take(1) =~= seq![views_of(derives@)[0]]);
            assert(derive_list_text(views_of(derives@).take(1)) == views_of(derives@)[0]);
        }
        let mut i: usize = 1;
        while i < derives.len()
            invariant
                1 <= i <= derives@.len(),
                out@ == "#[derive("@ + derive_list_text(views_of(derives@).take(i as int)),
            decreases derives@.len() - i,
        {
            out.append(", ");
            out.append(derives[i].as_str());
            proof {
                lemma_derive_list_text_step(views_of(derives@), i as int);
            }
            i += 1;
        }
        proof {
            assert(views_of(derives@).take(derives@.len() as int) =~= views_of(derives@));
        }
        out.append(")]\n");
    }
    out.append("pub enum ");
    out.append(name.as_str());
    out.append(" {\n");
    let ghost header = out@;
    let mut i: usize = 0;
    while i < cases.len()
        invariant
            i <= cases@.len(),
            out@ == header + cases_text(cases@.take(i as int)),
        decreases cases@.len() - i,
    {
        out.append("    ");
        out.append(cases[i].name.as_str());
        push_payload(&mut out, &cases[i].payload);
        out.append(",\n");
        proof {
            lemma_cases_text_step(cases@, i as int);
        }
        i += 1;
    }
    proof {
        assert(cases@.take(cases@.len() as int) =~= cases@);
    }
    out.append("}\n");
    out
}

/// The full text of the selector enum declaration, behind the lint
/// allowance the generator always attaches to it.
pub open spec fn selector_decl_text(e: Emitted) -> Seq<char> {
    "#[allow(non_camel_case_types)]\n"@ + enum_text(
        e.selector_name@,
        views_of(e.selector_derives@),
        e.selector_cases@,
    )
}

/// Render the selector enum declaration of an emitted companion pair.
pub fn render_selector(e: &Emitted) -> (r: String)
    ensures
        r@ == selector_decl_text(*e),
{
    let mut out: String = "#[allow(non_camel_case_types)]\n".to_owned();
    out.append(render_enum(&e.selector_name, &e.selector_derives, &e.selector_cases).as_str());
    out
}

/// Render the carrier enum declaration of an emitted companion pair.
pub fn render_carrier(e: &Emitted) -> (r: String)
    ensures
        r@ == enum_text(e.carrier_name@, views_of(e.carrier_derives@), e.carrier_cases@),
{
    render_enum(&e.carrier_name, &e.carrier_derives, &e.carrier_cases)
}

/// The type text of a carrier case payload, as the conversion laws spell
/// it: the type itself for an atomic case, the inner record's carrier
/// for a composite one.
pub open spec fn payload_type_text(p: CasePayload) -> Seq<char> {
    match p {
        CasePayload::Empty => Seq::<char>::empty(),
        CasePayload::SelectorOf(t) => "<"@ + t@ + " as Fielded>::Field"@,
        CasePayload::CarrierOf(t) => "<"@ + t@ + " as Fielded>::FieldValue"@,
        CasePayload::Plain(t) => t@,
    }
}

/// The text of the two conversion laws of one carrier case: the
/// injection `From<T>` and the fallible projection `TryInto<T>`, whose
/// error carries the canonical type name and a debug rendering of the
/// rejected carrier value.
pub open spec fn conversion_text(v: Seq<char>, c: EnumCase) -> Seq<char> {
    "impl From<"@ + payload_type_text(c.payload) + "> for "@ + v + " {\n    fn from(value: "@
        + payload_type_text(c.payload) + ") -> Self {\n        Self::"@ + c.name@
        + "(value)\n    }\n}\n\nimpl TryInto<"@ + payload_type_text(c.payload) + "> for "@ + v
        + " {\n    type Error = SetFieldError;\n\n    fn try_into(self) -> Result<"@
        + payload_type_text(c.payload)
        + ", Self::Error> {\n        match self {\n            Self::"@ + c.name@
        + "(value) => Ok(value),\n            other => Err(SetFieldError {\n                field: String::new(),\n                expected: std::any::type_name::<"@
        + payload_type_text(c.payload)
        + ">().to_string(),\n                received: format!(\"{:?}\", other),\n            }),\n        }\n    }\n}\n\n"@
}

/// The conversion laws of every carrier case, in order.
pub open spec fn conversions_text(v: Seq<char>, cs: Seq<EnumCase>) -> Seq<char>
    decreases cs.len(),
{
    if cs.len() == 0 {
        Seq::<char>::empty()
    } else {
        conversions_text(v, cs.drop_last()) + conversion_text(v, cs.last())
    }
}

/// The text of one arm of the selector's deepest-name walk: an atomic
/// case answers its own name, a composite case asks the inner selector.
pub open spec fn deepest_arm_text(c: EnumCase) -> Seq<char> {
    if c.payload is Empty {
        "            Self::"@ + c.name@ + " => \""@ + c.name@ + "\",\n"@
    } else {
        "            Self::"@ + c.name@ + "(inner) => inner.deepest_name(),\n"@
    }
}

/// The arms of the deepest-name walk, in order.
pub open spec fn deepest_arms_text(cs: Seq<EnumCase>) -> Seq<char>
    decreases cs.len(),
{
    if cs.len() == 0 {
        Seq::<char>::empty()
    } else {
        deepest_arms_text(cs.drop_last()) + deepest_arm_text(cs.last())
    }
}

/// The text of the selector's deepest-name impl.
pub open spec fn deepest_impl_text(s: Seq<char>, cs: Seq<EnumCase>) -> Seq<char> {
    "impl "@ + s
        + " {\n    pub fn deepest_name(&self) -> &'static str {\n        match self {\n"@
        + deepest_arms_text(cs) + "        }\n    }\n}\n\n"@
}

/// The text of one `set_field` arm: an atomic arm projects and replaces
/// the field, stamping its own case name on failure; a composite arm
/// projects to the inner carrier, stamping the deepest case name on
/// failure, and recurses.
pub open spec fn set_arm_text(s: Seq<char>, a: DispatchArm) -> Seq<char> {
    if a.kind is Atomic {
        "            "@ + s + "::"@ + a.case_name@ + " => {\n                self."@
            + a.field_name@
            + " = value.try_into().map_err(|mut err: SetFieldError| {\n                    err.field = \""@
            + a.case_name@
            + "\".to_string();\n                    err\n                })?;\n            },\n"@
    } else {
        "            "@ + s + "::"@ + a.case_name@
            + "(inner) => {\n                let inner_value = value.try_into().map_err(|mut err: SetFieldError| {\n                    err.field = inner.deepest_name().to_string();\n                    err\n                })?;\n                self."@
            + a.field_name@ + ".set_field(inner, inner_value)?;\n            },\n"@
    }
}

/// The `set_field` arms, in order.
pub open spec fn set_arms_text(s: Seq<char>, arms: Seq<DispatchArm>) -> Seq<char>
    decreases arms.len(),
{
    if arms.len() == 0 {
        Seq::<char>::empty()
    } else {
        set_arms_text(s, arms.drop_last()) + set_arm_text(s, arms.last())
    }
}

/// The text of one `get_field` arm: an atomic arm clones and injects the
/// field, a composite arm recurses and re-injects the inner carrier.
pub open spec fn get_arm_text(s: Seq<char>, a: DispatchArm) -> Seq<char> {
    if a.kind is Atomic {
        "            "@ + s + "::"@ + a.case_name@ + " => self."@ + a.field_name@
            + ".clone().into(),\n"@
    } else {
        "            "@ + s + "::"@ + a.case_name@ + "(inner) => self."@ + a.field_name@
            + ".get_field(inner).into(),\n"@
    }
}

/// The `get_field` arms, in order.
pub open spec fn get_arms_text(s: Seq<char>, arms: Seq<DispatchArm>) -> Seq<char>
    decreases arms.len(),
{
    if arms.len() == 0 {
        Seq::<char>::empty()
    } else {
        get_arms_text(s, arms.drop_last()) + get_arm_text(s, arms.last())
    }
}

/// The text of the `Fielded` impl: the two associated types and the
/// total `set_field` / `get_field` dispatch.
pub open spec fn fielded_impl_text(e: Emitted) -> Seq<char> {
    "impl Fielded for "@ + e.record_name@ + " {\n    type Field = "@ + e.selector_name@
        + ";\n    type FieldValue = "@ + e.carrier_name@
        + ";\n\n    fn set_field(&mut self, field: Self::Field, value: Self::FieldValue) -> Result<(), SetFieldError> {\n        match field {\n"@
        + set_arms_text(e.selector_name@, e.arms@)
        + "        }\n        Ok(())\n    }\n\n    fn get_field(&self, field: &Self::Field) -> Self::FieldValue {\n        match field {\n"@
        + get_arms_text(e.selector_name@, e.arms@) + "        }\n    }\n}\n"@
}

/// The whole companion text: the two enum declarations, the conversion
/// laws, the deepest-name walk, and the `Fielded` impl.
pub open spec fn companion_text(e: Emitted) -> Seq<char> {
    selector_decl_text(e) + "\n"@ + enum_text(
        e.carrier_name@,
        views_of(e.carrier_derives@),
        e.carrier_cases@,
    ) + "\n"@ + conversions_text(e.carrier_name@, e.carrier_cases@) + deepest_impl_text(
        e.selector_name@,
        e.selector_cases@,
    ) + fielded_impl_text(e)
}

/// One step of [`conversions_text`] along a prefix of the case list.
proof fn lemma_conversions_text_step(v: Seq<char>, cs: Seq<EnumCase>, k: int)
    requires
        0 <= k < cs.len(),
    ensures
        conversions_text(v, cs.take(k + 1)) == conversions_text(v, cs.take(k)) + conversion_text(
            v,
            cs[k],
        ),
{
    assert(cs.take(k + 1).drop_last() =~= cs.take(k));
    assert(cs.take(k + 1).last() == cs[k]);
}

/// One step of [`deepest_arms_text`] along a prefix of the case list.
proof fn lemma_deepest_arms_text_step(cs: Seq<EnumCase>, k: int)
    requires
        0 <= k < cs.len(),
    ensures
        deepest_arms_text(cs.take(k + 1)) == deepest_arms_text(cs.take(k)) + deepest_arm_text(
            cs[k],
        ),
{
    assert(cs.take(k + 1).drop_last() =~= cs.take(k));
    assert(cs.take(k + 1).last() == cs[k]);
}

/// One step of [`set_arms_text`] along a prefix of the arm list.
proof fn lemma_set_arms_text_step(s: Seq<char>, arms: Seq<DispatchArm>, k: int)
    requires
        0 <= k < arms.len(),
    ensures
        set_arms_text(s, arms.take(k + 1)) == set_arms_text(s, arms.take(k)) + set_arm_text(
            s,
            arms[k],
        ),
{
    assert(arms.take(k + 1).drop_last() =~= arms.take(k));
    assert(arms.take(k + 1).last() == arms[k]);
}

/// One step of [`get_arms_text`] along a prefix of the arm list.
proof fn lemma_get_arms_text_step(s: Seq<char>, arms: Seq<DispatchArm>, k: int)
    requires
        0 <= k < arms.len(),
    ensures
        get_arms_text(s, arms.take(k + 1)) == get_arms_text(s, arms.take(k)) + get_arm_text(
            s,
            arms[k],
        ),
{
    assert(arms.take(k + 1).drop_last() =~= arms.take(k));
    assert(arms.take(k + 1).last() == arms[k]);
}

/// Append the type text of a carrier case payload.
fn push_payload_type(out: &mut String, p: &CasePayload)
    ensures
        final (out)@ == old(out)@ + payload_type_text(*p),
{
    match p {
        CasePayload::Empty => {},
        CasePayload::SelectorOf(t) => {
            out.append("<");
            out.append(t.as_str());
            out.append(" as Fielded>::Field");
        },
        CasePayload::CarrierOf(t) => {
            out.append("<");
            out.append(t.as_str());
            out.append(" as Fielded>::FieldValue");
        },
        CasePayload::Plain(t) => {
            out.append(t.as_str());
        },
    }
}

/// Append the two conversion laws of one carrier case.
fn push_conversion(out: &mut String, v: &String, c: &EnumCase)
    ensures
        final (out)@ == old(out)@ + conversion_text(v@, *c),
{
    out.append("impl From<");
    push_payload_type(out, &c.payload);
    out.append("> for ");
    out.append(v.as_str());
    out.append(" {\n    fn from(value: ");
    push_payload_type(out, &c.payload);
    out.append(") -> Self {\n        Self::");
    out.append(c.name.as_str());
    out.append("(value)\n    }\n}\n\nimpl TryInto<");
    push_payload_type(out, &c.payload);
    out.append("> for ");
    out.append(v.as_str());
    out.append(" {\n    type Error = SetFieldError;\n\n    fn try_into(self) -> Result<");
    push_payload_type(out, &c.payload);
    out.append(", Self::Error> {\n        match self {\n            Self::");
    out.append(c.name.as_str());
    out.append(
        "(value) => Ok(value),\n            other => Err(SetFieldError {\n                field: String::new(),\n                expected: std::any::type_name::<",
    );
    push_payload_type(out, &c.payload);
    out.append(
        ">().to_string(),\n                received: format!(\"{:?}\", other),\n            }),\n        }\n    }\n}\n\n",
    );
}

/// Render the conversion laws of every carrier case.
pub fn render_conversions(e: &Emitted) -> (r: String)
    ensures
        r@ == conversions_text(e.carrier_name@, e.carrier_cases@),
{
    let mut out = String::new();
    let mut i: usize = 0;
    while i < e.carrier_cases.len()
        invariant
            i <= e.carrier_cases@.len(),
            out@ == conversions_text(e.carrier_name@, e.carrier_cases@.take(i as int)),
        decreases e.carrier_cases@.len() - i,
    {
        push_conversion(&mut out, &e.carrier_name, &e.carrier_cases[i]);
        proof {
            lemma_conversions_text_step(e.carrier_name@, e.carrier_cases@, i as int);
        }
        i += 1;
    }
    proof {
        assert(e.carrier_cases@.take(e.carrier_cases@.len() as int) =~= e.carrier_cases@);
    }
    out
}

/// Render the selector's deepest-name impl.
pub fn render_deepest_impl(e: &Emitted) -> (r: String)
    ensures
        r@ == deepest_impl_text(e.selector_name@, e.selector_cases@),
{
    let mut out: String = "impl ".to_owned();
    out.append(e.selector_name.as_str());
    out.append(" {\n    pub fn deepest_name(&self) -> &'static str {\n        match self {\n");
    let ghost header = out@;
    let mut i: usize = 0;
    while i < e.selector_cases.len()
        invariant
            i <= e.selector_cases@.len(),
            out@ == header + deepest_arms_text(e.selector_cases@.take(i as int)),
        decreases e.selector_cases@.len() - i,
    {
        let c = &e.selector_cases[i];
        out.append("            Self::");
        out.append(c.name.as_str());
        match &c.payload {
            CasePayload::Empty => {
                out.append(" => \"");
                out.append(c.name.as_str());
                out.append("\",\n");
            },
            _ => {
                out.append("(inner) => inner.deepest_name(),\n");
            },
        }
        proof {
            lemma_deepest_arms_text_step(e.selector_cases@, i as int);
        }
        i += 1;
    }
    proof {
        assert(e.selector_cases@.take(e.selector_cases@.len() as int) =~= e.selector_cases@);
    }
    out.append("        }\n    }\n}\n\n");
    out
}

/// Append one `set_field` arm.
fn push_set_arm(out: &mut String, s: &String, a: &DispatchArm)
    ensures
        final (out)@ == old(out)@ + set_arm_text(s@, *a),
{
    out.append("            ");
    out.append(s.as_str());
    out.append("::");
    out.append(a.case_name.as_str());
    match a.kind {
        ArmKind::Atomic => {
            out.append(" => {\n                self.");
            out.append(a.field_name.as_str());
            out.append(
                " = value.try_into().map_err(|mut err: SetFieldError| {\n                    err.field = \"",
            );
            out.append(a.case_name.as_str());
            out.append(
                "\".to_string();\n                    err\n                })?;\n            },\n",
            );
        },
        ArmKind::Composite => {
            out.append(
                "(inner) => {\n                let inner_value = value.try_into().map_err(|mut err: SetFieldError| {\n                    err.field = inner.deepest_name().to_string();\n                    err\n                })?;\n                self.",
            );
            out.append(a.field_name.as_str());
            out.append(".set_field(inner, inner_value)?;\n            },\n");
        },
    }
}

/// Append one `get_field` arm.
fn push_get_arm(out: &mut String, s: &String, a: &DispatchArm)
    ensures
        final (out)@ == old(out)@ + get_arm_text(s@, *a),
{
    out.append("            ");
    out.append(s.as_str());
    out.append("::");
    out.append(a.case_name.as_str());
    match a.kind {
        ArmKind::Atomic => {
            out.append(" => self.");
            out.append(a.field_name.as_str());
            out.append(".clone().into(),\n");
        },
        ArmKind::Composite => {
            out.append("(inner) => self.");
            out.append(a.field_name.as_str());
            out.append(".get_field(inner).into(),\n");
        },
    }
}

/// Render the `Fielded` impl of an emitted companion pair.
pub fn render_fielded_impl(e: &Emitted) -> (r: String)
    ensures
        r@ == fielded_impl_text(*e),
{
    let mut out: String = "impl Fielded for ".to_owned();
    out.append(e.record_name.as_str());
    out.append(" {\n    type Field = ");
    out.append(e.selector_name.as_str());
    out.append(";\n    type FieldValue = ");
    out.append(e.carrier_name.as_str());
    out.append(
        ";\n\n    fn set_field(&mut self, field: Self::Field, value: Self::FieldValue) -> Result<(), SetFieldError> {\n        match field {\n",
    );
    let ghost header = out@;
    let mut i: usize = 0;
    while i < e.arms.len()
        invariant
            i <= e.arms@.len(),
            out@ == header + set_arms_text(e.selector_name@, e.arms@.take(i as int)),
        decreases e.arms@.len() - i,
    {
        push_set_arm(&mut out, &e.selector_name, &e.arms[i]);
        proof {
            lemma_set_arms_text_step(e.selector_name@, e.arms@, i as int);
        }
        i += 1;
    }
    proof {
        assert(e.arms@.take(e.arms@.len() as int) =~= e.arms@);
    }
    out.append(
        "        }\n        Ok(())\n    }\n\n    fn get_field(&self, field: &Self::Field) -> Self::FieldValue {\n        match field {\n",
    );
    let ghost header2 = out@;
    let mut i: usize = 0;
    while i < e.arms.len()
        invariant
            i <= e.arms@.len(),
            out@ == header2 + get_arms_text(e.selector_name@, e.arms@.take(i as int)),
        decreases e.arms@.len() - i,
    {
        push_get_arm(&mut out, &e.selector_name, &e.arms[i]);
        proof {
            lemma_get_arms_text_step(e.selector_name@, e.arms@, i as int);
        }
        i += 1;
    }
    proof {
        assert(e.arms@.take(e.arms@.len() as int) =~= e.arms@);
    }
    out.append("        }\n    }\n}\n");
    out
}

/// Render the whole companion text of an emitted pair.
pub fn render_companion(e: &Emitted) -> (r: String)
    ensures
        r@ == companion_text(*e),
{
    let mut out = render_selector(e);
    out.append("\n");
    out.append(render_carrier(e).as_str());
    out.append("\n");
    out.append(render_conversions(e).as_str());
    out.append(render_deepest_impl(e).as_str());
    out.append(render_fielded_impl(e).as_str());
    out
}

} // verus!
