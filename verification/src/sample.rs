//! A worked example: the companion pair of a two-level record pair,
//! written out in full, with the conversion, set-get and stamping laws
//! proved on it.

use crate::error::ErrSpec;
use crate::error::SetFieldError;
use crate::fielded::Fielded;
use vstd::prelude::*;

verus! {

/// The inner record of the worked example.
pub struct Inner {
    pub label: String,
    pub prop: u32,
}

/// The outer record of the worked example. `skip_me` is invisible to
/// reflection: no selector case, no carrier case, no dispatch arm refers
/// to it.
pub struct Sample {
    pub num: u32,
    pub count: usize,
    pub name: String,
    pub nested: Inner,
    pub skip_me: usize,
}

/// Selector of `Inner`: one case per field, in declaration order.
#[derive(Clone, Copy, PartialEq, Eq, Hash, Debug)]
pub enum InnerField {
    Label,
    Prop,
}

/// Carrier of `Inner`: one case per distinct field type, in order of
/// first appearance.
#[derive(Clone, PartialEq, Debug)]
pub enum InnerValue {
    String(String),
    U32(u32),
}

/// Selector of `Sample`: one case per non-skipped field, the composite
/// `nested` case carrying the inner record's selector.
#[derive(Clone, Copy, PartialEq, Eq, Hash, Debug)]
pub enum SampleField {
    Num,
    Count,
    Name,
    Nested(InnerField),
}

/// Carrier of `Sample`: one case per distinct field type, the composite
/// case holding the inner record's carrier.
#[derive(Clone, PartialEq, Debug)]
pub enum SampleValue {
    U32(u32),
    Usize(usize),
    String(String),
    Inner(InnerValue),
}

impl InnerField {
    /// The name of the deepest selector case this selector traverses.
    pub open spec fn deepest_name_spec(self) -> Seq<char> {
        match self {
            InnerField::Label => "Label"@,
            InnerField::Prop => "Prop"@,
        }
    }

    /// The name of the deepest selector case this selector traverses.
    pub fn deepest_name(&self) -> (r: &'static str)
        ensures
            r@ == self.deepest_name_spec(),
    {
        match self {
            InnerField::Label => "Label",
            InnerField::Prop => "Prop",
        }
    }
}

impl SampleField {
    /// The name of the deepest selector case this selector traverses.
    pub open spec fn deepest_name_spec(self) -> Seq<char> {
        match self {
            SampleField::Num => "Num"@,
            SampleField::Count => "Count"@,
            SampleField::Name => "Name"@,
            SampleField::Nested(inner) => inner.deepest_name_spec(),
        }
    }

    /// The name of the deepest selector case this selector traverses.
    pub fn deepest_name(&self) -> (r: &'static str)
        ensures
            r@ == self.deepest_name_spec(),
    {
        match self {
            SampleField::Num => "Num",
            SampleField::Count => "Count",
            SampleField::Name => "Name",
            SampleField::Nested(inner) => inner.deepest_name(),
        }
    }
}

impl InnerValue {
    /// The rendering of a rejected carrier value that the assignment
    /// error reports as received: the case name with its payload, a
    /// number in decimal, a string quoted.
    pub open spec fn rendered_spec(self) -> Seq<char> {
        match self {
            InnerValue::String(v) => "String(\""@ + v@ + "\")"@,
            InnerValue::U32(v) => "U32("@ + crate::text::dec_of(v as nat) + ")"@,
        }
    }

    /// Render this carrier value: the case name with its payload.
    pub fn rendered(&self) -> (r: String)
        ensures
            r@ == self.rendered_spec(),
    {
        match self {
            InnerValue::String(v) => {
                let mut out: String = "String(\"".to_owned();
                out.append(v.as_str());
                out.append("\")");
                out
            },
            InnerValue::U32(v) => {
                let mut out: String = "U32(".to_owned();
                out.append(crate::text::dec_string(*v as u64).as_str());
                out.append(")");
                out
            },
        }
    }

    /// The projection `InnerValue -> String`, as a value.
    pub open spec fn project_string_spec(self) -> Result<String, ErrSpec> {
        match self {
            InnerValue::String(s) => Ok(s),
            _ => Err(
                ErrSpec {
                    field: Seq::<char>::empty(),
                    expected: "alloc::string::String"@,
                    received: self.rendered_spec(),
                },
            ),
        }
    }

    /// The projection `InnerValue -> u32`, as a value.
    pub open spec fn project_u32_spec(self) -> Result<u32, ErrSpec> {
        match self {
            InnerValue::U32(v) => Ok(v),
            _ => Err(
                ErrSpec {
                    field: Seq::<char>::empty(),
                    expected: "u32"@,
                    received: self.rendered_spec(),
                },
            ),
        }
    }

    /// The `TryInto` direction of the conversion law for `String`.
    pub fn try_into_string(self) -> (r: Result<String, SetFieldError>)
        ensures
            crate::error::err_matches(r, self.project_string_spec()),
    {
        match self {
            InnerValue::String(s) => Ok(s),
            other => Err(
                SetFieldError {
                    field: String::new(),
                    expected: "alloc::string::String".to_owned(),
                    received: other.rendered(),
                },
            ),
        }
    }

    /// The `TryInto` direction of the conversion law for `u32`.
    pub fn try_into_u32(self) -> (r: Result<u32, SetFieldError>)
        ensures
            crate::error::err_matches(r, self.project_u32_spec()),
    {
        match self {
            InnerValue::U32(v) => Ok(v),
            other => Err(
                SetFieldError {
                    field: String::new(),
                    expected: "u32".to_owned(),
                    received: other.rendered(),
                },
            ),
        }
    }
}

impl vstd::std_specs::convert::FromSpecImpl<String> for InnerValue {
    open spec fn obeys_from_spec() -> bool {
        true
    }

    open spec fn from_spec(v: String) -> InnerValue {
        InnerValue::String(v)
    }
}

impl From<String> for InnerValue {
    /// The injection `String -> InnerValue`.
    fn from(v: String) -> (r: InnerValue) {
        InnerValue::String(v)
    }
}

impl vstd::std_specs::convert::FromSpecImpl<u32> for InnerValue {
    open spec fn obeys_from_spec() -> bool {
        true
    }

    open spec fn from_spec(v: u32) -> InnerValue {
        InnerValue::U32(v)
    }
}

impl From<u32> for InnerValue {
    /// The injection `u32 -> InnerValue`.
    fn from(v: u32) -> (r: InnerValue) {
        InnerValue::U32(v)
    }
}

impl SampleValue {
    /// The rendering of a rejected carrier value that the assignment
    /// error reports as received: the case name with its payload, a
    /// number in decimal, a string quoted, a nested carrier rendered in
    /// turn.
    pub open spec fn rendered_spec(self) -> Seq<char> {
        match self {
            SampleValue::U32(v) => "U32("@ + crate::text::dec_of(v as nat) + ")"@,
            SampleValue::Usize(v) => "Usize("@ + crate::text::dec_of(v as nat) + ")"@,
            SampleValue::String(v) => "String(\""@ + v@ + "\")"@,
            SampleValue::Inner(v) => "Inner("@ + v.rendered_spec() + ")"@,
        }
    }

    /// Render this carrier value: the case name with its payload.
    pub fn rendered(&self) -> (r: String)
        ensures
            r@ == self.rendered_spec(),
    {
        match self {
            SampleValue::U32(v) => {
                let mut out: String = "U32(".to_owned();
                out.append(crate::text::dec_string(*v as u64).as_str());
                out.append(")");
                out
            },
            SampleValue::Usize(v) => {
                let mut out: String = "Usize(".to_owned();
                out.append(crate::text::dec_string(*v as u64).as_str());
                out.append(")");
                out
            },
            SampleValue::String(v) => {
                let mut out: String = "String(\"".to_owned();
                out.append(v.as_str());
                out.append("\")");
                out
            },
            SampleValue::Inner(v) => {
                let mut out: String = "Inner(".to_owned();
                out.append(v.rendered().as_str());
                out.append(")");
                out
            },
        }
    }

    /// The projection `SampleValue -> u32`, as a value.
    pub open spec fn project_u32_spec(self) -> Result<u32, ErrSpec> {
        match self {
            SampleValue::U32(v) => Ok(v),
            _ => Err(
                ErrSpec {
                    field: Seq::<char>::empty(),
                    expected: "u32"@,
                    received: self.rendered_spec(),
                },
            ),
        }
    }

    /// The projection `SampleValue -> usize`, as a value.
    pub open spec fn project_usize_spec(self) -> Result<usize, ErrSpec> {
        match self {
            SampleValue::Usize(v) => Ok(v),
            _ => Err(
                ErrSpec {
                    field: Seq::<char>::empty(),
                    expected: "usize"@,
                    received: self.rendered_spec(),
                },
            ),
        }
    }

    /// The projection `SampleValue -> String`, as a value.
    pub open spec fn project_string_spec(self) -> Result<String, ErrSpec> {
        match self {
            SampleValue::String(s) => Ok(s),
            _ => Err(
                ErrSpec {
                    field: Seq::<char>::empty(),
                    expected: "alloc::string::String"@,
                    received: self.rendered_spec(),
                },
            ),
        }
    }

    /// The projection `SampleValue -> InnerValue`, as a value.
    pub open spec fn project_inner_spec(self) -> Result<InnerValue, ErrSpec> {
        match self {
            SampleValue::Inner(v) => Ok(v),
            _ => Err(
                ErrSpec {
                    field: Seq::<char>::empty(),
                    expected: "well_field::sample::InnerValue"@,
                    received: self.rendered_spec(),
                },
            ),
        }
    }

    /// The `TryInto` direction of the conversion law for `u32`.
    pub fn try_into_u32(self) -> (r: Result<u32, SetFieldError>)
        ensures
            crate::error::err_matches(r, self.project_u32_spec()),
    {
        match self {
            SampleValue::U32(v) => Ok(v),
            other => Err(
                SetFieldError {
                    field: String::new(),
                    expected: "u32".to_owned(),
                    received: other.rendered(),
                },
            ),
        }
    }

    /// The `TryInto` direction of the conversion law for `usize`.
    pub fn try_into_usize(self) -> (r: Result<usize, SetFieldError>)
        ensures
            crate::error::err_matches(r, self.project_usize_spec()),
    {
        match self {
            SampleValue::Usize(v) => Ok(v),
            other => Err(
                SetFieldError {
                    field: String::new(),
                    expected: "usize".to_owned(),
                    received: other.rendered(),
                },
            ),
        }
    }

    /// The `TryInto` direction of the conversion law for `String`.
    pub fn try_into_string(self) -> (r: Result<String, SetFieldError>)
        ensures
            crate::error::err_matches(r, self.project_string_spec()),
    {
        match self {
            SampleValue::String(s) => Ok(s),
            other => Err(
                SetFieldError {
                    field: String::new(),
                    expected: "alloc::string::String".to_owned(),
                    received: other.rendered(),
                },
            ),
        }
    }

    /// The `TryInto` direction of the conversion law for `InnerValue`.
    pub fn try_into_inner_value(self) -> (r: Result<InnerValue, SetFieldError>)
        ensures
            crate::error::err_matches(r, self.project_inner_spec()),
    {
        match self {
            SampleValue::Inner(v) => Ok(v),
            other => Err(
                SetFieldError {
                    field: String::new(),
                    expected: "well_field::sample::InnerValue".to_owned(),
                    received: other.rendered(),
                },
            ),
        }
    }
}

impl vstd::std_specs::convert::FromSpecImpl<u32> for SampleValue {
    open spec fn obeys_from_spec() -> bool {
        true
    }

    open spec fn from_spec(v: u32) -> SampleValue {
        SampleValue::U32(v)
    }
}

impl From<u32> for SampleValue {
    /// The injection `u32 -> SampleValue`.
    fn from(v: u32) -> (r: SampleValue) {
        SampleValue::U32(v)
    }
}

impl vstd::std_specs::convert::FromSpecImpl<usize> for SampleValue {
    open spec fn obeys_from_spec() -> bool {
        true
    }

    open spec fn from_spec(v: usize) -> SampleValue {
        SampleValue::Usize(v)
    }
}

impl From<usize> for SampleValue {
    /// The injection `usize -> SampleValue`.
    fn from(v: usize) -> (r: SampleValue) {
        SampleValue::Usize(v)
    }
}

impl vstd::std_specs::convert::FromSpecImpl<String> for SampleValue {
    open spec fn obeys_from_spec() -> bool {
        true
    }

    open spec fn from_spec(v: String) -> SampleValue {
        SampleValue::String(v)
    }
}

impl From<String> for SampleValue {
    /// The injection `String -> SampleValue`.
    fn from(v: String) -> (r: SampleValue) {
        SampleValue::String(v)
    }
}

impl vstd::std_specs::convert::FromSpecImpl<InnerValue> for SampleValue {
    open spec fn obeys_from_spec() -> bool {
        true
    }

    open spec fn from_spec(v: InnerValue) -> SampleValue {
        SampleValue::Inner(v)
    }
}

impl From<InnerValue> for SampleValue {
    /// The injection `InnerValue -> SampleValue`.
    fn from(v: InnerValue) -> (r: SampleValue) {
        SampleValue::Inner(v)
    }
}

impl Fielded for Inner {
    type Field = InnerField;

    type FieldValue = InnerValue;

    open spec fn set_ok(self, field: InnerField, value: InnerValue) -> bool {
        match field {
            InnerField::Label => value is String,
            InnerField::Prop => value is U32,
        }
    }

    open spec fn set_model(self, field: InnerField, value: InnerValue) -> Inner {
        match field {
            InnerField::Label => Inner { label: value->String_0, ..self },
            InnerField::Prop => Inner { prop: value->U32_0, ..self },
        }
    }

    open spec fn set_err(self, field: InnerField, value: InnerValue) -> ErrSpec {
        match field {
            InnerField::Label => ErrSpec {
                field: "Label"@,
                expected: "alloc::string::String"@,
                received: value.rendered_spec(),
            },
            InnerField::Prop => ErrSpec {
                field: "Prop"@,
                expected: "u32"@,
                received: value.rendered_spec(),
            },
        }
    }

    open spec fn get_model(self, field: InnerField) -> InnerValue {
        match field {
            InnerField::Label => InnerValue::String(self.label),
            InnerField::Prop => InnerValue::U32(self.prop),
        }
    }

    fn set_field(&mut self, field: InnerField, value: InnerValue) -> (r: Result<
        (),
        SetFieldError,
    >) {
        match field {
            InnerField::Label => match value.try_into_string() {
                Ok(v) => {
                    self.label = v;
                    Ok(())
                },
                Err(e) => Err(e.with_field("Label")),
            },
            InnerField::Prop => match value.try_into_u32() {
                Ok(v) => {
                    self.prop = v;
                    Ok(())
                },
                Err(e) => Err(e.with_field("Prop")),
            },
        }
    }

    fn get_field(&self, field: &InnerField) -> (r: InnerValue) {
        match field {
            InnerField::Label => InnerValue::String(self.label.clone()),
            InnerField::Prop => InnerValue::U32(self.prop),
        }
    }
}

impl Fielded for Sample {
    type Field = SampleField;

    type FieldValue = SampleValue;

    open spec fn set_ok(self, field: SampleField, value: SampleValue) -> bool {
        match field {
            SampleField::Num => value is U32,
            SampleField::Count => value is Usize,
            SampleField::Name => value is String,
            SampleField::Nested(inner) => value is Inner && self.nested.set_ok(
                inner,
                value->Inner_0,
            ),
        }
    }

    open spec fn set_model(self, field: SampleField, value: SampleValue) -> Sample {
        match field {
            SampleField::Num => Sample { num: value->U32_0, ..self },
            SampleField::Count => Sample { count: value->Usize_0, ..self },
            SampleField::Name => Sample { name: value->String_0, ..self },
            SampleField::Nested(inner) => Sample {
                nested: self.nested.set_model(inner, value->Inner_0),
                ..self
            },
        }
    }

    open spec fn set_err(self, field: SampleField, value: SampleValue) -> ErrSpec {
        match field {
            SampleField::Num => ErrSpec {
                field: "Num"@,
                expected: "u32"@,
                received: value.rendered_spec(),
            },
            SampleField::Count => ErrSpec {
                field: "Count"@,
                expected: "usize"@,
                received: value.rendered_spec(),
            },
            SampleField::Name => ErrSpec {
                field: "Name"@,
                expected: "alloc::string::String"@,
                received: value.rendered_spec(),
            },
            SampleField::Nested(inner) => if value is Inner {
                self.nested.set_err(inner, value->Inner_0)
            } else {
                ErrSpec {
                    field: inner.deepest_name_spec(),
                    expected: "well_field::sample::InnerValue"@,
                    received: value.rendered_spec(),
                }
            },
        }
    }

    open spec fn get_model(self, field: SampleField) -> SampleValue {
        match field {
            SampleField::Num => SampleValue::U32(self.num),
            SampleField::Count => SampleValue::Usize(self.count),
            SampleField::Name => SampleValue::String(self.name),
            SampleField::Nested(inner) => SampleValue::Inner(self.nested.get_model(inner)),
        }
    }

    fn set_field(&mut self, field: SampleField, value: SampleValue) -> (r: Result<
        (),
        SetFieldError,
    >) {
        match field {
            SampleField::Num => match value.try_into_u32() {
                Ok(v) => {
                    self.num = v;
                    Ok(())
                },
                Err(e) => Err(e.with_field("Num")),
            },
            SampleField::Count => match value.try_into_usize() {
                Ok(v) => {
                    self.count = v;
                    Ok(())
                },
                Err(e) => Err(e.with_field("Count")),
            },
            SampleField::Name => match value.try_into_string() {
                Ok(v) => {
                    self.name = v;
                    Ok(())
                },
                Err(e) => Err(e.with_field("Name")),
            },
            SampleField::Nested(inner) => match value.try_into_inner_value() {
                Ok(v) => self.nested.set_field(inner, v),
                Err(e) => Err(e.with_field(inner.deepest_name())),
            },
        }
    }

    fn get_field(&self, field: &SampleField) -> (r: SampleValue) {
        match field {
            SampleField::Num => SampleValue::U32(self.num),
            SampleField::Count => SampleValue::Usize(self.count),
            SampleField::Name => SampleValue::String(self.name.clone()),
            SampleField::Nested(inner) => SampleValue::Inner(self.nested.get_field(inner)),
        }
    }
}

/// Conversion round-trip for `String` through the `Inner` carrier:
/// projecting the injection recovers the value.
pub proof fn lemma_round_trip_inner_string(v: String)
    ensures
        <InnerValue as vstd::std_specs::convert::FromSpec<String>>::from_spec(
            v,
        ).project_string_spec() == Ok::<String, ErrSpec>(v),
{
}

/// Conversion round-trip for `u32` through the `Inner` carrier:
/// projecting the injection recovers the value.
pub proof fn lemma_round_trip_inner_u32(v: u32)
    ensures
        <InnerValue as vstd::std_specs::convert::FromSpec<u32>>::from_spec(
            v,
        ).project_u32_spec() == Ok::<u32, ErrSpec>(v),
{
}

/// Conversion round-trip for `u32` through the `Sample` carrier:
/// projecting the injection recovers the value.
pub proof fn lemma_round_trip_sample_u32(v: u32)
    ensures
        <SampleValue as vstd::std_specs::convert::FromSpec<u32>>::from_spec(
            v,
        ).project_u32_spec() == Ok::<u32, ErrSpec>(v),
{
}

/// Conversion round-trip for `usize` through the `Sample` carrier:
/// projecting the injection recovers the value.
pub proof fn lemma_round_trip_sample_usize(v: usize)
    ensures
        <SampleValue as vstd::std_specs::convert::FromSpec<usize>>::from_spec(
            v,
        ).project_usize_spec() == Ok::<usize, ErrSpec>(v),
{
}

/// Conversion round-trip for `String` through the `Sample` carrier:
/// projecting the injection recovers the value.
pub proof fn lemma_round_trip_sample_string(v: String)
    ensures
        <SampleValue as vstd::std_specs::convert::FromSpec<String>>::from_spec(
            v,
        ).project_string_spec() == Ok::<String, ErrSpec>(v),
{
}

/// Conversion round-trip for the inner carrier through the `Sample`
/// carrier: projecting the injection recovers the value.
pub proof fn lemma_round_trip_sample_inner(v: InnerValue)
    ensures
        <SampleValue as vstd::std_specs::convert::FromSpec<InnerValue>>::from_spec(
            v,
        ).project_inner_spec() == Ok::<InnerValue, ErrSpec>(v),
{
}

/// Cross-type rejection: projecting any other carrier case to `u32`
/// yields the assignment error naming `u32`.
pub proof fn lemma_cross_reject_sample_u32(v: SampleValue)
    requires
        !(v is U32),
    ensures
        v.project_u32_spec() == Err::<u32, ErrSpec>(
            ErrSpec {
                field: Seq::<char>::empty(),
                expected: "u32"@,
                received: v.rendered_spec(),
            },
        ),
{
}

/// Cross-type rejection: projecting any other carrier case to `usize`
/// yields the assignment error naming `usize`.
pub proof fn lemma_cross_reject_sample_usize(v: SampleValue)
    requires
        !(v is Usize),
    ensures
        v.project_usize_spec() == Err::<usize, ErrSpec>(
            ErrSpec {
                field: Seq::<char>::empty(),
                expected: "usize"@,
                received: v.rendered_spec(),
            },
        ),
{
}

/// Cross-type rejection: projecting any other carrier case to `String`
/// yields the assignment error naming `String`.
pub proof fn lemma_cross_reject_sample_string(v: SampleValue)
    requires
        !(v is String),
    ensures
        v.project_string_spec() == Err::<String, ErrSpec>(
            ErrSpec {
                field: Seq::<char>::empty(),
                expected: "alloc::string::String"@,
                received: v.rendered_spec(),
            },
        ),
{
}

/// Cross-type rejection: projecting any other carrier case to the inner
/// carrier yields the assignment error naming it.
pub proof fn lemma_cross_reject_sample_inner(v: SampleValue)
    requires
        !(v is Inner),
    ensures
        v.project_inner_spec() == Err::<InnerValue, ErrSpec>(
            ErrSpec {
                field: Seq::<char>::empty(),
                expected: "well_field::sample::InnerValue"@,
                received: v.rendered_spec(),
            },
        ),
{
}

/// Cross-type rejection on the inner carrier, `String` direction.
pub proof fn lemma_cross_reject_inner_string(v: InnerValue)
    requires
        !(v is String),
    ensures
        v.project_string_spec() == Err::<String, ErrSpec>(
            ErrSpec {
                field: Seq::<char>::empty(),
                expected: "alloc::string::String"@,
                received: v.rendered_spec(),
            },
        ),
{
}

/// Cross-type rejection on the inner carrier, `u32` direction.
pub proof fn lemma_cross_reject_inner_u32(v: InnerValue)
    requires
        !(v is U32),
    ensures
        v.project_u32_spec() == Err::<u32, ErrSpec>(
            ErrSpec {
                field: Seq::<char>::empty(),
                expected: "u32"@,
                received: v.rendered_spec(),
            },
        ),
{
}

/// The set-get law on the inner record: a successful assignment is read
/// back unchanged.
pub proof fn lemma_set_get_inner(r: Inner, f: InnerField, v: InnerValue)
    requires
        r.set_ok(f, v),
    ensures
        r.set_model(f, v).get_model(f) == v,
{
}

/// The set-get law: a successful assignment is read back unchanged; on a
/// composite selector it holds by the inner record's law.
pub proof fn lemma_set_get(r: Sample, f: SampleField, v: SampleValue)
    requires
        r.set_ok(f, v),
    ensures
        r.set_model(f, v).get_model(f) == v,
{
    match f {
        SampleField::Nested(inner) => {
            lemma_set_get_inner(r.nested, inner, v->Inner_0);
        },
        _ => {},
    }
}

/// Field-name stamping on the inner record: every failed assignment
/// names the deepest selector case traversed.
pub proof fn lemma_deepest_stamping_inner(r: Inner, f: InnerField, v: InnerValue)
    requires
        !r.set_ok(f, v),
    ensures
        r.set_err(f, v).field == f.deepest_name_spec(),
{
}

/// Field-name stamping: every failed assignment names the deepest
/// selector case traversed, never an outer composite case.
pub proof fn lemma_deepest_stamping(r: Sample, f: SampleField, v: SampleValue)
    requires
        !r.set_ok(f, v),
    ensures
        r.set_err(f, v).field == f.deepest_name_spec(),
{
    match f {
        SampleField::Nested(inner) => {
            if v is Inner {
                lemma_deepest_stamping_inner(r.nested, inner, v->Inner_0);
            }
        },
        _ => {},
    }
}

} // verus!
