use well_field::emit::emit;
use well_field::emit::field_enum_derive;
use well_field::emit::ArmKind;
use well_field::emit::CasePayload;
use well_field::schema::is_primitive;
use well_field::schema::read_schema;
use well_field::schema::DeclKind;
use well_field::schema::FieldDecl;
use well_field::schema::FieldMeta;
use well_field::schema::RecordDecl;
use well_field::schema::RecordMeta;
use well_field::schema::Schema;
use well_field::schema::SchemaError;
use well_field::schema::TypeExpr;
use well_field::schema::TypeShape;
use well_field::render::render_carrier;
use well_field::render::render_companion;
use well_field::render::render_conversions;
use well_field::render::render_deepest_impl;
use well_field::render::render_selector;
use well_field::text::pascal_case;
use well_field::text::str_eq;

fn path_ty(text: &str, last: &str) -> TypeExpr {
    TypeExpr {
        text: text.to_string(),
        shape: TypeShape::Path {
            qualified: false,
            last: last.to_string(),
        },
    }
}

fn field(name: &str, ty: TypeExpr, metas: Vec<FieldMeta>) -> FieldDecl {
    FieldDecl {
        name: name.to_string(),
        ty,
        metas,
    }
}

fn sample_decl() -> RecordDecl {
    RecordDecl {
        name: "Sample".to_string(),
        metas: vec![RecordMeta::Derive(vec!["Debug".to_string()])],
        kind: DeclKind::NamedStruct(vec![
            field("num", path_ty("u32", "u32"), vec![]),
            field("count", path_ty("usize", "usize"), vec![]),
            field("name", path_ty("String", "String"), vec![]),
            field("nested", path_ty("Inner", "Inner"), vec![]),
            field("skip_me", path_ty("usize", "usize"), vec![FieldMeta::Skip]),
        ]),
    }
}

fn sample_schema() -> Schema {
    read_schema(sample_decl()).unwrap()
}

#[test]
fn reader_drops_skipped_fields() {
    let s = sample_schema();
    assert_eq!(s.name.as_str(), "Sample");
    let names: Vec<&str> = s.fields.iter().map(|f| f.name.as_str()).collect();
    assert_eq!(names, vec!["num", "count", "name", "nested"]);
    assert!(s.fields.iter().all(|f| !f.swap_only));
}

#[test]
fn reader_accumulates_derives_onto_defaults() {
    let s = sample_schema();
    let derives: Vec<&str> = s.derives.iter().map(|d| d.as_str()).collect();
    assert_eq!(
        derives,
        vec!["Clone", "Copy", "PartialEq", "Eq", "Hash", "Debug"]
    );
    let value_derives: Vec<&str> = s.value_derives.iter().map(|d| d.as_str()).collect();
    assert_eq!(value_derives, vec!["Clone", "PartialEq"]);
}

#[test]
fn reader_accumulates_value_derives_and_ignores_unknown_keys() {
    let decl = RecordDecl {
        name: "R".to_string(),
        metas: vec![
            RecordMeta::Other,
            RecordMeta::DeriveValue(vec!["Debug".to_string(), "Default".to_string()]),
        ],
        kind: DeclKind::NamedStruct(vec![field("x", path_ty("u8", "u8"), vec![])]),
    };
    let s = read_schema(decl).unwrap();
    let value_derives: Vec<&str> = s.value_derives.iter().map(|d| d.as_str()).collect();
    assert_eq!(value_derives, vec!["Clone", "PartialEq", "Debug", "Default"]);
}

#[test]
fn reader_rejects_unnamed_fields() {
    let decl = RecordDecl {
        name: "Pair".to_string(),
        metas: vec![],
        kind: DeclKind::OtherStruct,
    };
    let e = match read_schema(decl) {
        Err(e) => e,
        Ok(_) => panic!("an unnamed-field struct must be rejected"),
    };
    assert_eq!(e, SchemaError::OnlyNamedFields);
    assert_eq!(e.message(), "Only named fields are supported");
}

#[test]
fn reader_rejects_non_structs() {
    let decl = RecordDecl {
        name: "Choice".to_string(),
        metas: vec![],
        kind: DeclKind::NotAStruct,
    };
    let e = match read_schema(decl) {
        Err(e) => e,
        Ok(_) => panic!("a non-struct declaration must be rejected"),
    };
    assert_eq!(e, SchemaError::OnlyStructs);
    assert_eq!(e.message(), "Only structs are supported");
}

#[test]
fn derive_pipeline_runs_end_to_end() {
    let r = match field_enum_derive(sample_decl()) {
        Ok(r) => r,
        Err(_) => panic!("a named-field struct must derive"),
    };
    assert_eq!(r.selector_name.as_str(), "SampleField");
    assert_eq!(r.selector_cases.len(), 4);
    assert_eq!(r.carrier_cases.len(), 4);

    let e = match field_enum_derive(RecordDecl {
        name: "E".to_string(),
        metas: vec![],
        kind: DeclKind::NotAStruct,
    }) {
        Err(e) => e,
        Ok(_) => panic!("a non-struct declaration must be rejected"),
    };
    assert_eq!(e, SchemaError::OnlyStructs);
}

#[test]
fn emit_names_the_companion_pair() {
    let r = emit(&sample_schema());
    assert_eq!(r.selector_name.as_str(), "SampleField");
    assert_eq!(r.carrier_name.as_str(), "SampleValue");
}

#[test]
fn emit_selector_cases_in_declaration_order() {
    let r = emit(&sample_schema());
    let names: Vec<&str> = r.selector_cases.iter().map(|c| c.name.as_str()).collect();
    assert_eq!(names, vec!["Num", "Count", "Name", "Nested"]);
    assert!(matches!(r.selector_cases[0].payload, CasePayload::Empty));
    assert!(matches!(r.selector_cases[1].payload, CasePayload::Empty));
    assert!(matches!(r.selector_cases[2].payload, CasePayload::Empty));
    match &r.selector_cases[3].payload {
        CasePayload::SelectorOf(t) => assert_eq!(t.as_str(), "Inner"),
        _ => panic!("the composite case must carry the inner selector"),
    }
}

#[test]
fn emit_carrier_cases_by_distinct_type() {
    let r = emit(&sample_schema());
    let names: Vec<&str> = r.carrier_cases.iter().map(|c| c.name.as_str()).collect();
    assert_eq!(names, vec!["U32", "Usize", "String", "Inner"]);
    match &r.carrier_cases[0].payload {
        CasePayload::Plain(t) => assert_eq!(t.as_str(), "u32"),
        _ => panic!("an atomic carrier case holds the type itself"),
    }
    match &r.carrier_cases[3].payload {
        CasePayload::CarrierOf(t) => assert_eq!(t.as_str(), "Inner"),
        _ => panic!("a composite carrier case holds the inner carrier"),
    }
}

#[test]
fn emit_reuses_the_case_of_a_repeated_type() {
    let decl = RecordDecl {
        name: "Flat".to_string(),
        metas: vec![],
        kind: DeclKind::NamedStruct(vec![
            field("first", path_ty("u32", "u32"), vec![]),
            field("second", path_ty("u32", "u32"), vec![]),
            field("third", path_ty("String", "String"), vec![]),
        ]),
    };
    let r = emit(&read_schema(decl).unwrap());
    let selector: Vec<&str> = r.selector_cases.iter().map(|c| c.name.as_str()).collect();
    assert_eq!(selector, vec!["First", "Second", "Third"]);
    let carrier: Vec<&str> = r.carrier_cases.iter().map(|c| c.name.as_str()).collect();
    assert_eq!(carrier, vec!["U32", "String"]);
}

#[test]
fn emit_distinctness_is_textual() {
    // Two spellings of the same type keep two carrier cases: distinctness
    // goes by the textual form.
    let decl = RecordDecl {
        name: "Spelled".to_string(),
        metas: vec![],
        kind: DeclKind::NamedStruct(vec![
            field("short", path_ty("String", "String"), vec![]),
            field(
                "long",
                path_ty("::std::string::String", "String"),
                vec![],
            ),
        ]),
    };
    let r = emit(&read_schema(decl).unwrap());
    assert_eq!(r.carrier_cases.len(), 2);
    assert_eq!(r.carrier_cases[0].name.as_str(), "String");
    assert_eq!(r.carrier_cases[1].name.as_str(), "String");
}

#[test]
fn emit_arms_route_every_visible_field() {
    let r = emit(&sample_schema());
    let routed: Vec<(&str, &str)> = r
        .arms
        .iter()
        .map(|a| (a.case_name.as_str(), a.field_name.as_str()))
        .collect();
    assert_eq!(
        routed,
        vec![
            ("Num", "num"),
            ("Count", "count"),
            ("Name", "name"),
            ("Nested", "nested")
        ]
    );
    assert_eq!(r.arms[0].kind, ArmKind::Atomic);
    assert_eq!(r.arms[3].kind, ArmKind::Composite);
}

#[test]
fn emit_skipped_field_has_no_case_and_no_arm() {
    let r = emit(&sample_schema());
    assert!(r.selector_cases.iter().all(|c| c.name.as_str() != "SkipMe"));
    assert!(r.arms.iter().all(|a| a.field_name.as_str() != "skip_me"));
    assert_eq!(r.selector_cases.len(), 4);
    assert_eq!(r.arms.len(), 4);
}

#[test]
fn emit_swap_only_forces_the_atomic_path() {
    let decl = RecordDecl {
        name: "Wrapped".to_string(),
        metas: vec![],
        kind: DeclKind::NamedStruct(vec![field(
            "nested",
            path_ty("Inner", "Inner"),
            vec![FieldMeta::SwapOnly],
        )]),
    };
    let r = emit(&read_schema(decl).unwrap());
    assert!(matches!(r.selector_cases[0].payload, CasePayload::Empty));
    match &r.carrier_cases[0].payload {
        CasePayload::Plain(t) => assert_eq!(t.as_str(), "Inner"),
        _ => panic!("a swap-only field is atomic for reflection"),
    }
    assert_eq!(r.arms[0].kind, ArmKind::Atomic);
}

#[test]
fn emit_labels_non_path_types() {
    let decl = RecordDecl {
        name: "Odd".to_string(),
        metas: vec![],
        kind: DeclKind::NamedStruct(vec![field(
            "pair",
            TypeExpr {
                text: "(u8 , u8)".to_string(),
                shape: TypeShape::Other,
            },
            vec![],
        )]),
    };
    let r = emit(&read_schema(decl).unwrap());
    assert_eq!(r.carrier_cases[0].name.as_str(), "UnknownType");
    assert_eq!(r.selector_cases[0].name.as_str(), "Pair");
}

#[test]
fn emit_copies_the_capability_lists() {
    let r = emit(&sample_schema());
    let derives: Vec<&str> = r.selector_derives.iter().map(|d| d.as_str()).collect();
    assert_eq!(
        derives,
        vec!["Clone", "Copy", "PartialEq", "Eq", "Hash", "Debug"]
    );
    let value_derives: Vec<&str> = r.carrier_derives.iter().map(|d| d.as_str()).collect();
    assert_eq!(value_derives, vec!["Clone", "PartialEq"]);
}

#[test]
fn emit_handles_a_record_with_no_visible_fields() {
    let decl = RecordDecl {
        name: "Unit".to_string(),
        metas: vec![],
        kind: DeclKind::NamedStruct(vec![field(
            "only",
            path_ty("u8", "u8"),
            vec![FieldMeta::Skip],
        )]),
    };
    let r = emit(&read_schema(decl).unwrap());
    assert_eq!(r.selector_name.as_str(), "UnitField");
    assert_eq!(r.carrier_name.as_str(), "UnitValue");
    assert!(r.selector_cases.is_empty());
    assert!(r.carrier_cases.is_empty());
    assert!(r.arms.is_empty());
}

#[test]
fn pascal_case_recases_identifiers() {
    assert_eq!(pascal_case("field_name").as_str(), "FieldName");
    assert_eq!(pascal_case("num").as_str(), "Num");
    assert_eq!(pascal_case("skip_me").as_str(), "SkipMe");
    assert_eq!(pascal_case("String").as_str(), "String");
}

#[test]
fn primitive_set_is_the_fixed_one() {
    assert!(is_primitive(&path_ty("u32", "u32")));
    assert!(is_primitive(&path_ty("std::primitive::str", "str")));
    assert!(is_primitive(&path_ty("f32", "f32")));
    assert!(!is_primitive(&path_ty("Inner", "Inner")));
    assert!(!is_primitive(&TypeExpr {
        text: "(u8 , u8)".to_string(),
        shape: TypeShape::Other,
    }));
    let qualified = TypeExpr {
        text: "<T as Iterator>::u32".to_string(),
        shape: TypeShape::Path {
            qualified: true,
            last: "u32".to_string(),
        },
    };
    assert!(!is_primitive(&qualified));
}

#[test]
fn rendered_enum_declarations() {
    let r = emit(&sample_schema());
    assert_eq!(
        render_selector(&r).as_str(),
        "#[allow(non_camel_case_types)]\n\
         #[derive(Clone, Copy, PartialEq, Eq, Hash, Debug)]\n\
         pub enum SampleField {\n    Num,\n    Count,\n    Name,\n    Nested(<Inner as Fielded>::Field),\n}\n"
    );
    assert_eq!(
        render_carrier(&r).as_str(),
        "#[derive(Clone, PartialEq)]\n\
         pub enum SampleValue {\n    U32(u32),\n    Usize(usize),\n    String(String),\n    Inner(<Inner as Fielded>::FieldValue),\n}\n"
    );
}

#[test]
fn rendered_conversion_laws() {
    let decl = RecordDecl {
        name: "Point".to_string(),
        metas: vec![],
        kind: DeclKind::NamedStruct(vec![field("x", path_ty("u32", "u32"), vec![])]),
    };
    let r = emit(&read_schema(decl).unwrap());
    let expected = "impl From<u32> for PointValue {\n\
        \x20   fn from(value: u32) -> Self {\n\
        \x20       Self::U32(value)\n\
        \x20   }\n\
        }\n\
        \n\
        impl TryInto<u32> for PointValue {\n\
        \x20   type Error = SetFieldError;\n\
        \n\
        \x20   fn try_into(self) -> Result<u32, Self::Error> {\n\
        \x20       match self {\n\
        \x20           Self::U32(value) => Ok(value),\n\
        \x20           other => Err(SetFieldError {\n\
        \x20               field: String::new(),\n\
        \x20               expected: std::any::type_name::<u32>().to_string(),\n\
        \x20               received: format!(\"{:?}\", other),\n\
        \x20           }),\n\
        \x20       }\n\
        \x20   }\n\
        }\n\
        \n";
    assert_eq!(render_conversions(&r).as_str(), expected);
}

#[test]
fn rendered_deepest_name_walk() {
    let r = emit(&sample_schema());
    assert_eq!(
        render_deepest_impl(&r).as_str(),
        "impl SampleField {\n\
         \x20   pub fn deepest_name(&self) -> &'static str {\n\
         \x20       match self {\n\
         \x20           Self::Num => \"Num\",\n\
         \x20           Self::Count => \"Count\",\n\
         \x20           Self::Name => \"Name\",\n\
         \x20           Self::Nested(inner) => inner.deepest_name(),\n\
         \x20       }\n\
         \x20   }\n\
         }\n\
         \n"
    );
}

#[test]
fn rendered_companion_covers_the_whole_surface() {
    let text = render_companion(&emit(&sample_schema()));
    assert!(text.starts_with("#[allow(non_camel_case_types)]\n#[derive("));
    assert!(text.contains("pub enum SampleValue {\n"));
    assert!(text.contains("impl From<<Inner as Fielded>::FieldValue> for SampleValue {\n"));
    assert!(text.contains("impl TryInto<u32> for SampleValue {\n"));
    assert!(text.contains("expected: std::any::type_name::<usize>().to_string(),"));
    assert!(text.contains("impl Fielded for Sample {\n"));
    assert!(text.contains("    type Field = SampleField;\n"));
    assert!(text.contains("    type FieldValue = SampleValue;\n"));
    assert!(text.contains(
        "            SampleField::Num => {\n                self.num = value.try_into()"
    ));
    assert!(text.contains("err.field = \"Num\".to_string();"));
    assert!(text.contains("err.field = inner.deepest_name().to_string();"));
    assert!(text.contains("self.nested.set_field(inner, inner_value)?;"));
    assert!(text.contains("            SampleField::Name => self.name.clone().into(),\n"));
    assert!(text.contains("            SampleField::Nested(inner) => self.nested.get_field(inner).into(),\n"));
}

#[test]
fn str_eq_compares_by_characters() {
    assert!(str_eq("", ""));
    assert!(str_eq("abc", "abc"));
    assert!(!str_eq("abc", "abd"));
    assert!(!str_eq("abc", "ab"));
}
