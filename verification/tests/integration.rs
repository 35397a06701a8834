use well_field::error::SetFieldError;
use well_field::fielded::Fielded;

struct MyStruct {
    num: f32,
    count: usize,
    name: String,
    nested: InnerStruct,
    #[allow(dead_code)]
    skip_me: usize,
}

struct InnerStruct {
    label: String,
    prop: f32,
}

#[derive(Clone, Copy, PartialEq, Eq, Hash, Debug)]
enum MyStructField {
    Num,
    #[allow(dead_code)]
    Count,
    Name,
    Nested(InnerStructField),
}

#[derive(Clone, Copy, PartialEq, Eq, Hash, Debug)]
enum InnerStructField {
    #[allow(dead_code)]
    Label,
    Prop,
}

#[derive(Clone, PartialEq, Debug)]
enum MyStructValue {
    F32(f32),
    Usize(usize),
    String(String),
    InnerStruct(InnerStructValue),
}

#[derive(Clone, PartialEq, Debug)]
enum InnerStructValue {
    String(String),
    F32(f32),
}

impl From<f32> for MyStructValue {
    fn from(v: f32) -> Self {
        MyStructValue::F32(v)
    }
}

impl From<usize> for MyStructValue {
    fn from(v: usize) -> Self {
        MyStructValue::Usize(v)
    }
}

impl From<String> for MyStructValue {
    fn from(v: String) -> Self {
        MyStructValue::String(v)
    }
}

impl From<InnerStructValue> for MyStructValue {
    fn from(v: InnerStructValue) -> Self {
        MyStructValue::InnerStruct(v)
    }
}

impl From<String> for InnerStructValue {
    fn from(v: String) -> Self {
        InnerStructValue::String(v)
    }
}

impl From<f32> for InnerStructValue {
    fn from(v: f32) -> Self {
        InnerStructValue::F32(v)
    }
}

impl MyStructValue {
    fn try_into_f32(self) -> Result<f32, SetFieldError> {
        match self {
            MyStructValue::F32(v) => Ok(v),
            other => Err(SetFieldError {
                field: String::new(),
                expected: "f32".to_string(),
                received: format!("{:?}", other),
            }),
        }
    }

    fn try_into_usize(self) -> Result<usize, SetFieldError> {
        match self {
            MyStructValue::Usize(v) => Ok(v),
            other => Err(SetFieldError {
                field: String::new(),
                expected: "usize".to_string(),
                received: format!("{:?}", other),
            }),
        }
    }

    fn try_into_string(self) -> Result<String, SetFieldError> {
        match self {
            MyStructValue::String(v) => Ok(v),
            other => Err(SetFieldError {
                field: String::new(),
                expected: "alloc::string::String".to_string(),
                received: format!("{:?}", other),
            }),
        }
    }

    fn try_into_inner_struct_value(self) -> Result<InnerStructValue, SetFieldError> {
        match self {
            MyStructValue::InnerStruct(v) => Ok(v),
            other => Err(SetFieldError {
                field: String::new(),
                expected: "integration::InnerStructValue".to_string(),
                received: format!("{:?}", other),
            }),
        }
    }
}

impl InnerStructValue {
    fn try_into_string(self) -> Result<String, SetFieldError> {
        match self {
            InnerStructValue::String(v) => Ok(v),
            other => Err(SetFieldError {
                field: String::new(),
                expected: "alloc::string::String".to_string(),
                received: format!("{:?}", other),
            }),
        }
    }

    fn try_into_f32(self) -> Result<f32, SetFieldError> {
        match self {
            InnerStructValue::F32(v) => Ok(v),
            other => Err(SetFieldError {
                field: String::new(),
                expected: "f32".to_string(),
                received: format!("{:?}", other),
            }),
        }
    }
}

impl InnerStructField {
    fn deepest_name(&self) -> &'static str {
        match self {
            InnerStructField::Label => "Label",
            InnerStructField::Prop => "Prop",
        }
    }
}

impl Fielded for InnerStruct {
    type Field = InnerStructField;
    type FieldValue = InnerStructValue;

    fn set_field(
        &mut self,
        field: InnerStructField,
        value: InnerStructValue,
    ) -> Result<(), SetFieldError> {
        match field {
            InnerStructField::Label => match value.try_into_string() {
                Ok(v) => {
                    self.label = v;
                    Ok(())
                }
                Err(e) => Err(e.with_field("Label")),
            },
            InnerStructField::Prop => match value.try_into_f32() {
                Ok(v) => {
                    self.prop = v;
                    Ok(())
                }
                Err(e) => Err(e.with_field("Prop")),
            },
        }
    }

    fn get_field(&self, field: &InnerStructField) -> InnerStructValue {
        match field {
            InnerStructField::Label => InnerStructValue::String(self.label.clone()),
            InnerStructField::Prop => InnerStructValue::F32(self.prop),
        }
    }
}

impl Fielded for MyStruct {
    type Field = MyStructField;
    type FieldValue = MyStructValue;

    fn set_field(
        &mut self,
        field: MyStructField,
        value: MyStructValue,
    ) -> Result<(), SetFieldError> {
        match field {
            MyStructField::Num => match value.try_into_f32() {
                Ok(v) => {
                    self.num = v;
                    Ok(())
                }
                Err(e) => Err(e.with_field("Num")),
            },
            MyStructField::Count => match value.try_into_usize() {
                Ok(v) => {
                    self.count = v;
                    Ok(())
                }
                Err(e) => Err(e.with_field("Count")),
            },
            MyStructField::Name => match value.try_into_string() {
                Ok(v) => {
                    self.name = v;
                    Ok(())
                }
                Err(e) => Err(e.with_field("Name")),
            },
            MyStructField::Nested(inner) => match value.try_into_inner_struct_value() {
                Ok(v) => self.nested.set_field(inner, v),
                Err(e) => Err(e.with_field(inner.deepest_name())),
            },
        }
    }

    fn get_field(&self, field: &MyStructField) -> MyStructValue {
        match field {
            MyStructField::Num => MyStructValue::F32(self.num),
            MyStructField::Count => MyStructValue::Usize(self.count),
            MyStructField::Name => MyStructValue::String(self.name.clone()),
            MyStructField::Nested(inner) => {
                MyStructValue::InnerStruct(self.nested.get_field(inner))
            }
        }
    }
}

#[test]
fn test_set_field() {
    let mut s = MyStruct {
        num: 1.,
        count: 3,
        name: "hello world".into(),
        nested: InnerStruct {
            label: "hi".into(),
            prop: 123.,
        },
        skip_me: 100,
    };

    s.set_field(MyStructField::Num, MyStructValue::from(789.)).unwrap();
    assert_eq!(s.num, 789.);
    assert!(s.set_field(MyStructField::Num, MyStructValue::from(1usize)).is_err());

    s.set_field(MyStructField::Name, MyStructValue::from("abc".to_string())).unwrap();
    assert_eq!(s.name.as_str(), "abc");
    assert!(s.set_field(MyStructField::Name, MyStructValue::from(1usize)).is_err());

    s.set_field(
        MyStructField::Nested(InnerStructField::Prop),
        MyStructValue::from(InnerStructValue::from(456.)),
    )
    .unwrap();
    assert_eq!(s.nested.prop, 456.);
    assert!(s
        .set_field(
            MyStructField::Nested(InnerStructField::Prop),
            MyStructValue::from(1usize)
        )
        .is_err());

    println!("{:?}", MyStructField::Num);
}

#[test]
fn test_error_attributes() {
    let mut s = MyStruct {
        num: 0.,
        count: 0,
        name: String::new(),
        nested: InnerStruct {
            label: String::new(),
            prop: 0.,
        },
        skip_me: 0,
    };

    let e = s
        .set_field(MyStructField::Num, MyStructValue::from(1usize))
        .unwrap_err();
    assert_eq!(e.field.as_str(), "Num");
    assert_eq!(e.expected.as_str(), "f32");
    assert_eq!(e.received.as_str(), "Usize(1)");

    let e = s
        .set_field(MyStructField::Name, MyStructValue::from(1usize))
        .unwrap_err();
    assert_eq!(e.field.as_str(), "Name");
    assert_eq!(e.expected.as_str(), "alloc::string::String");

    // A wrong-typed value on a composite path reports the deepest
    // selector case, not the outer one.
    let e = s
        .set_field(
            MyStructField::Nested(InnerStructField::Prop),
            MyStructValue::from(1usize),
        )
        .unwrap_err();
    assert_eq!(e.field.as_str(), "Prop");

    let e = s
        .set_field(
            MyStructField::Nested(InnerStructField::Prop),
            MyStructValue::from(InnerStructValue::from("oops".to_string())),
        )
        .unwrap_err();
    assert_eq!(e.field.as_str(), "Prop");
    assert_eq!(e.expected.as_str(), "f32");
    assert_eq!(e.received.as_str(), "String(\"oops\")");
}

#[test]
fn test_get_field_round_trip() {
    let mut s = MyStruct {
        num: 2.5,
        count: 7,
        name: "start".to_string(),
        nested: InnerStruct {
            label: "tag".to_string(),
            prop: 0.5,
        },
        skip_me: 0,
    };

    assert_eq!(s.get_field(&MyStructField::Num), MyStructValue::F32(2.5));
    assert_eq!(s.get_field(&MyStructField::Count), MyStructValue::Usize(7));

    s.set_field(MyStructField::Name, MyStructValue::from("after".to_string()))
        .unwrap();
    assert_eq!(
        s.get_field(&MyStructField::Name),
        MyStructValue::String("after".to_string())
    );

    s.set_field(
        MyStructField::Nested(InnerStructField::Label),
        MyStructValue::from(InnerStructValue::from("deep".to_string())),
    )
    .unwrap();
    assert_eq!(
        s.get_field(&MyStructField::Nested(InnerStructField::Label)),
        MyStructValue::InnerStruct(InnerStructValue::String("deep".to_string()))
    );
}
