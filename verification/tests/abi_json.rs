use serde_json::{Number, Value};
use zokrates_core::json::Json;
use zokrates_core::typed_absy::abi::{Abi, AbiInput};
use zokrates_core::typed_absy::types::{ArrayType, StructMember, StructType, Type, UBitwidth};

fn to_value(j: &Json) -> Value {
    match j {
        Json::Null => Value::Null,
        Json::Flag(b) => Value::Bool(*b),
        Json::Number(n) => Value::Number(Number::from(*n)),
        Json::Text(s) => Value::String(s.clone()),
        Json::List(list) => Value::Array(list.iter().map(to_value).collect()),
        Json::Object(entries) => {
            let mut map = serde_json::Map::new();
            for (key, value) in entries {
                map.insert(key.clone(), to_value(value));
            }
            Value::Object(map)
        }
    }
}

fn from_value(v: &Value) -> Json {
    match v {
        Value::Null => Json::Null,
        Value::Bool(b) => Json::Flag(*b),
        Value::Number(n) => Json::Number(n.as_u64().unwrap() as usize),
        Value::String(s) => Json::Text(s.clone()),
        Value::Array(list) => Json::List(list.iter().map(from_value).collect()),
        Value::Object(map) => Json::Object(
            map.iter()
                .map(|(key, value)| (key.clone(), from_value(value)))
                .collect(),
        ),
    }
}

fn read(json: &str) -> Abi {
    Abi::from_json(&from_value(&serde_json::from_str(json).unwrap())).unwrap()
}

fn parsed(json: &str) -> Json {
    from_value(&serde_json::from_str(json).unwrap())
}

#[test]
fn serialize_empty() {
    let abi: Abi = Abi {
        inputs: vec![],
        outputs: vec![],
    };

    let json = serde_json::to_string(&to_value(&abi.to_json())).unwrap();
    assert_eq!(&json, r#"{"inputs":[],"outputs":[]}"#);
    let de_abi: Abi = read(json.as_ref());
    assert_eq!(de_abi, abi);
}

#[test]
fn serialize_field() {
    let abi: Abi = Abi {
        inputs: vec![
            AbiInput {
                name: String::from("a"),
                public: true,
                ty: Type::FieldElement,
            },
            AbiInput {
                name: String::from("b"),
                public: true,
                ty: Type::FieldElement,
            },
        ],
        outputs: vec![Type::FieldElement],
    };

    let json = serde_json::to_string_pretty(&to_value(&abi.to_json())).unwrap();
    assert_eq!(
        &json,
        r#"{
  "inputs": [
    {
      "name": "a",
      "public": true,
      "type": "field"
    },
    {
      "name": "b",
      "public": true,
      "type": "field"
    }
  ],
  "outputs": [
    {
      "type": "field"
    }
  ]
}"#
    );

    let de_abi: Abi = read(json.as_ref());
    assert_eq!(de_abi, abi);
}

#[test]
fn serialize_uints() {
    let abi: Abi = Abi {
        inputs: vec![
            AbiInput {
                name: String::from("a"),
                public: true,
                ty: Type::Uint(UBitwidth::B8),
            },
            AbiInput {
                name: String::from("b"),
                public: true,
                ty: Type::Uint(UBitwidth::B16),
            },
            AbiInput {
                name: String::from("c"),
                public: true,
                ty: Type::Uint(UBitwidth::B32),
            },
        ],
        outputs: vec![],
    };

    let json = serde_json::to_string_pretty(&to_value(&abi.to_json())).unwrap();
    assert_eq!(
        &json,
        r#"{
  "inputs": [
    {
      "name": "a",
      "public": true,
      "type": "u8"
    },
    {
      "name": "b",
      "public": true,
      "type": "u16"
    },
    {
      "name": "c",
      "public": true,
      "type": "u32"
    }
  ],
  "outputs": []
}"#
    );

    let de_abi: Abi = read(json.as_ref());
    assert_eq!(de_abi, abi);
}

#[test]
fn serialize_struct() {
    let abi: Abi = Abi {
        inputs: vec![AbiInput {
            name: String::from("foo"),
            public: true,
            ty: Type::Struct(StructType::new(
                "".into(),
                "Foo".into(),
                vec![
                    StructMember::new(String::from("a"), Type::FieldElement),
                    StructMember::new(String::from("b"), Type::Boolean),
                ],
            )),
        }],
        outputs: vec![Type::Struct(StructType::new(
            "".into(),
            "Foo".into(),
            vec![
                StructMember::new(String::from("a"), Type::FieldElement),
                StructMember::new(String::from("b"), Type::Boolean),
            ],
        ))],
    };

    let json = serde_json::to_string_pretty(&to_value(&abi.to_json())).unwrap();
    assert_eq!(
        &json,
        r#"{
  "inputs": [
    {
      "name": "foo",
      "public": true,
      "type": "struct",
      "components": {
        "name": "Foo",
        "members": [
          {
            "name": "a",
            "type": "field"
          },
          {
            "name": "b",
            "type": "bool"
          }
        ]
      }
    }
  ],
  "outputs": [
    {
      "type": "struct",
      "components": {
        "name": "Foo",
        "members": [
          {
            "name": "a",
            "type": "field"
          },
          {
            "name": "b",
            "type": "bool"
          }
        ]
      }
    }
  ]
}"#
    );

    let de_abi: Abi = read(json.as_ref());
    assert_eq!(de_abi, abi);
}

#[test]
fn serialize_nested_struct() {
    let abi: Abi = Abi {
        inputs: vec![AbiInput {
            name: String::from("foo"),
            public: true,
            ty: Type::Struct(StructType::new(
                "".into(),
                "Foo".into(),
                vec![StructMember::new(
                    String::from("bar"),
                    Type::Struct(StructType::new(
                        "".into(),
                        "Bar".into(),
                        vec![
                            StructMember::new(String::from("a"), Type::FieldElement),
                            StructMember::new(String::from("b"), Type::FieldElement),
                        ],
                    )),
                )],
            )),
        }],
        outputs: vec![],
    };

    let json = serde_json::to_string_pretty(&to_value(&abi.to_json())).unwrap();
    assert_eq!(
        &json,
        r#"{
  "inputs": [
    {
      "name": "foo",
      "public": true,
      "type": "struct",
      "components": {
        "name": "Foo",
        "members": [
          {
            "name": "bar",
            "type": "struct",
            "components": {
              "name": "Bar",
              "members": [
                {
                  "name": "a",
                  "type": "field"
                },
                {
                  "name": "b",
                  "type": "field"
                }
              ]
            }
          }
        ]
      }
    }
  ],
  "outputs": []
}"#
    );

    let de_abi: Abi = read(json.as_ref());
    assert_eq!(de_abi, abi);
}

#[test]
fn serialize_struct_array() {
    let abi: Abi = Abi {
        inputs: vec![AbiInput {
            name: String::from("a"),
            public: false,
            ty: Type::Array(ArrayType::new(
                Type::Struct(StructType::new(
                    "".into(),
                    "Foo".into(),
                    vec![
                        StructMember::new(String::from("b"), Type::FieldElement),
                        StructMember::new(String::from("c"), Type::Boolean),
                    ],
                )),
                2,
            )),
        }],
        outputs: vec![Type::Boolean],
    };

    let json = serde_json::to_string_pretty(&to_value(&abi.to_json())).unwrap();
    assert_eq!(
        &json,
        r#"{
  "inputs": [
    {
      "name": "a",
      "public": false,
      "type": "array",
      "components": {
        "size": 2,
        "type": "struct",
        "components": {
          "name": "Foo",
          "members": [
            {
              "name": "b",
              "type": "field"
            },
            {
              "name": "c",
              "type": "bool"
            }
          ]
        }
      }
    }
  ],
  "outputs": [
    {
      "type": "bool"
    }
  ]
}"#
    );

    let de_abi: Abi = read(json.as_ref());
    assert_eq!(de_abi, abi);
}

#[test]
fn serialize_multi_dimensional_array() {
    let abi: Abi = Abi {
        inputs: vec![AbiInput {
            name: String::from("a"),
            public: false,
            ty: Type::Array(ArrayType::new(
                Type::Array(ArrayType::new(Type::FieldElement, 2)),
                2,
            )),
        }],
        outputs: vec![Type::FieldElement],
    };

    let json = serde_json::to_string_pretty(&to_value(&abi.to_json())).unwrap();
    assert_eq!(
        &json,
        r#"{
  "inputs": [
    {
      "name": "a",
      "public": false,
      "type": "array",
      "components": {
        "size": 2,
        "type": "array",
        "components": {
          "size": 2,
          "type": "field"
        }
      }
    }
  ],
  "outputs": [
    {
      "type": "field"
    }
  ]
}"#
    );

    let de_abi: Abi = read(json.as_ref());
    assert_eq!(de_abi, abi);
}

#[test]
fn abi_round_trip() {
    let abi = Abi {
        inputs: vec![
            AbiInput {
                name: String::from("a"),
                public: false,
                ty: Type::FieldElement,
            },
            AbiInput {
                name: String::from("b"),
                public: true,
                ty: Type::Boolean,
            },
        ],
        outputs: vec![Type::FieldElement],
    };
    let json = serde_json::to_string(&to_value(&abi.to_json())).unwrap();
    assert_eq!(
        &json,
        r#"{"inputs":[{"name":"a","public":false,"type":"field"},{"name":"b","public":true,"type":"bool"}],"outputs":[{"type":"field"}]}"#
    );
    let again = read(&json);
    assert_eq!(again, abi);
    assert_eq!(
        serde_json::to_string(&to_value(&again.to_json())).unwrap(),
        json
    );
}

#[test]
fn struct_types_are_written_without_their_module() {
    let here = Type::Struct(StructType::new(
        "some/module".into(),
        "Foo".into(),
        vec![StructMember::new(String::from("a"), Type::FieldElement)],
    ));
    let json = serde_json::to_string(&to_value(&Json::Object(here.to_entries()))).unwrap();
    assert_eq!(
        &json,
        r#"{"type":"struct","components":{"name":"Foo","members":[{"name":"a","type":"field"}]}}"#
    );
    let back = match parsed(&json) {
        Json::Object(entries) => Type::from_entries(&entries).unwrap(),
        _ => unreachable!(),
    };
    assert_eq!(
        back,
        Type::Struct(StructType::new(
            "".into(),
            "Foo".into(),
            vec![StructMember::new(String::from("a"), Type::FieldElement)],
        ))
    );
    assert_ne!(back, here);
}

#[test]
fn values_that_are_no_interface() {
    let reads = |json: &str| Abi::from_json(&parsed(json)).is_some();
    assert!(reads(r#"{"inputs":[],"outputs":[]}"#));
    // other entries play no part, and the order of the entries is free
    assert!(reads(r#"{"outputs":[{"note":1,"type":"u8"}],"version":2,"inputs":[]}"#));
    assert!(!reads(r#"[]"#));
    assert!(!reads(r#"{"inputs":[]}"#));
    assert!(!reads(r#"{"inputs":{},"outputs":[]}"#));
    assert!(!reads(r#"{"inputs":[],"outputs":[{"type":"u64"}]}"#));
    assert!(!reads(r#"{"inputs":[],"outputs":[{"type":7}]}"#));
    assert!(!reads(r#"{"inputs":[],"outputs":["field"]}"#));
    assert!(!reads(r#"{"inputs":[{"name":"a","type":"field"}],"outputs":[]}"#));
    assert!(!reads(r#"{"inputs":[{"public":true,"type":"field"}],"outputs":[]}"#));
    assert!(!reads(r#"{"inputs":[{"name":"a","public":"yes","type":"field"}],"outputs":[]}"#));
    assert!(!reads(r#"{"inputs":[],"outputs":[{"type":"array"}]}"#));
    assert!(!reads(r#"{"inputs":[],"outputs":[{"type":"array","components":{"type":"field"}}]}"#));
    assert!(!reads(r#"{"inputs":[],"outputs":[{"type":"array","components":{"size":2}}]}"#));
    assert!(!reads(r#"{"inputs":[],"outputs":[{"type":"array","components":[2,"field"]}]}"#));
    assert!(!reads(r#"{"inputs":[],"outputs":[{"type":"struct","components":{"name":"Foo"}}]}"#));
    assert!(!reads(
        r#"{"inputs":[],"outputs":[{"type":"struct","components":{"name":"Foo","members":[{"name":"a"}]}}]}"#
    ));
    assert!(!reads(
        r#"{"inputs":[],"outputs":[{"type":"struct","components":{"name":"Foo","members":[{"type":"bool"}]}}]}"#
    ));
    assert!(reads(
        r#"{"inputs":[],"outputs":[{"type":"struct","components":{"name":"Foo","members":[]}}]}"#
    ));
}
