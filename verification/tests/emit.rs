use enum2map::assembly::{
    assemble, container_type_source, get_method_source, get_or_default_method_source,
    key_type_source, operations_source, store_method_source,
};
use enum2map::derive_enum2map;
use enum2map::emit::{
    generate_get_default_cases, generate_getter_functions, generate_insert_cases,
    generate_setter_functions, generate_variants, make_get_default_case, make_getter_function,
    make_getter_name, make_insert_case, make_key_type_name, make_map_type_name,
    make_setter_function, make_setter_name,
};
use enum2map::schema::{
    Fields, Schema, SchemaError, ShapeViolation, TypeDescription, Variant, VariantDescriptor,
};
use enum2map::text::join_all;
use proc_macro2::TokenStream;
use std::str::FromStr;

fn descriptor(name: &str, payload_type: &str) -> VariantDescriptor {
    VariantDescriptor { name: name.to_string(), payload_type: payload_type.to_string() }
}

fn test_value_schema() -> Schema {
    Schema {
        name: "TestValue".to_string(),
        variants: vec![descriptor("Padding", "usize"), descriptor("Margin", "String")],
    }
}

fn test_value_description() -> TypeDescription {
    TypeDescription {
        name: "TestValue".to_string(),
        variants: vec![
            Variant {
                name: "Padding".to_string(),
                fields: Fields::Unnamed(vec!["usize".to_string()]),
            },
            Variant {
                name: "Margin".to_string(),
                fields: Fields::Unnamed(vec!["String".to_string()]),
            },
        ],
    }
}

const TEST_VALUE_SOURCE: &str = "#[derive(Debug, Clone, Eq, Hash, PartialEq)]
pub enum TestValueKey {
    Padding,
    Margin
}

pub struct TestValueMap {
    pub values: std::collections::HashMap<TestValueKey, TestValue>,
}

impl TestValueMap {
    pub fn new() -> Self {
        Self {
            values: std::collections::HashMap::new(),
        }
    }

    pub fn insert(&mut self, value: TestValue) -> Option<TestValue> {
        match value {
            TestValue::Padding(val) => { self.values.insert(TestValueKey::Padding, TestValue::Padding(val)) },
            TestValue::Margin(val) => { self.values.insert(TestValueKey::Margin, TestValue::Margin(val)) }
        }
    }

    pub fn get(&self, key: TestValueKey) -> Option<&TestValue> {
        self.values.get(&key)
    }

    pub fn get_or_default(&self, key: TestValueKey) -> TestValue {
        match self.values.get(&key) {
            Some(value) => value.clone(),
            None => match key {
                TestValueKey::Padding => TestValue::Padding(Default::default()),
                TestValueKey::Margin => TestValue::Margin(Default::default())
            },
        }
    }

    pub fn set(&mut self, value: TestValue) -> Option<TestValue> {
        match value {
            TestValue::Padding(val) => { self.values.insert(TestValueKey::Padding, TestValue::Padding(val)) },
            TestValue::Margin(val) => { self.values.insert(TestValueKey::Margin, TestValue::Margin(val)) }
        }
    }

    pub fn get_padding(&self) -> usize {
        match self.values.get(&TestValueKey::Padding) {
            Some(TestValue::Padding(value)) => value.clone(),
            None => Default::default(),
            _ => panic!(\"Unexpected condition: Didn't find type {} for {}\", stringify!(usize), stringify!(Padding))
        }
    }

    pub fn get_margin(&self) -> String {
        match self.values.get(&TestValueKey::Margin) {
            Some(TestValue::Margin(value)) => value.clone(),
            None => Default::default(),
            _ => panic!(\"Unexpected condition: Didn't find type {} for {}\", stringify!(String), stringify!(Margin))
        }
    }

    pub fn set_padding(&mut self, val: usize) {
        self.values.insert(TestValueKey::Padding, TestValue::Padding(val));
    }

    pub fn set_margin(&mut self, val: String) {
        self.values.insert(TestValueKey::Margin, TestValue::Margin(val));
    }
}
";

#[test]
fn names_of_the_emitted_types() {
    assert_eq!(make_key_type_name("TestValue"), "TestValueKey");
    assert_eq!(make_map_type_name("TestValue"), "TestValueMap");
    assert_eq!(make_key_type_name(""), "Key");
}

#[test]
fn names_of_the_accessors() {
    assert_eq!(make_getter_name("padding"), "get_padding");
    assert_eq!(make_setter_name("padding"), "set_padding");
}

#[test]
fn joins_with_separator_between_neighbours() {
    let parts = vec!["a".to_string(), "b".to_string(), "c".to_string()];
    assert_eq!(join_all(&parts, ", "), "a, b, c");
    assert_eq!(join_all(&parts, ""), "abc");
    assert_eq!(join_all(&parts[..1].to_vec(), ", "), "a");
    assert_eq!(join_all(&Vec::new(), ", "), "");
}

#[test]
fn one_insert_case() {
    assert_eq!(
        make_insert_case("TestValue", "TestValueKey", "Padding"),
        "TestValue::Padding(val) => { self.values.insert(TestValueKey::Padding, TestValue::Padding(val)) }"
    );
}

#[test]
fn one_get_default_case() {
    assert_eq!(
        make_get_default_case("TestValue", "TestValueKey", "Margin"),
        "TestValueKey::Margin => TestValue::Margin(Default::default())"
    );
}

#[test]
fn one_getter_function() {
    assert_eq!(
        make_getter_function("TestValue", "TestValueKey", "Margin", "margin", "String"),
        "
    pub fn get_margin(&self) -> String {
        match self.values.get(&TestValueKey::Margin) {
            Some(TestValue::Margin(value)) => value.clone(),
            None => Default::default(),
            _ => panic!(\"Unexpected condition: Didn't find type {} for {}\", stringify!(String), stringify!(Margin))
        }
    }
"
    );
}

#[test]
fn one_setter_function() {
    assert_eq!(
        make_setter_function("TestValue", "TestValueKey", "Padding", "padding", "usize"),
        "
    pub fn set_padding(&mut self, val: usize) {
        self.values.insert(TestValueKey::Padding, TestValue::Padding(val));
    }
"
    );
}

#[test]
fn variants_become_bare_tags_in_order() {
    assert_eq!(generate_variants(&test_value_schema()), vec!["Padding", "Margin"]);
}

#[test]
fn insert_cases_in_schema_order() {
    assert_eq!(
        generate_insert_cases(&test_value_schema()),
        vec![
            "TestValue::Padding(val) => { self.values.insert(TestValueKey::Padding, TestValue::Padding(val)) }",
            "TestValue::Margin(val) => { self.values.insert(TestValueKey::Margin, TestValue::Margin(val)) }",
        ]
    );
}

#[test]
fn get_default_cases_in_schema_order() {
    assert_eq!(
        generate_get_default_cases(&test_value_schema()),
        vec![
            "TestValueKey::Padding => TestValue::Padding(Default::default())",
            "TestValueKey::Margin => TestValue::Margin(Default::default())",
        ]
    );
}

#[test]
fn getters_are_named_in_lowercase() {
    let getters = generate_getter_functions(&test_value_schema());
    assert_eq!(getters.len(), 2);
    assert_eq!(
        getters[0],
        make_getter_function("TestValue", "TestValueKey", "Padding", "padding", "usize")
    );
    assert_eq!(
        getters[1],
        make_getter_function("TestValue", "TestValueKey", "Margin", "margin", "String")
    );
    assert!(getters[0].contains("pub fn get_padding(&self) -> usize"));
    assert!(!getters[0].contains("get_Padding"));
}

#[test]
fn setters_are_named_in_lowercase() {
    let setters = generate_setter_functions(&test_value_schema());
    assert_eq!(setters.len(), 2);
    assert_eq!(
        setters[0],
        make_setter_function("TestValue", "TestValueKey", "Padding", "padding", "usize")
    );
    assert_eq!(
        setters[1],
        make_setter_function("TestValue", "TestValueKey", "Margin", "margin", "String")
    );
    assert!(setters[1].contains("pub fn set_margin(&mut self, val: String)"));
    assert!(!setters[1].contains("set_Margin"));
}

#[test]
fn accessor_names_follow_unicode_lowercase() {
    let schema = Schema {
        name: "Mood".to_string(),
        variants: vec![descriptor("ÄRGER", "u8"), descriptor("CamelCase", "u8")],
    };
    let getters = generate_getter_functions(&schema);
    let setters = generate_setter_functions(&schema);
    assert!(getters[0].contains("pub fn get_ärger(&self) -> u8"));
    assert!(setters[0].contains("pub fn set_ärger(&mut self, val: u8)"));
    assert!(getters[1].contains("pub fn get_camelcase(&self) -> u8"));
    assert!(getters[1].contains("MoodKey::CamelCase"));
}

#[test]
fn key_type_for_test_value() {
    assert_eq!(
        key_type_source(&test_value_schema()),
        "#[derive(Debug, Clone, Eq, Hash, PartialEq)]
pub enum TestValueKey {
    Padding,
    Margin
}
"
    );
}

#[test]
fn container_type_for_test_value() {
    assert_eq!(
        container_type_source(&test_value_schema()),
        "pub struct TestValueMap {
    pub values: std::collections::HashMap<TestValueKey, TestValue>,
}
"
    );
}

#[test]
fn store_method_around_cases() {
    let cases = vec!["A => a".to_string(), "B => b".to_string()];
    assert_eq!(
        store_method_source("set", "T", &cases),
        "
    pub fn set(&mut self, value: T) -> Option<T> {
        match value {
            A => a,
            B => b
        }
    }
"
    );
}

#[test]
fn get_method_for_test_value() {
    assert_eq!(
        get_method_source("TestValue", "TestValueKey"),
        "
    pub fn get(&self, key: TestValueKey) -> Option<&TestValue> {
        self.values.get(&key)
    }
"
    );
}

#[test]
fn get_or_default_method_around_cases() {
    let cases = vec!["K::A => T::A(Default::default())".to_string()];
    assert_eq!(
        get_or_default_method_source("T", "K", &cases),
        "
    pub fn get_or_default(&self, key: K) -> T {
        match self.values.get(&key) {
            Some(value) => value.clone(),
            None => match key {
                K::A => T::A(Default::default())
            },
        }
    }
"
    );
}

#[test]
fn whole_unit_for_test_value() {
    let schema = test_value_schema();
    assert_eq!(assemble(&schema), TEST_VALUE_SOURCE);
    let mut parts = key_type_source(&schema);
    parts.push('\n');
    parts.push_str(&container_type_source(&schema));
    parts.push('\n');
    parts.push_str(&operations_source(&schema));
    assert_eq!(parts, TEST_VALUE_SOURCE);
}

#[test]
fn derive_emits_the_whole_unit() {
    assert_eq!(derive_enum2map(&test_value_description()), Ok(TEST_VALUE_SOURCE.to_string()));
}

#[test]
fn derive_emits_nothing_on_a_bad_shape() {
    let mut decl = test_value_description();
    decl.variants.push(Variant { name: "Border".to_string(), fields: Fields::Unit });
    assert_eq!(
        derive_enum2map(&decl),
        Err(SchemaError {
            index: 2,
            variant: "Border".to_string(),
            violation: ShapeViolation::FieldCount,
        })
    );
    decl.variants[0].fields = Fields::Named(vec!["usize".to_string()]);
    assert_eq!(
        derive_enum2map(&decl),
        Err(SchemaError {
            index: 0,
            variant: "Padding".to_string(),
            violation: ShapeViolation::NamedFields,
        })
    );
}

#[test]
fn emitted_unit_has_the_expected_tokens() {
    let expected = "
        #[derive(Debug, Clone, Eq, Hash, PartialEq)]
        pub enum TestValueKey { Padding, Margin }
        pub struct TestValueMap {
            pub values: std::collections::HashMap<TestValueKey, TestValue>,
        }
        impl TestValueMap {
            pub fn new() -> Self {
                Self { values: std::collections::HashMap::new(), }
            }
            pub fn insert(&mut self, value: TestValue) -> Option<TestValue>{
                match value {
                    TestValue::Padding(val) => {
                        self.values.insert(TestValueKey::Padding, TestValue::Padding(val))
                    },
                    TestValue::Margin(val) => {
                        self.values.insert(TestValueKey::Margin, TestValue::Margin(val))
                    }
                }
            }
            pub fn get(&self, key: TestValueKey) -> Option<&TestValue> {
                self.values.get(&key)
            }
            pub fn get_or_default(&self, key: TestValueKey) -> TestValue {
                match self.values.get(&key) {
                    Some(value) => value.clone(),
                    None => match key {
                        TestValueKey::Padding => TestValue::Padding(Default::default()),
                        TestValueKey::Margin => TestValue::Margin(Default::default())
                    },
                }
            }
            pub fn set(&mut self, value: TestValue) -> Option<TestValue> {
                match value {
                    TestValue::Padding(val) => {
                        self.values.insert(TestValueKey::Padding, TestValue::Padding(val))
                    },
                    TestValue::Margin(val) => {
                        self.values.insert(TestValueKey::Margin, TestValue::Margin(val))
                    }
                }
            }
            pub fn get_padding(&self) -> usize {
                match self.values.get(&TestValueKey::Padding) {
                    Some(TestValue::Padding(value)) => value.clone(),
                    None => Default::default(),
                    _ => panic!(\"Unexpected condition: Didn't find type {} for {}\", stringify!(usize), stringify!(Padding))
                }
            }
            pub fn get_margin(&self) -> String {
                match self.values.get(&TestValueKey::Margin) {
                    Some(TestValue::Margin(value)) => value.clone(),
                    None => Default::default(),
                    _ => panic!(\"Unexpected condition: Didn't find type {} for {}\", stringify!(String), stringify!(Margin))
                }
            }
            pub fn set_padding(&mut self, val: usize) {
                self.values.insert(TestValueKey::Padding, TestValue::Padding(val));
            }
            pub fn set_margin(&mut self, val: String) {
                self.values.insert(TestValueKey::Margin, TestValue::Margin(val));
            }
        }
    ";
    let emitted = derive_enum2map(&test_value_description()).unwrap();
    assert_eq!(
        TokenStream::from_str(&emitted).unwrap().to_string(),
        TokenStream::from_str(expected).unwrap().to_string()
    );
}

#[test]
fn emitted_unit_parses_as_three_items() {
    let emitted = derive_enum2map(&test_value_description()).unwrap();
    let file = syn::parse_file(&emitted).unwrap();
    assert_eq!(file.items.len(), 3);
    match &file.items[0] {
        syn::Item::Enum(key_type) => {
            assert_eq!(key_type.ident.to_string(), "TestValueKey");
            let tags: Vec<String> =
                key_type.variants.iter().map(|variant| variant.ident.to_string()).collect();
            assert_eq!(tags, vec!["Padding", "Margin"]);
            assert!(key_type.variants.iter().all(|variant| variant.fields.is_empty()));
        }
        _ => panic!("the first item is the key type"),
    }
    match &file.items[1] {
        syn::Item::Struct(container) => {
            assert_eq!(container.ident.to_string(), "TestValueMap");
            assert_eq!(container.fields.len(), 1);
        }
        _ => panic!("the second item is the container type"),
    }
    match &file.items[2] {
        syn::Item::Impl(operations) => {
            let mut methods: Vec<String> = Vec::new();
            for item in operations.items.iter() {
                match item {
                    syn::ImplItem::Fn(method) => methods.push(method.sig.ident.to_string()),
                    _ => panic!("the block of operations holds methods only"),
                }
            }
            assert_eq!(
                methods,
                vec![
                    "new",
                    "insert",
                    "get",
                    "get_or_default",
                    "set",
                    "get_padding",
                    "get_margin",
                    "set_padding",
                    "set_margin",
                ]
            );
        }
        _ => panic!("the third item is the block of operations"),
    }
}

#[test]
fn union_without_variants_still_parses() {
    let schema = Schema { name: "Never".to_string(), variants: Vec::new() };
    assert_eq!(generate_variants(&schema), Vec::<String>::new());
    assert_eq!(generate_getter_functions(&schema), Vec::<String>::new());
    let emitted = assemble(&schema);
    let file = syn::parse_file(&emitted).unwrap();
    assert_eq!(file.items.len(), 3);
}
