//! Assembly of the emitted unit: the key type, the container type and the
//! block of operations, in that order.

use crate::emit::{
    generate_get_default_cases, generate_getter_functions, generate_insert_cases,
    generate_setter_functions, generate_variants, get_default_cases, getter_functions,
    insert_cases, key_type_name, make_key_type_name, make_map_type_name, map_type_name,
    setter_functions, variant_tags,
};
use crate::schema::{
    conforms, extract_schema, reports, schema_of, Schema, SchemaError, SchemaView,
    TypeDescription,
};
use crate::text::{join, join_all, texts};
use vstd::prelude::*;
use vstd::string::*;

verus! {

/// The key type: an enumeration with one bare tag per variant, in schema
/// order, that can be compared, hashed, copied and printed.
pub open spec fn key_type_text(schema: SchemaView) -> Seq<char> {
    "#[derive(Debug, Clone, Eq, Hash, PartialEq)]\npub enum "@ + key_type_name(schema.name)
        + " {\n    "@ + join(variant_tags(schema), ",\n    "@) + "\n}\n"@
}

/// The container type: a record with a single field, the mapping from the
/// key type to the union.
pub open spec fn container_type_text(schema: SchemaView) -> Seq<char> {
    "pub struct "@ + map_type_name(schema.name)
        + " {\n    pub values: std::collections::HashMap<"@ + key_type_name(schema.name) + ", "@
        + schema.name + ">,\n}\n"@
}

/// The constructor: a container whose mapping is empty.
pub open spec fn constructor_text() -> Seq<char> {
    "    pub fn new() -> Self {\n        Self {\n            values: std::collections::HashMap::new(),\n        }\n    }\n"@
}

/// A store operation called `method`: dispatches on the variant of the
/// value through `cases`.
pub open spec fn store_method_text(method: Seq<char>, name: Seq<char>, cases: Seq<Seq<char>>) -> Seq<
    char,
> {
    "\n    pub fn "@ + method + "(&mut self, value: "@ + name + ") -> Option<"@ + name
        + "> {\n        match value {\n            "@ + join(cases, ",\n            "@)
        + "\n        }\n    }\n"@
}

/// The plain lookup: a reference to the value under the key, if any.
pub open spec fn get_method_text(name: Seq<char>, key_type: Seq<char>) -> Seq<char> {
    "\n    pub fn get(&self, key: "@ + key_type + ") -> Option<&"@ + name
        + "> {\n        self.values.get(&key)\n    }\n"@
}

/// The default lookup: a copy of the value under the key, or the default
/// that `cases` gives for the key.
pub open spec fn get_or_default_method_text(
    name: Seq<char>,
    key_type: Seq<char>,
    cases: Seq<Seq<char>>,
) -> Seq<char> {
    "\n    pub fn get_or_default(&self, key: "@ + key_type + ") -> "@ + name
        + " {\n        match self.values.get(&key) {\n            Some(value) => value.clone(),\n            None => match key {\n                "@
        + join(cases, ",\n                "@) + "\n            },\n        }\n    }\n"@
}

/// The block of operations on the container: the constructor, `insert`,
/// `get`, `get_or_default`, `set`, then every getter and every setter in
/// schema order. `insert` and `set` have the same body.
pub open spec fn operations_text(schema: SchemaView) -> Seq<char> {
    "impl "@ + map_type_name(schema.name) + " {\n"@ + constructor_text() + store_method_text(
        "insert"@,
        schema.name,
        insert_cases(schema),
    ) + get_method_text(schema.name, key_type_name(schema.name)) + get_or_default_method_text(
        schema.name,
        key_type_name(schema.name),
        get_default_cases(schema),
    ) + store_method_text("set"@, schema.name, insert_cases(schema)) + join(
        getter_functions(schema),
        ""@,
    ) + join(setter_functions(schema), ""@) + "}\n"@
}

/// The whole emitted unit.
pub open spec fn expansion(schema: SchemaView) -> Seq<char> {
    key_type_text(schema) + "\n"@ + container_type_text(schema) + "\n"@ + operations_text(schema)
}

/// Writes the key type.
pub fn key_type_source(schema: &Schema) -> (out: String)
    ensures
        out@ == key_type_text(schema@),
{
    let key_type = make_key_type_name(schema.name.as_str());
    let tags = generate_variants(schema);
    let body = join_all(&tags, ",\n    ");
    let mut out = "#[derive(Debug, Clone, Eq, Hash, PartialEq)]\npub enum ".to_owned();
    out.append(key_type.as_str());
    out.append(" {\n    ");
    out.append(body.as_str());
    out.append("\n}\n");
    out
}

/// Writes the container type.
pub fn container_type_source(schema: &Schema) -> (out: String)
    ensures
        out@ == container_type_text(schema@),
{
    let key_type = make_key_type_name(schema.name.as_str());
    let map_type = make_map_type_name(schema.name.as_str());
    let mut out = "pub struct ".to_owned();
    out.append(map_type.as_str());
    out.append(" {\n    pub values: std::collections::HashMap<");
    out.append(key_type.as_str());
    out.append(", ");
    out.append(schema.name.as_str());
    out.append(">,\n}\n");
    out
}

/// Writes a store operation called `method` around the given arms.
pub fn store_method_source(method: &str, name: &str, cases: &Vec<String>) -> (out: String)
    ensures
        out@ == store_method_text(method@, name@, texts(cases@)),
{
    let arms = join_all(cases, ",\n            ");
    let mut out = "\n    pub fn ".to_owned();
    out.append(method);
    out.append("(&mut self, value: ");
    out.append(name);
    out.append(") -> Option<");
    out.append(name);
    out.append("> {\n        match value {\n            ");
    out.append(arms.as_str());
    out.append("\n        }\n    }\n");
    out
}

/// Writes the plain lookup.
pub fn get_method_source(name: &str, key_type: &str) -> (out: String)
    ensures
        out@ == get_method_text(name@, key_type@),
{
    let mut out = "\n    pub fn get(&self, key: ".to_owned();
    out.append(key_type);
    out.append(") -> Option<&");
    out.append(name);
    out.append("> {\n        self.values.get(&key)\n    }\n");
    out
}

/// Writes the default lookup around the given arms.
pub fn get_or_default_method_source(name: &str, key_type: &str, cases: &Vec<String>) -> (out:
    String)
    ensures
        out@ == get_or_default_method_text(name@, key_type@, texts(cases@)),
{
    let arms = join_all(cases, ",\n                ");
    let mut out = "\n    pub fn get_or_default(&self, key: ".to_owned();
    out.append(key_type);
    out.append(") -> ");
    out.append(name);
    out.append(
        " {\n        match self.values.get(&key) {\n            Some(value) => value.clone(),\n            None => match key {\n                ",
    );
    out.append(arms.as_str());
    out.append("\n            },\n        }\n    }\n");
    out
}

/// Writes the block of operations on the container.
pub fn operations_source(schema: &Schema) -> (out: String)
    ensures
        out@ == operations_text(schema@),
{
    let name = schema.name.as_str();
    let key_type = make_key_type_name(name);
    let map_type = make_map_type_name(name);
    let insert_cases = generate_insert_cases(schema);
    let get_default_cases = generate_get_default_cases(schema);
    let getter_functions = generate_getter_functions(schema);
    let setter_functions = generate_setter_functions(schema);

    let insert = store_method_source("insert", name, &insert_cases);
    let get = get_method_source(name, key_type.as_str());
    let get_or_default = get_or_default_method_source(name, key_type.as_str(), &get_default_cases);
    let set = store_method_source("set", name, &insert_cases);
    let getters = join_all(&getter_functions, "");
    let setters = join_all(&setter_functions, "");

    let mut out = "impl ".to_owned();
    out.append(map_type.as_str());
    out.append(" {\n");
    out.append("    pub fn new() -> Self {\n        Self {\n            values: std::collections::HashMap::new(),\n        }\n    }\n");
    out.append(insert.as_str());
    out.append(get.as_str());
    out.append(get_or_default.as_str());
    out.append(set.as_str());
    out.append(getters.as_str());
    out.append(setters.as_str());
    out.append("}\n");
    out
}

/// Writes the whole unit for a schema: key type, container type and
/// operations, separated by blank lines.
pub fn assemble(schema: &Schema) -> (out: String)
    ensures
        out@ == expansion(schema@),
{
    let mut out = key_type_source(schema);
    let container_type = container_type_source(schema);
    let operations = operations_source(schema);
    out.append("\n");
    out.append(container_type.as_str());
    out.append("\n");
    out.append(operations.as_str());
    out
}

/// Derives the key type, the container type and the container's operations
/// for the described union.
///
/// Succeeds exactly when every variant of `decl` carries one unnamed field,
/// and then returns the whole unit for the schema of `decl`. Otherwise
/// nothing is emitted: the error names the first variant that breaks a
/// shape rule, and the rule.
pub fn derive_enum2map(decl: &TypeDescription) -> (out: Result<String, SchemaError>)
    ensures
        out is Ok <==> conforms(decl@),
        match out {
            Ok(source) => source@ == expansion(schema_of(decl@)),
            Err(error) => reports(decl@, error@),
        },
{
    match extract_schema(decl) {
        Ok(schema) => Ok(assemble(&schema)),
        Err(error) => Err(error),
    }
}

} // verus!
