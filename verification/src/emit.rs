//! The emitters: from a schema to the source text of the key type, the
//! container type and the container's operations.
//!
//! Every emitter has a specification function that spells out the text it
//! writes. Names that depend on the lowercase form of a variant's name take
//! that form as an argument, so that each template is stated exactly.

use crate::schema::{Schema, SchemaView};
use crate::text::{lowercase, lowercase_of, texts};
use vstd::prelude::*;
use vstd::string::*;

verus! {

/// Name of the key type of the union called `name`.
pub open spec fn key_type_name(name: Seq<char>) -> Seq<char> {
    name + "Key"@
}

/// Name of the container type of the union called `name`.
pub open spec fn map_type_name(name: Seq<char>) -> Seq<char> {
    name + "Map"@
}

/// Name of the getter of the variant whose lowercase name is `lowered`.
pub open spec fn getter_name(lowered: Seq<char>) -> Seq<char> {
    "get_"@ + lowered
}

/// Name of the setter of the variant whose lowercase name is `lowered`.
pub open spec fn setter_name(lowered: Seq<char>) -> Seq<char> {
    "set_"@ + lowered
}

/// One arm of the store operations: a value of `variant` goes under the
/// key of `variant`, and the previous value under that key comes back.
pub open spec fn insert_case(name: Seq<char>, key_type: Seq<char>, variant: Seq<char>) -> Seq<
    char,
> {
    name + "::"@ + variant + "(val) => { self.values.insert("@ + key_type + "::"@ + variant
        + ", "@ + name + "::"@ + variant + "(val)) }"@
}

/// One arm of the default lookup: the key of `variant` gives a value of
/// `variant` whose payload is the payload type's default.
pub open spec fn get_default_case(name: Seq<char>, key_type: Seq<char>, variant: Seq<char>) -> Seq<
    char,
> {
    key_type + "::"@ + variant + " => "@ + name + "::"@ + variant + "(Default::default())"@
}

/// The getter of one variant: a copy of the stored payload, the payload
/// type's default where nothing is stored, and an abort where the value
/// stored under the variant's key belongs to another variant.
pub open spec fn getter_function(
    name: Seq<char>,
    key_type: Seq<char>,
    variant: Seq<char>,
    lowered: Seq<char>,
    payload_type: Seq<char>,
) -> Seq<char> {
    "\n    pub fn "@ + getter_name(lowered) + "(&self) -> "@ + payload_type
        + " {\n        match self.values.get(&"@ + key_type + "::"@ + variant
        + ") {\n            Some("@ + name + "::"@ + variant
        + "(value)) => value.clone(),\n            None => Default::default(),\n            _ => panic!(\"Unexpected condition: Didn't find type {} for {}\", stringify!("@
        + payload_type + "), stringify!("@ + variant + "))\n        }\n    }\n"@
}

/// The setter of one variant: wraps the payload in the variant and stores
/// it under the variant's key, returning nothing.
pub open spec fn setter_function(
    name: Seq<char>,
    key_type: Seq<char>,
    variant: Seq<char>,
    lowered: Seq<char>,
    payload_type: Seq<char>,
) -> Seq<char> {
    "\n    pub fn "@ + setter_name(lowered) + "(&mut self, val: "@ + payload_type
        + ") {\n        self.values.insert("@ + key_type + "::"@ + variant + ", "@ + name + "::"@
        + variant + "(val));\n    }\n"@
}

/// The bare tags of the key type: the variant names in schema order.
pub open spec fn variant_tags(schema: SchemaView) -> Seq<Seq<char>> {
    Seq::new(schema.variants.len(), |i: int| schema.variants[i].name)
}

/// The arms of the store operations in schema order.
pub open spec fn insert_cases(schema: SchemaView) -> Seq<Seq<char>> {
    Seq::new(
        schema.variants.len(),
        |i: int| insert_case(schema.name, key_type_name(schema.name), schema.variants[i].name),
    )
}

/// The arms of the default lookup in schema order.
pub open spec fn get_default_cases(schema: SchemaView) -> Seq<Seq<char>> {
    Seq::new(
        schema.variants.len(),
        |i: int| get_default_case(schema.name, key_type_name(schema.name), schema.variants[i].name),
    )
}

/// The getters in schema order.
pub open spec fn getter_functions(schema: SchemaView) -> Seq<Seq<char>> {
    Seq::new(
        schema.variants.len(),
        |i: int|
            getter_function(
                schema.name,
                key_type_name(schema.name),
                schema.variants[i].name,
                lowercase_of(schema.variants[i].name),
                schema.variants[i].payload_type,
            ),
    )
}

/// The setters in schema order.
pub open spec fn setter_functions(schema: SchemaView) -> Seq<Seq<char>> {
    Seq::new(
        schema.variants.len(),
        |i: int|
            setter_function(
                schema.name,
                key_type_name(schema.name),
                schema.variants[i].name,
                lowercase_of(schema.variants[i].name),
                schema.variants[i].payload_type,
            ),
    )
}

/// Builds the name of the key type.
pub fn make_key_type_name(name: &str) -> (out: String)
    ensures
        out@ == key_type_name(name@),
{
    let mut out = name.to_owned();
    out.append("Key");
    out
}

/// Builds the name of the container type.
pub fn make_map_type_name(name: &str) -> (out: String)
    ensures
        out@ == map_type_name(name@),
{
    let mut out = name.to_owned();
    out.append("Map");
    out
}

/// Builds a getter's name from the lowercase form of the variant's name.
pub fn make_getter_name(lowered: &str) -> (out: String)
    ensures
        out@ == getter_name(lowered@),
{
    let mut out = "get_".to_owned();
    out.append(lowered);
    out
}

/// Builds a setter's name from the lowercase form of the variant's name.
pub fn make_setter_name(lowered: &str) -> (out: String)
    ensures
        out@ == setter_name(lowered@),
{
    let mut out = "set_".to_owned();
    out.append(lowered);
    out
}

/// Writes one arm of the store operations.
pub fn make_insert_case(name: &str, key_type: &str, variant: &str) -> (out: String)
    ensures
        out@ == insert_case(name@, key_type@, variant@),
{
    let mut out = name.to_owned();
    out.append("::");
    out.append(variant);
    out.append("(val) => { self.values.insert(");
    out.append(key_type);
    out.append("::");
    out.append(variant);
    out.append(", ");
    out.append(name);
    out.append("::");
    out.append(variant);
    out.append("(val)) }");
    out
}

/// Writes one arm of the default lookup.
pub fn make_get_default_case(name: &str, key_type: &str, variant: &str) -> (out: String)
    ensures
        out@ == get_default_case(name@, key_type@, variant@),
{
    let mut out = key_type.to_owned();
    out.append("::");
    out.append(variant);
    out.append(" => ");
    out.append(name);
    out.append("::");
    out.append(variant);
    out.append("(Default::default())");
    out
}

/// Writes the getter of one variant, given the lowercase form of the
/// variant's name.
pub fn make_getter_function(
    name: &str,
    key_type: &str,
    variant: &str,
    lowered: &str,
    payload_type: &str,
) -> (out: String)
    ensures
        out@ == getter_function(name@, key_type@, variant@, lowered@, payload_type@),
{
    let method = make_getter_name(lowered);
    let mut out = "\n    pub fn ".to_owned();
    out.append(method.as_str());
    out.append("(&self) -> ");
    out.append(payload_type);
    out.append(" {\n        match self.values.get(&");
    out.append(key_type);
    out.append("::");
    out.append(variant);
    out.append(") {\n            Some(");
    out.append(name);
    out.append("::");
    out.append(variant);
    out.append(
        "(value)) => value.clone(),\n            None => Default::default(),\n            _ => panic!(\"Unexpected condition: Didn't find type {} for {}\", stringify!(",
    );
    out.append(payload_type);
    out.append("), stringify!(");
    out.append(variant);
    out.append("))\n        }\n    }\n");
    out
}

/// Writes the setter of one variant, given the lowercase form of the
/// variant's name.
pub fn make_setter_function(
    name: &str,
    key_type: &str,
    variant: &str,
    lowered: &str,
    payload_type: &str,
) -> (out: String)
    ensures
        out@ == setter_function(name@, key_type@, variant@, lowered@, payload_type@),
{
    let method = make_setter_name(lowered);
    let mut out = "\n    pub fn ".to_owned();
    out.append(method.as_str());
    out.append("(&mut self, val: ");
    out.append(payload_type);
    out.append(") {\n        self.values.insert(");
    out.append(key_type);
    out.append("::");
    out.append(variant);
    out.append(", ");
    out.append(name);
    out.append("::");
    out.append(variant);
    out.append("(val));\n    }\n");
    out
}

/// Lists the bare tags of the key type: one per variant, in schema order,
/// each the variant's name without its payload.
pub fn generate_variants(schema: &Schema) -> (out: Vec<String>)
    ensures
        texts(out@) == variant_tags(schema@),
{
    let mut out: Vec<String> = Vec::new();
    let mut i: usize = 0;
    while i < schema.variants.len()
        invariant
            i <= schema.variants.len(),
            out.len() == i,
            forall|j: int| 0 <= j < i ==> (#[trigger] out@[j])@ == schema@.variants[j].name,
        decreases schema.variants.len() - i,
    {
        out.push(schema.variants[i].name.clone());
        i += 1;
    }
    assert(texts(out@) =~= variant_tags(schema@));
    out
}

/// Writes the arms of the store operations: one per variant, in schema
/// order.
pub fn generate_insert_cases(schema: &Schema) -> (out: Vec<String>)
    ensures
        texts(out@) == insert_cases(schema@),
{
    let key_type = make_key_type_name(schema.name.as_str());
    let mut out: Vec<String> = Vec::new();
    let mut i: usize = 0;
    while i < schema.variants.len()
        invariant
            i <= schema.variants.len(),
            out.len() == i,
            key_type@ == key_type_name(schema@.name),
            forall|j: int|
                0 <= j < i ==> (#[trigger] out@[j])@ == insert_case(
                    schema@.name,
                    key_type_name(schema@.name),
                    schema@.variants[j].name,
                ),
        decreases schema.variants.len() - i,
    {
        let variant = &schema.variants[i];
        out.push(make_insert_case(schema.name.as_str(), key_type.as_str(), variant.name.as_str()));
        i += 1;
    }
    assert(texts(out@) =~= insert_cases(schema@));
    out
}

/// Writes the arms of the default lookup: one per variant, in schema order.
pub fn generate_get_default_cases(schema: &Schema) -> (out: Vec<String>)
    ensures
        texts(out@) == get_default_cases(schema@),
{
    let key_type = make_key_type_name(schema.name.as_str());
    let mut out: Vec<String> = Vec::new();
    let mut i: usize = 0;
    while i < schema.variants.len()
        invariant
            i <= schema.variants.len(),
            out.len() == i,
            key_type@ == key_type_name(schema@.name),
            forall|j: int|
                0 <= j < i ==> (#[trigger] out@[j])@ == get_default_case(
                    schema@.name,
                    key_type_name(schema@.name),
                    schema@.variants[j].name,
                ),
        decreases schema.variants.len() - i,
    {
        let variant = &schema.variants[i];
        out.push(
            make_get_default_case(schema.name.as_str(), key_type.as_str(), variant.name.as_str()),
        );
        i += 1;
    }
    assert(texts(out@) =~= get_default_cases(schema@));
    out
}

/// Writes the getters: one per variant, in schema order, each named after
/// the lowercase form of its variant's name.
pub fn generate_getter_functions(schema: &Schema) -> (out: Vec<String>)
    ensures
        texts(out@) == getter_functions(schema@),
{
    let key_type = make_key_type_name(schema.name.as_str());
    let mut out: Vec<String> = Vec::new();
    let mut i: usize = 0;
    while i < schema.variants.len()
        invariant
            i <= schema.variants.len(),
            out.len() == i,
            key_type@ == key_type_name(schema@.name),
            forall|j: int|
                0 <= j < i ==> (#[trigger] out@[j])@ == getter_function(
                    schema@.name,
                    key_type_name(schema@.name),
                    schema@.variants[j].name,
                    lowercase_of(schema@.variants[j].name),
                    schema@.variants[j].payload_type,
                ),
        decreases schema.variants.len() - i,
    {
        let variant = &schema.variants[i];
        let lowered = lowercase(variant.name.as_str());
        out.push(
            make_getter_function(
                schema.name.as_str(),
                key_type.as_str(),
                variant.name.as_str(),
                lowered.as_str(),
                variant.payload_type.as_str(),
            ),
        );
        i += 1;
    }
    assert(texts(out@) =~= getter_functions(schema@));
    out
}

/// Writes the setters: one per variant, in schema order, each named after
/// the lowercase form of its variant's name.
pub fn generate_setter_functions(schema: &Schema) -> (out: Vec<String>)
    ensures
        texts(out@) == setter_functions(schema@),
{
    let key_type = make_key_type_name(schema.name.as_str());
    let mut out: Vec<String> = Vec::new();
    let mut i: usize = 0;
    while i < schema.variants.len()
        invariant
            i <= schema.variants.len(),
            out.len() == i,
            key_type@ == key_type_name(schema@.name),
            forall|j: int|
                0 <= j < i ==> (#[trigger] out@[j])@ == setter_function(
                    schema@.name,
                    key_type_name(schema@.name),
                    schema@.variants[j].name,
                    lowercase_of(schema@.variants[j].name),
                    schema@.variants[j].payload_type,
                ),
        decreases schema.variants.len() - i,
    {
        let variant = &schema.variants[i];
        let lowered = lowercase(variant.name.as_str());
        out.push(
            make_setter_function(
                schema.name.as_str(),
                key_type.as_str(),
                variant.name.as_str(),
                lowered.as_str(),
                variant.payload_type.as_str(),
            ),
        );
        i += 1;
    }
    assert(texts(out@) =~= setter_functions(schema@));
    out
}

} // verus!
