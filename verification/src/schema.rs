//! The description of a tagged union and the schema extracted from it.
//!
//! A [`TypeDescription`] is the union as its declaration states it: a name
//! and an ordered list of variants, each with its field list. The extractor
//! accepts a description only if every variant carries exactly one unnamed
//! field, and then yields the [`Schema`]: the ordered list of variant names
//! with their payload types.

use crate::text::texts;
use vstd::prelude::*;
use vstd::string::*;

verus! {

/// The field list of one variant. Every field is represented by the text
/// of its type.
#[derive(Debug, Clone, PartialEq, Eq)]
pub enum Fields {
    /// Labelled fields, as in `V { a: A, b: B }`: the field types in order.
    Named(Vec<String>),
    /// Positional fields, as in `V(A, B)`: the field types in order.
    Unnamed(Vec<String>),
    /// No field list at all, as in `V`.
    Unit,
}

/// One variant of a described union.
#[derive(Debug, Clone, PartialEq, Eq)]
pub struct Variant {
    pub name: String,
    pub fields: Fields,
}

/// A tagged union as declared: its name and its variants in declaration
/// order.
#[derive(Debug, Clone, PartialEq, Eq)]
pub struct TypeDescription {
    pub name: String,
    pub variants: Vec<Variant>,
}

/// A variant that passed extraction: its name and the type of its payload.
#[derive(Debug, Clone, PartialEq, Eq)]
pub struct VariantDescriptor {
    pub name: String,
    pub payload_type: String,
}

/// The union's name and its variant descriptors in declaration order.
#[derive(Debug, Clone, PartialEq, Eq)]
pub struct Schema {
    pub name: String,
    pub variants: Vec<VariantDescriptor>,
}

/// The shape rule that a variant breaks.
#[derive(Debug, Clone, Copy, PartialEq, Eq)]
pub enum ShapeViolation {
    /// The variant has no field or more than one.
    FieldCount,
    /// The variant's fields are labelled.
    NamedFields,
}

/// Why extraction failed: the first variant that breaks a shape rule, and
/// the rule.
#[derive(Debug, Clone, PartialEq, Eq)]
pub struct SchemaError {
    /// Position of the offending variant in the description.
    pub index: usize,
    /// Name of the offending variant.
    pub variant: String,
    pub violation: ShapeViolation,
}

/// Mathematical form of [`Fields`].
pub enum FieldsView {
    Named(Seq<Seq<char>>),
    Unnamed(Seq<Seq<char>>),
    Unit,
}

/// Mathematical form of [`Variant`].
pub struct VariantView {
    pub name: Seq<char>,
    pub fields: FieldsView,
}

/// Mathematical form of [`TypeDescription`].
pub struct TypeDescriptionView {
    pub name: Seq<char>,
    pub variants: Seq<VariantView>,
}

/// Mathematical form of [`VariantDescriptor`].
pub struct VariantDescriptorView {
    pub name: Seq<char>,
    pub payload_type: Seq<char>,
}

/// Mathematical form of [`Schema`].
pub struct SchemaView {
    pub name: Seq<char>,
    pub variants: Seq<VariantDescriptorView>,
}

/// Mathematical form of [`SchemaError`].
pub struct SchemaErrorView {
    pub index: int,
    pub variant: Seq<char>,
    pub violation: ShapeViolation,
}

impl View for Fields {
    type V = FieldsView;

    open spec fn view(&self) -> FieldsView {
        match *self {
            Fields::Named(types) => FieldsView::Named(texts(types@)),
            Fields::Unnamed(types) => FieldsView::Unnamed(texts(types@)),
            Fields::Unit => FieldsView::Unit,
        }
    }
}

impl View for Variant {
    type V = VariantView;

    open spec fn view(&self) -> VariantView {
        VariantView { name: self.name@, fields: self.fields@ }
    }
}

impl View for TypeDescription {
    type V = TypeDescriptionView;

    open spec fn view(&self) -> TypeDescriptionView {
        TypeDescriptionView {
            name: self.name@,
            variants: Seq::new(self.variants@.len(), |i: int| self.variants@[i]@),
        }
    }
}

impl View for VariantDescriptor {
    type V = VariantDescriptorView;

    open spec fn view(&self) -> VariantDescriptorView {
        VariantDescriptorView { name: self.name@, payload_type: self.payload_type@ }
    }
}

impl View for Schema {
    type V = SchemaView;

    open spec fn view(&self) -> SchemaView {
        SchemaView {
            name: self.name@,
            variants: Seq::new(self.variants@.len(), |i: int| self.variants@[i]@),
        }
    }
}

impl View for SchemaError {
    type V = SchemaErrorView;

    open spec fn view(&self) -> SchemaErrorView {
        SchemaErrorView {
            index: self.index as int,
            variant: self.variant@,
            violation: self.violation,
        }
    }
}

/// The words that state a shape rule as broken.
pub open spec fn rule_text(violation: ShapeViolation) -> Seq<char> {
    match violation {
        ShapeViolation::FieldCount => "has zero or multiple fields"@,
        ShapeViolation::NamedFields => "uses named fields"@,
    }
}

/// The diagnostic for a failed extraction: it names the offending variant
/// and the rule that the variant breaks.
pub open spec fn message_text(error: SchemaErrorView) -> Seq<char> {
    "variant `"@ + error.variant + "` "@ + rule_text(error.violation)
}

impl SchemaError {
    /// The diagnostic as text.
    pub fn message(&self) -> (out: String)
        ensures
            out@ == message_text(self@),
    {
        let mut out = "variant `".to_owned();
        out.append(self.variant.as_str());
        out.append("` ");
        match self.violation {
            ShapeViolation::FieldCount => out.append("has zero or multiple fields"),
            ShapeViolation::NamedFields => out.append("uses named fields"),
        }
        out
    }
}

/// The shape rule that a field list breaks, if any. Labelled fields break
/// the rule against names however many they are; otherwise the list must
/// hold exactly one field.
pub open spec fn violation(fields: FieldsView) -> Option<ShapeViolation> {
    match fields {
        FieldsView::Named(_) => Some(ShapeViolation::NamedFields),
        FieldsView::Unnamed(types) => if types.len() == 1 {
            None
        } else {
            Some(ShapeViolation::FieldCount)
        },
        FieldsView::Unit => Some(ShapeViolation::FieldCount),
    }
}

/// Every variant of `decl` carries exactly one unnamed field.
pub open spec fn conforms(decl: TypeDescriptionView) -> bool {
    forall|i: int|
        0 <= i < decl.variants.len() ==> violation(#[trigger] decl.variants[i].fields) is None
}

/// The payload type of a variant that carries exactly one unnamed field.
pub open spec fn payload_type_of(fields: FieldsView) -> Seq<char>
    recommends
        violation(fields) is None,
{
    fields->Unnamed_0[0]
}

/// The descriptor of a conforming variant.
pub open spec fn descriptor_of(variant: VariantView) -> VariantDescriptorView
    recommends
        violation(variant.fields) is None,
{
    VariantDescriptorView { name: variant.name, payload_type: payload_type_of(variant.fields) }
}

/// The schema of a conforming description: same name, one descriptor per
/// variant, same order.
pub open spec fn schema_of(decl: TypeDescriptionView) -> SchemaView
    recommends
        conforms(decl),
{
    SchemaView {
        name: decl.name,
        variants: Seq::new(decl.variants.len(), |i: int| descriptor_of(decl.variants[i])),
    }
}

/// Variant `i` of `decl` breaks a shape rule and no earlier variant does.
pub open spec fn is_first_offender(decl: TypeDescriptionView, i: int) -> bool {
    &&& 0 <= i < decl.variants.len()
    &&& violation(decl.variants[i].fields) is Some
    &&& forall|j: int| 0 <= j < i ==> violation(#[trigger] decl.variants[j].fields) is None
}

/// `error` is the failure that extraction reports for `decl`: it points
/// at the first variant that breaks a shape rule, names that variant and
/// states the rule that it breaks.
pub open spec fn reports(decl: TypeDescriptionView, error: SchemaErrorView) -> bool {
    &&& is_first_offender(decl, error.index)
    &&& error.variant == decl.variants[error.index].name
    &&& Some(error.violation) == violation(decl.variants[error.index].fields)
}

/// At most one variant is the first offender.
pub proof fn lemma_first_offender_unique(decl: TypeDescriptionView, i: int, j: int)
    requires
        is_first_offender(decl, i),
        is_first_offender(decl, j),
    ensures
        i == j,
{
    if i < j {
        assert(violation(decl.variants[i].fields) is None);
    } else if j < i {
        assert(violation(decl.variants[j].fields) is None);
    }
}

/// A description has at most one failure to report, and none if it
/// conforms.
pub proof fn lemma_report_unique(
    decl: TypeDescriptionView,
    first: SchemaErrorView,
    second: SchemaErrorView,
)
    requires
        reports(decl, first),
        reports(decl, second),
    ensures
        first == second,
        !conforms(decl),
{
    lemma_first_offender_unique(decl, first.index, second.index);
}

/// Checks one field list against the shape rules and hands out the payload
/// type where it conforms.
pub fn check_fields(fields: &Fields) -> (out: Result<String, ShapeViolation>)
    ensures
        out is Ok <==> violation(fields@) is None,
        match out {
            Ok(payload_type) => payload_type@ == payload_type_of(fields@),
            Err(broken) => violation(fields@) == Some(broken),
        },
{
    match fields {
        Fields::Named(_) => Err(ShapeViolation::NamedFields),
        Fields::Unnamed(types) => {
            if types.len() == 1 {
                Ok(types[0].clone())
            } else {
                Err(ShapeViolation::FieldCount)
            }
        },
        Fields::Unit => Err(ShapeViolation::FieldCount),
    }
}

/// Extracts the schema of `decl`.
///
/// Succeeds exactly when every variant carries one unnamed field; the
/// schema then lists the variants in declaration order. Otherwise the error
/// names the first variant that breaks a rule, and the rule it breaks.
pub fn extract_schema(decl: &TypeDescription) -> (out: Result<Schema, SchemaError>)
    ensures
        out is Ok <==> conforms(decl@),
        match out {
            Ok(schema) => schema@ == schema_of(decl@),
            Err(error) => reports(decl@, error@),
        },
{
    let mut variants: Vec<VariantDescriptor> = Vec::new();
    let mut i: usize = 0;
    while i < decl.variants.len()
        invariant
            i <= decl.variants.len(),
            variants.len() == i,
            forall|j: int| 0 <= j < i ==> violation(#[trigger] decl@.variants[j].fields) is None,
            forall|j: int| 0 <= j < i ==> (#[trigger] variants@[j])@ == descriptor_of(decl@.variants[j]),
        decreases decl.variants.len() - i,
    {
        let variant = &decl.variants[i];
        assert(variant@ == decl@.variants[i as int]);
        match check_fields(&variant.fields) {
            Ok(payload_type) => {
                variants.push(VariantDescriptor { name: variant.name.clone(), payload_type });
            },
            Err(broken) => {
                let error = SchemaError { index: i, variant: variant.name.clone(), violation: broken };
                assert(is_first_offender(decl@, i as int));
                return Err(error);
            },
        }
        i += 1;
    }
    let schema = Schema { name: decl.name.clone(), variants };
    proof {
        assert(schema@.variants =~= schema_of(decl@).variants);
    }
    Ok(schema)
}

} // verus!
