//! The accounting routine of a composite type, generated from its shape.

use crate::derive::bounds::{add_trait_bounds, bound_added, is_ignored};
use crate::derive::error::DeriveError;
use crate::derive::ignored::{
    attributes_well_formed, extract_ignored_generics_list, idents, ignored_generics,
};
use crate::derive::shape::{
    Data, DeriveInput, Field, FieldOverride, FieldOverrideView, Fields, GenericParam, Variant,
};
use vstd::prelude::*;

verus! {

/// One step of a measurement. The steps of a value are taken in order, and the
/// bytes they yield are added up.
#[derive(Debug, Clone, Copy, PartialEq, Eq, Structural)]
pub enum Step {
    /// Add a fixed number of bytes. No field is read and the tracker is left
    /// alone.
    Fixed {
        /// The bytes to add.
        bytes: usize,
    },
    /// Add what the function that the field's attribute names computes from
    /// the field. The tracker is left alone.
    Computed {
        /// The field, by its position in the declaration.
        field: usize,
    },
    /// Add what the field's own implementation measures with the tracker, and
    /// go on with the tracker as that measurement leaves it.
    Recurse {
        /// The field, by its position in the declaration.
        field: usize,
    },
}

/// What the generated implementation does with a value.
#[derive(Debug, PartialEq, Eq)]
pub enum ImplBody {
    /// Nothing: a value of the type owns nothing on the heap, and the tracker
    /// is handed back untouched.
    Empty,
    /// The steps for a struct.
    Struct(Vec<Step>),
    /// For an enum, the steps for each variant, in the order of the variants.
    /// Only the steps of the variant that a value is in are taken.
    Enum(Vec<Vec<Step>>),
}

/// The implementation that is generated for one type definition.
#[derive(Debug, PartialEq, Eq)]
pub struct GetSizeImpl {
    /// The name of the type.
    pub ident: String,
    /// The generic parameters of the implementation: those of the definition,
    /// with the capability bound where it is needed.
    pub generics: Vec<GenericParam>,
    /// What a measurement does.
    pub body: ImplBody,
}

/// The steps that the field at `index` contributes: one, or none where the
/// field is ignored.
pub open spec fn field_steps(field: Field, index: int) -> Seq<Step> {
    match field.attribute.field_override_spec() {
        FieldOverrideView::Recurse => seq![Step::Recurse { field: index as usize }],
        FieldOverrideView::FixedSize(bytes) => seq![Step::Fixed { bytes }],
        FieldOverrideView::ComputedSize(_) => seq![Step::Computed { field: index as usize }],
        FieldOverrideView::Ignored => Seq::empty(),
    }
}

/// The steps for the first `count` of `fields`, in the order of their
/// declaration.
pub open spec fn steps_through(fields: Seq<Field>, count: int) -> Seq<Step> {
    Seq::new(count as nat, |index: int| field_steps(fields[index], index)).flatten()
}

/// The steps for `fields`, in the order of their declaration.
pub open spec fn steps_of(fields: Seq<Field>) -> Seq<Step> {
    steps_through(fields, fields.len() as int)
}

/// Whether the type of `field` mentions a type parameter that the definition
/// exempts from the capability bound.
pub open spec fn mentions_ignored(field: Field, ignored: Seq<Seq<char>>) -> bool {
    exists|k: int|
        0 <= k < field.type_params@.len() && ignored.contains(#[trigger] field.type_params@[k]@)
}

/// Why the field at position `index` of the variant at position `variant` is
/// rejected, if it is: its overrides conflict, or it is measured by its own
/// implementation though nothing says that its type has one.
pub open spec fn field_error(
    field: Field,
    ignored: Seq<Seq<char>>,
    variant: usize,
    index: usize,
) -> Option<DeriveError> {
    if field.attribute.conflicts() {
        Some(DeriveError::ConflictingOverrides { variant, field: index })
    } else if field.attribute.field_override_spec() is Recurse && mentions_ignored(field, ignored) {
        Some(DeriveError::RecurseOnIgnoredGeneric { variant, field: index })
    } else {
        None
    }
}

/// Why the first of the first `count` fields that is rejected is rejected, if
/// any is.
pub open spec fn fields_error(
    fields: Seq<Field>,
    ignored: Seq<Seq<char>>,
    variant: usize,
    count: int,
) -> Option<DeriveError>
    decreases count,
{
    if count <= 0 {
        None
    } else {
        match fields_error(fields, ignored, variant, count - 1) {
            Some(error) => Some(error),
            None => field_error(fields[count - 1], ignored, variant, (count - 1) as usize),
        }
    }
}

/// Why the first of the first `count` variants that holds a rejected field is
/// rejected, if any is.
pub open spec fn variants_error(
    variants: Seq<Variant>,
    ignored: Seq<Seq<char>>,
    count: int,
) -> Option<DeriveError>
    decreases count,
{
    if count <= 0 {
        None
    } else {
        match variants_error(variants, ignored, count - 1) {
            Some(error) => Some(error),
            None => {
                let fields = variants[count - 1].fields.list();
                fields_error(fields, ignored, (count - 1) as usize, fields.len() as int)
            },
        }
    }
}

/// Why a definition is rejected, if it is. A `get_size` attribute that cannot
/// be read comes first; then a union; then the first field, in the order of the
/// declaration, that is rejected.
pub open spec fn derive_error(input: DeriveInput) -> Option<DeriveError> {
    if !attributes_well_formed(input.attrs@) {
        Some(DeriveError::MalformedIgnoreList)
    } else {
        let ignored = ignored_generics(input.attrs@);
        match input.data {
            Data::Union => Some(DeriveError::UnsupportedUnion),
            Data::Struct(fields) => fields_error(
                fields.list(),
                ignored,
                0,
                fields.list().len() as int,
            ),
            Data::Enum(variants) => variants_error(variants@, ignored, variants@.len() as int),
        }
    }
}

/// Whether `body` is what a measurement of a value of the type does: nothing
/// for a type without fields or variants, and else the steps of the fields.
pub open spec fn body_of(data: Data, body: ImplBody) -> bool {
    match data {
        Data::Struct(fields) => if fields.list().len() == 0 {
            body is Empty
        } else {
            body is Struct && body->Struct_0@ == steps_of(fields.list())
        },
        Data::Enum(variants) => if variants@.len() == 0 {
            body is Empty
        } else {
            &&& body is Enum
            &&& body->Enum_0@.len() == variants@.len()
            &&& forall|i: int|
                0 <= i < variants@.len() ==> (#[trigger] body->Enum_0@[i])@ == steps_of(
                    variants@[i].fields.list(),
                )
        },
        Data::Union => false,
    }
}

/// No fields, no steps.
pub proof fn lemma_steps_through_none(fields: Seq<Field>)
    ensures
        steps_through(fields, 0) == Seq::<Step>::empty(),
{
}

/// The steps for one more field are the steps so far and the steps of that
/// field.
pub proof fn lemma_steps_through_next(fields: Seq<Field>, count: int)
    requires
        0 <= count < fields.len(),
    ensures
        steps_through(fields, count + 1) == steps_through(fields, count) + field_steps(
            fields[count],
            count,
        ),
{
    let f = |index: int| field_steps(fields[index], index);
    let shorter = Seq::new(count as nat, f);
    assert(Seq::new((count + 1) as nat, f) == shorter.push(f(count)));
    shorter.lemma_flatten_push(f(count));
}

/// Whether the type of a field mentions a type parameter that the definition
/// exempts.
fn field_mentions_ignored(field: &Field, ignored: &Vec<String>) -> (found: bool)
    ensures
        found == mentions_ignored(*field, idents(ignored@)),
{
    for k in 0..field.type_params.len()
        invariant
            forall|j: int|
                0 <= j < k ==> !idents(ignored@).contains(#[trigger] field.type_params@[j]@),
    {
        if is_ignored(&field.type_params[k], ignored) {
            return true;
        }
    }
    false
}

/// The steps for the fields of a struct or of one variant, or the reason for
/// which the first rejected field is rejected.
fn generate_steps(fields: &Fields, ignored: &Vec<String>, variant: usize) -> (result: Result<
    Vec<Step>,
    DeriveError,
>)
    ensures
        match fields_error(fields.list(), idents(ignored@), variant, fields.list().len() as int) {
            Some(error) => result == Err::<Vec<Step>, DeriveError>(error),
            None => result is Ok && result->Ok_0@ == steps_of(fields.list()),
        },
{
    let list = match fields {
        Fields::Named(list) => list,
        Fields::Unnamed(list) => list,
        Fields::Unit => {
            assert(steps_of(fields.list()) == Seq::<Step>::empty());
            return Ok(Vec::new());
        },
    };
    let mut cmds: Vec<Step> = Vec::with_capacity(list.len());
    assert(steps_through(list@, 0) == Seq::<Step>::empty());
    for i in 0..list.len()
        invariant
            list@ == fields.list(),
            fields_error(list@, idents(ignored@), variant, i as int) is None,
            cmds@ == steps_through(list@, i as int),
    {
        let field = &list[i];
        proof {
            lemma_steps_through_next(list@, i as int);
        }
        // Parse all relevant attributes.
        match field.attribute.field_override() {
            None => {
                proof {
                    lemma_fields_error_stays(list@, idents(ignored@), variant, i + 1, list@.len() as int);
                }
                return Err(DeriveError::ConflictingOverrides { variant, field: i });
            },
            Some(FieldOverride::FixedSize(bytes)) => {
                cmds.push(Step::Fixed { bytes });
            },
            Some(FieldOverride::ComputedSize(_)) => {
                cmds.push(Step::Computed { field: i });
            },
            Some(FieldOverride::Ignored) => {},
            Some(FieldOverride::Recurse) => {
                if field_mentions_ignored(field, ignored) {
                    proof {
                        lemma_fields_error_stays(list@, idents(ignored@), variant, i + 1, list@.len() as int);
                    }
                    return Err(DeriveError::RecurseOnIgnoredGeneric { variant, field: i });
                }
                cmds.push(Step::Recurse { field: i });
            },
        }
    }
    Ok(cmds)
}

/// Once a field is rejected, looking at more fields finds the same one.
proof fn lemma_fields_error_stays(
    fields: Seq<Field>,
    ignored: Seq<Seq<char>>,
    variant: usize,
    count: int,
    more: int,
)
    requires
        count <= more,
        fields_error(fields, ignored, variant, count) is Some,
    ensures
        fields_error(fields, ignored, variant, more) == fields_error(
            fields,
            ignored,
            variant,
            count,
        ),
    decreases more - count,
{
    if count < more {
        lemma_fields_error_stays(fields, ignored, variant, count, more - 1);
    }
}

/// Once a variant is rejected, looking at more variants finds the same one.
proof fn lemma_variants_error_stays(
    variants: Seq<Variant>,
    ignored: Seq<Seq<char>>,
    count: int,
    more: int,
)
    requires
        count <= more,
        variants_error(variants, ignored, count) is Some,
    ensures
        variants_error(variants, ignored, more) == variants_error(variants, ignored, count),
    decreases more - count,
{
    if count < more {
        lemma_variants_error_stays(variants, ignored, count, more - 1);
    }
}

/// Generates the accounting routine of a type from its definition.
///
/// The type parameters that the definition does not exempt get the capability
/// bound. A type without fields or variants gets an empty routine. In a struct
/// every field contributes by its override, in the order of the declaration:
/// a fixed size, the result of a named function, nothing, or the field's own
/// measurement. In an enum every variant gets the steps of its own fields.
///
/// Rejected are a `get_size` attribute on the type that cannot be read, a
/// union, a field with more than one override, and a field that is to measure
/// itself though its type mentions an exempted parameter.
pub fn derive_get_size(input: DeriveInput) -> (result: Result<GetSizeImpl, DeriveError>)
    ensures
        match derive_error(input) {
            Some(error) => result == Err::<GetSizeImpl, DeriveError>(error),
            None => {
                &&& result is Ok
                &&& result->Ok_0.ident == input.ident
                &&& result->Ok_0.generics@.len() == input.generics@.len()
                &&& forall|i: int|
                    0 <= i < input.generics@.len() ==> bound_added(
                        #[trigger] input.generics@[i],
                        result->Ok_0.generics@[i],
                        ignored_generics(input.attrs@),
                    )
                &&& body_of(input.data, result->Ok_0.body)
            },
        },
{
    let DeriveInput { attrs, ident, generics, data } = input;
    // Extract all generics we shall ignore.
    let ignored = match extract_ignored_generics_list(&attrs) {
        Ok(ignored) => ignored,
        Err(error) => {
            return Err(error);
        },
    };
    // Add the capability bound to every type parameter that is not ignored.
    let generics = add_trait_bounds(generics, &ignored);
    // Traverse the definition to generate the individual steps.
    let body = match &data {
        Data::Enum(variants) => {
            if variants.len() == 0 {
                // Empty enums are easy to implement.
                ImplBody::Empty
            } else {
                let mut arms: Vec<Vec<Step>> = Vec::with_capacity(variants.len());
                for v in 0..variants.len()
                    invariant
                        attributes_well_formed(input.attrs@),
                        idents(ignored@) == ignored_generics(input.attrs@),
                        input.data == Data::Enum(*variants),
                        arms@.len() == v,
                        variants_error(variants@, idents(ignored@), v as int) is None,
                        forall|i: int|
                            0 <= i < v ==> (#[trigger] arms@[i])@ == steps_of(
                                variants@[i].fields.list(),
                            ),
                {
                    match generate_steps(&variants[v].fields, &ignored, v) {
                        Ok(cmds) => {
                            arms.push(cmds);
                        },
                        Err(error) => {
                            proof {
                                lemma_variants_error_stays(
                                    variants@,
                                    idents(ignored@),
                                    v + 1,
                                    variants@.len() as int,
                                );
                            }
                            return Err(error);
                        },
                    }
                }
                ImplBody::Enum(arms)
            }
        },
        Data::Union => {
            return Err(DeriveError::UnsupportedUnion);
        },
        Data::Struct(fields) => {
            if fields.is_empty() {
                // Empty structs are easy to implement.
                ImplBody::Empty
            } else {
                match generate_steps(fields, &ignored, 0) {
                    Ok(cmds) => ImplBody::Struct(cmds),
                    Err(error) => {
                        return Err(error);
                    },
                }
            }
        },
    };
    Ok(GetSizeImpl { ident, generics, body })
}

} // verus!
