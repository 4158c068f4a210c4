//! What holds of generation as a whole.

use vstd::prelude::*;
use crate::cast::spec_force_cast_each;
use crate::classify::CastStrategy;
use crate::declared::{first_type_argument, DeclaredType, GenericArgView, TypeSyntaxView};
use crate::emit::{rendered_fields, ConversionUnitView, FieldConversionView};
use crate::kinds::{lemma_name_round_trip, NumericKind};
use crate::schema::{
    first_malformed, AnnotationView, ExtractErrorView, FieldDefinitionView, TargetDefinition,
    TargetDefinitionView, TargetSchema, TargetSchemaView,
};

verus! {

/// Generation is a function of the schema: two schemas that hold the same
/// names and kinds give the same unit and the same text.
pub proof fn lemma_generation_is_deterministic(first: TargetSchema, second: TargetSchema)
    requires
        first@ == second@,
    ensures
        first@.emitted() == second@.emitted(),
        first@.emitted().rendered() == second@.emitted().rendered(),
{
}

/// Generation is a function of the definition: two definitions that hold the
/// same names, types and annotations give the same text, or the same error.
pub proof fn lemma_derivation_is_deterministic(first: TargetDefinition, second: TargetDefinition)
    requires
        first@ == second@,
    ensures
        first@.generated() == second@.generated(),
        first@.generated_text() == second@.generated_text(),
{
}

/// Every field has its conversion, at the place of its declaration, under its
/// own name and its source name; there are no other conversions.
pub proof fn lemma_every_field_is_converted_once(schema: TargetSchemaView)
    ensures
        schema.emitted().conversions.len() == schema.fields.len(),
        forall|i: int|
            0 <= i < schema.fields.len() ==> {
                let conversion = #[trigger] schema.emitted().conversions[i];
                &&& conversion.local_name == schema.fields[i].local_name
                &&& conversion.source_name == schema.fields[i].source_name
                &&& conversion.strategy == schema.fields[i].declared_type.strategy()
            },
{
}

/// The text of the fields is the text of each field's line, one after the
/// other: around the line of any one field stand the lines of the fields
/// before it and of those after it.
pub proof fn lemma_text_holds_each_line_once(conversions: Seq<FieldConversionView>, i: int)
    requires
        0 <= i < conversions.len(),
    ensures
        rendered_fields(conversions) == rendered_fields(conversions.take(i))
            + conversions[i].rendered() + rendered_fields(conversions.skip(i + 1)),
    decreases conversions.len(),
{
    if i < conversions.len() - 1 {
        let all_but_last = conversions.drop_last();
        lemma_text_holds_each_line_once(all_but_last, i);
        assert(all_but_last.take(i) =~= conversions.take(i));
        assert(conversions.skip(i + 1).drop_last() =~= all_but_last.skip(i + 1));
    }
}

/// The classification of a declared type: a `Vec` whose element is of the
/// force-cast target set is cast element by element; else a type of the set
/// is cast; every other type is assigned.
pub proof fn lemma_strategy_of_declared_type(ty: TypeSyntaxView)
    ensures
        ty.declared_type().strategy() == if ty.map_cast_needed() {
            CastStrategy::ElementwiseForceCast
        } else if ty.target_of_force_cast() {
            CastStrategy::ScalarForceCast
        } else {
            CastStrategy::Direct
        },
{
}

/// A kind of the force-cast target set is cast, a sequence of such a kind is
/// cast element by element, and nothing else is.
pub proof fn lemma_strategy_of_kind(declared: DeclaredType)
    ensures
        declared is Numeric <==> declared.strategy() == CastStrategy::ScalarForceCast,
        (declared matches DeclaredType::Sequence(element) && element is Some)
            <==> declared.strategy() == CastStrategy::ElementwiseForceCast,
        (declared is Other || declared == DeclaredType::Sequence(None)) <==> declared.strategy()
            == CastStrategy::Direct,
{
}

/// The element type of a `Vec` is the first of its arguments that is a type:
/// the arguments before it are none, and without such an argument there is no
/// element type.
pub proof fn lemma_first_type_argument_is_first(arguments: Seq<GenericArgView>)
    ensures
        first_type_argument(arguments) is None <==> forall|i: int|
            0 <= i < arguments.len() ==> #[trigger] arguments[i] is Other,
        first_type_argument(arguments) is Some ==> exists|i: int|
            {
                &&& 0 <= i < arguments.len()
                &&& #[trigger] arguments[i] == GenericArgView::Type(
                    first_type_argument(arguments)->0,
                )
                &&& forall|j: int| 0 <= j < i ==> #[trigger] arguments[j] is Other
            },
    decreases arguments.len(),
{
    if arguments.len() > 0 && arguments[0] is Other {
        let rest = arguments.drop_first();
        lemma_first_type_argument_is_first(rest);
        if first_type_argument(rest) is None {
            assert forall|i: int| 0 <= i < arguments.len() implies #[trigger] arguments[i]
                is Other by {
                if i > 0 {
                    assert(rest[i - 1] == arguments[i]);
                }
            }
        } else {
            let k = choose|k: int|
                {
                    &&& 0 <= k < rest.len()
                    &&& #[trigger] rest[k] == GenericArgView::Type(first_type_argument(rest)->0)
                    &&& forall|j: int| 0 <= j < k ==> #[trigger] rest[j] is Other
                };
            assert forall|j: int| 0 <= j < k + 1 implies #[trigger] arguments[j] is Other by {
                if j > 0 {
                    assert(rest[j - 1] == arguments[j]);
                }
            }
        }
    }
}

/// A type that is written as the name of a kind of the set, and is no `Vec`,
/// is cast.
pub proof fn lemma_named_kind_is_cast(ty: TypeSyntaxView, kind: NumericKind)
    requires
        ty.tokens == kind.spec_name(),
        ty.vec_element() is None,
    ensures
        ty.declared_type() == DeclaredType::Numeric(kind),
        ty.declared_type().strategy() == CastStrategy::ScalarForceCast,
{
    lemma_name_round_trip(kind);
}

/// A `Vec` whose first type argument is written as the name of a kind of the
/// set is cast element by element.
pub proof fn lemma_vec_of_named_kind_is_cast_elementwise(ty: TypeSyntaxView, kind: NumericKind)
    requires
        ty.vec_element() == Some(kind.spec_name()),
    ensures
        ty.declared_type() == DeclaredType::Sequence(Some(kind)),
        ty.declared_type().strategy() == CastStrategy::ElementwiseForceCast,
{
    lemma_name_round_trip(kind);
}

/// The cast of a sequence keeps its length and its order: the element at each
/// place is the cast of the element at that place.
pub proof fn lemma_elementwise_cast_keeps_shape(kind: NumericKind, wide: Seq<i64>)
    ensures
        spec_force_cast_each(kind, wide).len() == wide.len(),
        forall|i: int|
            0 <= i < wide.len() ==> #[trigger] spec_force_cast_each(kind, wide)[i]
                == kind.spec_force_cast(wide[i]),
{
}

/// Extraction keeps the fields: the schema holds as many as the definition,
/// each at its place and under its own name.
pub proof fn lemma_every_field_is_extracted(definition: TargetDefinitionView)
    requires
        definition.extracted() is Ok,
    ensures
        definition.extracted()->Ok_0.target == definition.ident,
        definition.extracted()->Ok_0.fields.len() == definition.fields.len(),
        forall|i: int|
            0 <= i < definition.fields.len() ==> {
                let field = #[trigger] definition.extracted()->Ok_0.fields[i];
                &&& field.local_name == definition.fields[i].ident
                &&& field.source_name == definition.fields[i].source_name()
                &&& field.declared_type == definition.fields[i].ty.declared_type()
            },
{
}

/// A field without an annotation is read from the source under its own name.
pub proof fn lemma_default_naming(definition: TargetDefinitionView, i: int)
    requires
        definition.extracted() is Ok,
        0 <= i < definition.fields.len(),
        definition.fields[i].annotation is Absent,
    ensures
        definition.extracted()->Ok_0.fields.len() == definition.fields.len(),
        definition.extracted()->Ok_0.fields[i].local_name == definition.fields[i].ident,
        definition.extracted()->Ok_0.fields[i].source_name == definition.fields[i].ident,
{
}

/// A field is read from the source under the name that its annotation gives.
pub proof fn lemma_override_naming(definition: TargetDefinitionView, i: int, name: Seq<char>)
    requires
        definition.extracted() is Ok,
        0 <= i < definition.fields.len(),
        definition.fields[i].annotation == AnnotationView::Named(name),
        name.len() > 0,
    ensures
        definition.extracted()->Ok_0.fields[i].local_name == definition.fields[i].ident,
        definition.extracted()->Ok_0.fields[i].source_name == name,
{
}

/// A field that has a name has a source name: an annotation that gives the
/// empty name is no override.
pub proof fn lemma_source_name_is_never_empty(field: FieldDefinitionView)
    requires
        field.ident.len() > 0,
    ensures
        field.source_name().len() > 0,
        field.resolved().source_name.len() > 0,
{
}

/// Extraction succeeds exactly where the struct names its source type and no
/// annotation is malformed.
pub proof fn lemma_extraction_succeeds(definition: TargetDefinitionView)
    ensures
        definition.extracted() is Ok <==> {
            &&& definition.annotation matches AnnotationView::Named(name)
            &&& name.len() > 0
            &&& forall|i: int|
                0 <= i < definition.fields.len() ==> !((
                #[trigger] definition.fields[i]).annotation is Malformed)
        },
{
    lemma_first_malformed_is_first(definition.fields);
}

/// Extraction misses the source type exactly where the struct carries no
/// annotation, and reports a malformed annotation exactly where the struct
/// carries one and it, or that of a field, was not accepted. The report names
/// the struct where the struct's annotation was not accepted or names
/// nothing, and else the first field whose annotation is malformed.
pub proof fn lemma_extraction_fails(definition: TargetDefinitionView)
    ensures
        definition.extracted() == Err::<TargetSchemaView, ExtractErrorView>(
            ExtractErrorView::MissingSourceType,
        ) <==> definition.annotation is Absent,
        (definition.extracted() matches Err(error) && error is MalformedAttribute) <==> {
            &&& !(definition.annotation is Absent)
            &&& definition.source_type() is Err || exists|i: int|
                0 <= i < definition.fields.len() && (
                #[trigger] definition.fields[i]).annotation is Malformed
        },
        definition.source_type() is Err && !(definition.annotation is Absent)
            ==> definition.extracted() == Err::<TargetSchemaView, ExtractErrorView>(
            ExtractErrorView::MalformedAttribute(definition.ident),
        ),
        definition.source_type() is Ok && first_malformed(definition.fields) is Some
            ==> definition.extracted() == Err::<TargetSchemaView, ExtractErrorView>(
            ExtractErrorView::MalformedAttribute(first_malformed(definition.fields)->0),
        ),
{
    lemma_first_malformed_is_first(definition.fields);
}

/// The field that the search for a malformed annotation names is the first
/// one whose annotation is malformed, and it names none where there is none.
pub proof fn lemma_first_malformed_is_first(fields: Seq<FieldDefinitionView>)
    ensures
        first_malformed(fields) is None <==> forall|i: int|
            0 <= i < fields.len() ==> !((#[trigger] fields[i]).annotation is Malformed),
        first_malformed(fields) is Some ==> exists|i: int|
            {
                &&& 0 <= i < fields.len()
                &&& (#[trigger] fields[i]).annotation is Malformed
                &&& first_malformed(fields) == Some(fields[i].ident)
                &&& forall|j: int| 0 <= j < i ==> !((#[trigger] fields[j]).annotation is Malformed)
            },
    decreases fields.len(),
{
    if fields.len() > 0 && !(fields[0].annotation is Malformed) {
        let rest = fields.drop_first();
        lemma_first_malformed_is_first(rest);
        if first_malformed(rest) is None {
            assert forall|i: int| 0 <= i < fields.len() implies !((
            #[trigger] fields[i]).annotation is Malformed) by {
                if i > 0 {
                    assert(rest[i - 1] == fields[i]);
                }
            }
        } else {
            let k = choose|k: int|
                {
                    &&& 0 <= k < rest.len()
                    &&& (#[trigger] rest[k]).annotation is Malformed
                    &&& first_malformed(rest) == Some(rest[k].ident)
                    &&& forall|j: int|
                        0 <= j < k ==> !((#[trigger] rest[j]).annotation is Malformed)
                };
            assert forall|j: int| 0 <= j < k + 1 implies !((
            #[trigger] fields[j]).annotation is Malformed) by {
                if j > 0 {
                    assert(rest[j - 1] == fields[j]);
                }
            }
        }
    }
}

/// A schema without fields gives a unit without conversions, whose text is
/// the frame of the function alone: it reads no field of the source.
pub proof fn lemma_empty_schema(schema: TargetSchemaView)
    requires
        schema.fields.len() == 0,
    ensures
        schema.emitted().conversions.len() == 0,
        schema.emitted().rendered() == schema.emitted().header() + ConversionUnitView::footer(),
{
}

} // verus!
