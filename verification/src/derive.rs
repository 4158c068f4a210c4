//! Generation as a whole: from the definition of a target type to the
//! conversion that is spliced in beside it.

use vstd::prelude::*;
use crate::emit::{emit, ConversionUnit, ConversionUnitView};
use crate::schema::{
    extract_schema, ExtractError, ExtractErrorView, TargetDefinition, TargetDefinitionView,
};

verus! {

impl TargetDefinitionView {
    /// The conversion unit that is generated for the definition.
    pub open spec fn generated(self) -> Result<ConversionUnitView, ExtractErrorView> {
        match self.extracted() {
            Ok(schema) => Ok(schema.emitted()),
            Err(error) => Err(error),
        }
    }

    /// The text that is generated for the definition.
    pub open spec fn generated_text(self) -> Result<Seq<char>, ExtractErrorView> {
        match self.generated() {
            Ok(unit) => Ok(unit.rendered()),
            Err(error) => Err(error),
        }
    }
}

/// Generates the conversion unit for a target type: extracts its schema,
/// chooses a cast strategy for each field and emits the conversions. It fails
/// exactly where the extraction of the schema fails, with the same error.
pub fn derive_from_graphql_client_autogen_2(definition: &TargetDefinition) -> (result: Result<
    ConversionUnit,
    ExtractError,
>)
    ensures
        match result {
            Ok(unit) => definition@.generated() == Ok::<ConversionUnitView, ExtractErrorView>(
                unit@,
            ),
            Err(error) => definition@.generated() == Err::<ConversionUnitView, ExtractErrorView>(
                error@,
            ),
        },
{
    match extract_schema(definition) {
        Ok(schema) => Ok(emit(&schema)),
        Err(error) => Err(error),
    }
}

/// Generates, as text, the `impl` of `From` that converts the source type
/// into the target type. It fails exactly where the extraction of the schema
/// fails, with the same error.
pub fn derive_from_graphql_client_autogen(definition: &TargetDefinition) -> (result: Result<
    String,
    ExtractError,
>)
    ensures
        match result {
            Ok(text) => definition@.generated_text() == Ok::<Seq<char>, ExtractErrorView>(text@),
            Err(error) => definition@.generated_text() == Err::<Seq<char>, ExtractErrorView>(
                error@,
            ),
        },
{
    match derive_from_graphql_client_autogen_2(definition) {
        Ok(unit) => Ok(unit.render()),
        Err(error) => Err(error),
    }
}

} // verus!
