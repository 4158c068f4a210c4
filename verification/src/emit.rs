//! The conversion that is generated for a schema, and its text.

use vstd::prelude::*;
use vstd::string::StringExecFns;
use crate::classify::{classify, CastStrategy};
use crate::schema::{FieldSpec, FieldSpecView, TargetSchema, TargetSchemaView};

verus! {

/// The conversion of one field.
#[derive(Debug, PartialEq, Eq)]
pub struct FieldConversion {
    /// The field of the target type that is assigned.
    pub local_name: String,
    /// The field of the source type that is read.
    pub source_name: String,
    pub strategy: CastStrategy,
}

/// The value of a [`FieldConversion`], its texts as sequences of characters.
pub struct FieldConversionView {
    pub local_name: Seq<char>,
    pub source_name: Seq<char>,
    pub strategy: CastStrategy,
}

impl View for FieldConversion {
    type V = FieldConversionView;

    open spec fn view(&self) -> FieldConversionView {
        FieldConversionView {
            local_name: self.local_name@,
            source_name: self.source_name@,
            strategy: self.strategy,
        }
    }
}

/// The generated function from the source type to the target type: one
/// conversion for each field, in the order of declaration.
#[derive(Debug, PartialEq, Eq)]
pub struct ConversionUnit {
    pub target: String,
    pub source_type: String,
    pub conversions: Vec<FieldConversion>,
}

/// The value of a [`ConversionUnit`], its texts as sequences of characters.
pub struct ConversionUnitView {
    pub target: Seq<char>,
    pub source_type: Seq<char>,
    pub conversions: Seq<FieldConversionView>,
}

impl View for ConversionUnit {
    type V = ConversionUnitView;

    open spec fn view(&self) -> ConversionUnitView {
        ConversionUnitView {
            target: self.target@,
            source_type: self.source_type@,
            conversions: self.conversions@.map_values(|c: FieldConversion| c@),
        }
    }
}

impl CastStrategy {
    /// What follows the source field in the expression that converts it.
    pub open spec fn spec_suffix(self) -> Seq<char> {
        match self {
            CastStrategy::Direct => ""@,
            CastStrategy::ScalarForceCast => " as _"@,
            CastStrategy::ElementwiseForceCast => ".into_iter().map(|x| x as _).collect()"@,
        }
    }

    /// What follows the source field in the expression that converts it.
    pub fn suffix(self) -> (text: &'static str)
        ensures
            text@ == self.spec_suffix(),
    {
        match self {
            CastStrategy::Direct => "",
            CastStrategy::ScalarForceCast => " as _",
            CastStrategy::ElementwiseForceCast => ".into_iter().map(|x| x as _).collect()",
        }
    }
}

impl FieldSpecView {
    /// The conversion of the field.
    pub open spec fn conversion(self) -> FieldConversionView {
        FieldConversionView {
            local_name: self.local_name,
            source_name: self.source_name,
            strategy: self.declared_type.strategy(),
        }
    }
}

impl TargetSchemaView {
    /// The conversion unit of the schema.
    pub open spec fn emitted(self) -> ConversionUnitView {
        ConversionUnitView {
            target: self.target,
            source_type: self.source_type,
            conversions: self.fields.map_values(|f: FieldSpecView| f.conversion()),
        }
    }
}

impl FieldConversionView {
    /// The line that initialises the field.
    pub open spec fn rendered(self) -> Seq<char> {
        "            "@ + self.local_name + ": node."@ + self.source_name
            + self.strategy.spec_suffix() + ",\n"@
    }
}

/// The lines that initialise the fields, one after the other.
pub open spec fn rendered_fields(conversions: Seq<FieldConversionView>) -> Seq<char>
    decreases conversions.len(),
{
    if conversions.len() == 0 {
        Seq::empty()
    } else {
        rendered_fields(conversions.drop_last()) + conversions.last().rendered()
    }
}

impl ConversionUnitView {
    /// The text up to the first field.
    pub open spec fn header(self) -> Seq<char> {
        "impl From<"@ + self.source_type + "> for "@ + self.target + " {\n"@
            + "    #[allow(clippy::cast_possible_truncation, clippy::cast_sign_loss)]\n"@
            + "    fn from(node: "@ + self.source_type + ") -> Self {\n"@ + "        Self {\n"@
    }

    /// The text after the last field.
    pub open spec fn footer() -> Seq<char> {
        "        }\n    }\n}\n"@
    }

    /// The text of the unit: an `impl` of `From` for the target type.
    pub open spec fn rendered(self) -> Seq<char> {
        self.header() + rendered_fields(self.conversions) + Self::footer()
    }
}

impl FieldSpec {
    /// The cast strategy of the field.
    pub fn strategy(&self) -> (strategy: CastStrategy)
        ensures
            strategy == self@.declared_type.strategy(),
    {
        classify(self.declared_type)
    }

    /// The conversion of the field.
    pub fn conversion(&self) -> (conversion: FieldConversion)
        ensures
            conversion@ == self@.conversion(),
    {
        FieldConversion {
            local_name: self.local_name.clone(),
            source_name: self.source_name.clone(),
            strategy: self.strategy(),
        }
    }
}

/// Emits the conversion unit of a schema: for each field, in the order of
/// declaration, the conversion that its cast strategy asks for.
pub fn emit(schema: &TargetSchema) -> (unit: ConversionUnit)
    ensures
        unit@ == schema@.emitted(),
{
    let ghost fields = schema@.fields;
    let mut conversions: Vec<FieldConversion> = Vec::new();
    let mut i: usize = 0;
    while i < schema.fields.len()
        invariant
            i <= schema.fields.len(),
            fields == schema@.fields,
            fields.len() == schema.fields.len(),
            conversions@.map_values(|c: FieldConversion| c@) == fields.take(i as int).map_values(
                |f: FieldSpecView| f.conversion(),
            ),
        decreases schema.fields.len() - i,
    {
        let conversion = schema.fields[i].conversion();
        conversions.push(conversion);
        assert(fields.take(i + 1).map_values(|f: FieldSpecView| f.conversion())
            =~= fields.take(i as int).map_values(|f: FieldSpecView| f.conversion()).push(
            fields[i as int].conversion(),
        ));
        i += 1;
    }
    assert(fields.take(fields.len() as int) =~= fields);
    ConversionUnit {
        target: schema.target.clone(),
        source_type: schema.source_type.clone(),
        conversions,
    }
}

impl FieldConversion {
    /// The line that initialises the field.
    pub fn render(&self) -> (text: String)
        ensures
            text@ == self@.rendered(),
    {
        let mut text = String::from_str("            ");
        text.append(self.local_name.as_str());
        text.append(": node.");
        text.append(self.source_name.as_str());
        text.append(self.strategy.suffix());
        text.append(",\n");
        text
    }
}

impl ConversionUnit {
    /// The text of the unit: an `impl` of `From` for the target type, whose
    /// function builds the target from a source value named `node`.
    pub fn render(&self) -> (text: String)
        ensures
            text@ == self@.rendered(),
    {
        let mut text = String::from_str("impl From<");
        text.append(self.source_type.as_str());
        text.append("> for ");
        text.append(self.target.as_str());
        text.append(" {\n");
        text.append("    #[allow(clippy::cast_possible_truncation, clippy::cast_sign_loss)]\n");
        text.append("    fn from(node: ");
        text.append(self.source_type.as_str());
        text.append(") -> Self {\n");
        text.append("        Self {\n");
        let ghost conversions = self@.conversions;
        let mut body = String::new();
        let mut i: usize = 0;
        while i < self.conversions.len()
            invariant
                i <= self.conversions.len(),
                conversions == self@.conversions,
                conversions.len() == self.conversions.len(),
                body@ == rendered_fields(conversions.take(i as int)),
            decreases self.conversions.len() - i,
        {
            let line = self.conversions[i].render();
            body.append(line.as_str());
            assert(conversions.take(i + 1).drop_last() =~= conversions.take(i as int));
            i += 1;
        }
        assert(conversions.take(conversions.len() as int) =~= conversions);
        text.append(body.as_str());
        text.append("        }\n    }\n}\n");
        text
    }
}

} // verus!
