//! The target type as it was declared, and the schema that is extracted from it.

use vstd::prelude::*;
use crate::declared::{DeclaredType, TypeSyntax, TypeSyntaxView};

verus! {

/// What the attribute parser found of the `autogen_type` annotation on a
/// struct or on one of its fields.
#[derive(Debug, PartialEq, Eq)]
pub enum Annotation {
    /// The item carries no such annotation.
    Absent,
    /// The item carries one, and it gives this name.
    Named(String),
    /// The item carries something that the parser did not accept.
    Malformed,
}

/// The value of an [`Annotation`], its texts as sequences of characters.
pub enum AnnotationView {
    Absent,
    Named(Seq<char>),
    Malformed,
}

impl View for Annotation {
    type V = AnnotationView;

    open spec fn view(&self) -> AnnotationView {
        match self {
            Annotation::Absent => AnnotationView::Absent,
            Annotation::Named(name) => AnnotationView::Named(name@),
            Annotation::Malformed => AnnotationView::Malformed,
        }
    }
}

impl AnnotationView {
    /// The annotation that stands for what the attribute parser found:
    /// whether the item carries the attribute, and the name that the parser
    /// read from it, if it accepted it.
    pub open spec fn from_parsed(present: bool, parsed: Option<Seq<char>>) -> AnnotationView {
        if !present {
            AnnotationView::Absent
        } else {
            match parsed {
                Some(name) => AnnotationView::Named(name),
                None => AnnotationView::Malformed,
            }
        }
    }
}

impl Annotation {
    /// The annotation that stands for what the attribute parser found.
    pub fn from_parsed(present: bool, parsed: Option<String>) -> (annotation: Annotation)
        ensures
            annotation@ == AnnotationView::from_parsed(
                present,
                match parsed {
                    Some(name) => Some(name@),
                    None => None,
                },
            ),
    {
        if !present {
            Annotation::Absent
        } else {
            match parsed {
                Some(name) => Annotation::Named(name),
                None => Annotation::Malformed,
            }
        }
    }
}

/// Why no schema could be extracted from a definition.
#[derive(Debug, PartialEq, Eq)]
pub enum ExtractError {
    /// The struct carries no annotation that names the source type.
    MissingSourceType,
    /// An annotation was not accepted; the name is that of the field that
    /// carries it, or of the struct.
    MalformedAttribute(String),
}

/// The value of an [`ExtractError`], its texts as sequences of characters.
pub enum ExtractErrorView {
    MissingSourceType,
    MalformedAttribute(Seq<char>),
}

impl View for ExtractError {
    type V = ExtractErrorView;

    open spec fn view(&self) -> ExtractErrorView {
        match self {
            ExtractError::MissingSourceType => ExtractErrorView::MissingSourceType,
            ExtractError::MalformedAttribute(name) => ExtractErrorView::MalformedAttribute(name@),
        }
    }
}

impl ExtractErrorView {
    /// The text of the diagnostic.
    pub open spec fn message(self) -> Seq<char> {
        match self {
            ExtractErrorView::MissingSourceType =>
                "missing `autogen_type` attribute naming the source type"@,
            ExtractErrorView::MalformedAttribute(name) =>
                "malformed `autogen_type` attribute on `"@ + name + "`"@,
        }
    }
}

impl ExtractError {
    /// The text of the diagnostic.
    pub fn message(&self) -> (text: String)
        ensures
            text@ == self@.message(),
    {
        match self {
            ExtractError::MissingSourceType => {
                String::from_str("missing `autogen_type` attribute naming the source type")
            },
            ExtractError::MalformedAttribute(name) => {
                let mut text = String::from_str("malformed `autogen_type` attribute on `");
                text.append(name.as_str());
                text.append("`");
                text
            },
        }
    }
}

/// One field of the target type, as declared.
#[derive(Debug, PartialEq, Eq)]
pub struct FieldDefinition {
    pub ident: String,
    pub ty: TypeSyntax,
    pub annotation: Annotation,
}

/// The value of a [`FieldDefinition`], its texts as sequences of characters.
pub struct FieldDefinitionView {
    pub ident: Seq<char>,
    pub ty: TypeSyntaxView,
    pub annotation: AnnotationView,
}

impl View for FieldDefinition {
    type V = FieldDefinitionView;

    open spec fn view(&self) -> FieldDefinitionView {
        FieldDefinitionView { ident: self.ident@, ty: self.ty@, annotation: self.annotation@ }
    }
}

/// The target type, as declared.
#[derive(Debug, PartialEq, Eq)]
pub struct TargetDefinition {
    pub ident: String,
    pub annotation: Annotation,
    /// The named fields, in the order of their declaration.
    pub fields: Vec<FieldDefinition>,
}

/// The value of a [`TargetDefinition`], its texts as sequences of characters.
pub struct TargetDefinitionView {
    pub ident: Seq<char>,
    pub annotation: AnnotationView,
    pub fields: Seq<FieldDefinitionView>,
}

impl View for TargetDefinition {
    type V = TargetDefinitionView;

    open spec fn view(&self) -> TargetDefinitionView {
        TargetDefinitionView {
            ident: self.ident@,
            annotation: self.annotation@,
            fields: self.fields@.map_values(|f: FieldDefinition| f@),
        }
    }
}

/// One field of the target type, with the name under which the source type
/// holds its value.
#[derive(Debug, PartialEq, Eq)]
pub struct FieldSpec {
    pub local_name: String,
    pub declared_type: DeclaredType,
    pub source_name: String,
}

/// The value of a [`FieldSpec`], its texts as sequences of characters.
pub struct FieldSpecView {
    pub local_name: Seq<char>,
    pub declared_type: DeclaredType,
    pub source_name: Seq<char>,
}

impl View for FieldSpec {
    type V = FieldSpecView;

    open spec fn view(&self) -> FieldSpecView {
        FieldSpecView {
            local_name: self.local_name@,
            declared_type: self.declared_type,
            source_name: self.source_name@,
        }
    }
}

/// The target type with its fields resolved, and the type to convert from.
#[derive(Debug, PartialEq, Eq)]
pub struct TargetSchema {
    /// The name of the target type.
    pub target: String,
    /// The type to convert from, as it was written in the annotation.
    pub source_type: String,
    pub fields: Vec<FieldSpec>,
}

/// The value of a [`TargetSchema`], its texts as sequences of characters.
pub struct TargetSchemaView {
    pub target: Seq<char>,
    pub source_type: Seq<char>,
    pub fields: Seq<FieldSpecView>,
}

impl View for TargetSchema {
    type V = TargetSchemaView;

    open spec fn view(&self) -> TargetSchemaView {
        TargetSchemaView {
            target: self.target@,
            source_type: self.source_type@,
            fields: self.fields@.map_values(|f: FieldSpec| f@),
        }
    }
}

impl TargetSchemaView {
    /// No field is without a name, on either side.
    pub open spec fn wf(self) -> bool {
        forall|i: int|
            0 <= i < self.fields.len() ==> (#[trigger] self.fields[i]).local_name.len() > 0
                && self.fields[i].source_name.len() > 0
    }
}

impl FieldDefinitionView {
    /// The name of the source field: the one that the annotation gives, or the
    /// field's own where there is no annotation or it gives the empty name.
    pub open spec fn source_name(self) -> Seq<char> {
        match self.annotation {
            AnnotationView::Named(name) => if name.len() == 0 {
                self.ident
            } else {
                name
            },
            _ => self.ident,
        }
    }

    /// The field with its source name and the kind of its type.
    pub open spec fn resolved(self) -> FieldSpecView {
        FieldSpecView {
            local_name: self.ident,
            declared_type: self.ty.declared_type(),
            source_name: self.source_name(),
        }
    }
}

/// The name of the first field whose annotation is malformed.
pub open spec fn first_malformed(fields: Seq<FieldDefinitionView>) -> Option<Seq<char>>
    decreases fields.len(),
{
    if fields.len() == 0 {
        None
    } else if fields[0].annotation is Malformed {
        Some(fields[0].ident)
    } else {
        first_malformed(fields.drop_first())
    }
}

impl TargetDefinitionView {
    /// No field is without a name.
    pub open spec fn wf(self) -> bool {
        forall|i: int| 0 <= i < self.fields.len() ==> (#[trigger] self.fields[i]).ident.len() > 0
    }

    /// The type to convert from. An annotation is missing where the struct
    /// carries none, and malformed where it was not accepted or names nothing.
    pub open spec fn source_type(self) -> Result<Seq<char>, ExtractErrorView> {
        match self.annotation {
            AnnotationView::Absent => Err(ExtractErrorView::MissingSourceType),
            AnnotationView::Malformed => Err(ExtractErrorView::MalformedAttribute(self.ident)),
            AnnotationView::Named(name) => if name.len() == 0 {
                Err(ExtractErrorView::MalformedAttribute(self.ident))
            } else {
                Ok(name)
            },
        }
    }

    /// The schema of the definition. The struct's annotation is looked at
    /// before those of the fields, and the fields in their order.
    pub open spec fn extracted(self) -> Result<TargetSchemaView, ExtractErrorView> {
        match self.source_type() {
            Err(error) => Err(error),
            Ok(source_type) => match first_malformed(self.fields) {
                Some(name) => Err(ExtractErrorView::MalformedAttribute(name)),
                None => Ok(
                    TargetSchemaView {
                        target: self.ident,
                        source_type,
                        fields: self.fields.map_values(|f: FieldDefinitionView| f.resolved()),
                    },
                ),
            },
        }
    }
}

/// Fields that are not malformed can be left out in front.
pub proof fn lemma_first_malformed_skip(fields: Seq<FieldDefinitionView>, n: int)
    requires
        0 <= n <= fields.len(),
        forall|j: int| 0 <= j < n ==> !((#[trigger] fields[j]).annotation is Malformed),
    ensures
        first_malformed(fields) == first_malformed(fields.skip(n)),
    decreases n,
{
    if n == 0 {
        assert(fields.skip(0) =~= fields);
    } else {
        let rest = fields.drop_first();
        lemma_first_malformed_skip(rest, n - 1);
        assert(rest.skip(n - 1) =~= fields.skip(n));
    }
}

impl FieldDefinition {
    /// The field with its source name and the kind of its type, unless its
    /// annotation is malformed.
    pub fn resolve(&self) -> (result: Result<FieldSpec, ExtractError>)
        ensures
            match result {
                Ok(field) => !(self@.annotation is Malformed) && field@ == self@.resolved(),
                Err(error) => self@.annotation is Malformed && error@
                    == ExtractErrorView::MalformedAttribute(self@.ident),
            },
    {
        let source_name = match &self.annotation {
            Annotation::Malformed => {
                return Err(ExtractError::MalformedAttribute(self.ident.clone()));
            },
            Annotation::Absent => self.ident.clone(),
            Annotation::Named(name) => {
                if name.as_str().is_empty() {
                    self.ident.clone()
                } else {
                    name.clone()
                }
            },
        };
        Ok(
            FieldSpec {
                local_name: self.ident.clone(),
                declared_type: self.ty.declared_type(),
                source_name,
            },
        )
    }
}

impl TargetDefinition {
    /// The type to convert from.
    pub fn source_type(&self) -> (result: Result<String, ExtractError>)
        ensures
            match result {
                Ok(name) => self@.source_type() == Ok::<Seq<char>, ExtractErrorView>(name@),
                Err(error) => self@.source_type() == Err::<Seq<char>, ExtractErrorView>(error@),
            },
    {
        match &self.annotation {
            Annotation::Absent => Err(ExtractError::MissingSourceType),
            Annotation::Malformed => Err(ExtractError::MalformedAttribute(self.ident.clone())),
            Annotation::Named(name) => {
                if name.as_str().is_empty() {
                    Err(ExtractError::MalformedAttribute(self.ident.clone()))
                } else {
                    Ok(name.clone())
                }
            },
        }
    }
}

/// Extracts the schema of a target type from its definition.
///
/// It fails with `MissingSourceType` where the struct carries no annotation,
/// and with `MalformedAttribute` where the struct's annotation or that of a
/// field was not accepted, naming the struct or the first such field. A field
/// without an annotation is looked up in the source under its own name.
pub fn extract_schema(definition: &TargetDefinition) -> (result: Result<TargetSchema, ExtractError>)
    ensures
        match result {
            Ok(schema) => definition@.extracted() == Ok::<TargetSchemaView, ExtractErrorView>(
                schema@,
            ),
            Err(error) => definition@.extracted() == Err::<TargetSchemaView, ExtractErrorView>(
                error@,
            ),
        },
        result is Ok && definition@.wf() ==> result->Ok_0@.wf(),
{
    let source_type = match definition.source_type() {
        Ok(name) => name,
        Err(error) => {
            return Err(error);
        },
    };
    let ghost declared = definition@.fields;
    let mut fields: Vec<FieldSpec> = Vec::new();
    let mut i: usize = 0;
    while i < definition.fields.len()
        invariant
            i <= definition.fields.len(),
            declared == definition@.fields,
            declared.len() == definition.fields.len(),
            definition@.source_type() == Ok::<Seq<char>, ExtractErrorView>(source_type@),
            forall|j: int| 0 <= j < i ==> !((#[trigger] declared[j]).annotation is Malformed),
            fields@.map_values(|f: FieldSpec| f@) == declared.take(i as int).map_values(
                |f: FieldDefinitionView| f.resolved(),
            ),
        decreases definition.fields.len() - i,
    {
        match definition.fields[i].resolve() {
            Ok(field) => {
                fields.push(field);
                assert(declared.take(i + 1).map_values(|f: FieldDefinitionView| f.resolved())
                    =~= declared.take(i as int).map_values(
                    |f: FieldDefinitionView| f.resolved(),
                ).push(declared[i as int].resolved()));
            },
            Err(error) => {
                proof {
                    lemma_first_malformed_skip(declared, i as int);
                }
                return Err(error);
            },
        }
        i += 1;
    }
    proof {
        lemma_first_malformed_skip(declared, declared.len() as int);
        assert(declared.take(declared.len() as int) =~= declared);
    }
    Ok(TargetSchema { target: definition.ident.clone(), source_type, fields })
}

} // verus!
