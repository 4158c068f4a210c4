//! What is read of a field's declared type, and the kind of type it stands for.

use vstd::prelude::*;
use crate::kinds::NumericKind;
use crate::text::text_equals;

verus! {

/// One generic argument of a path segment.
#[derive(Debug, PartialEq, Eq)]
pub enum GenericArg {
    /// A type, held as the text of its tokens.
    Type(String),
    /// A lifetime, a constant, a binding or a constraint.
    Other,
}

/// The value of a [`GenericArg`], its texts as sequences of characters.
pub enum GenericArgView {
    Type(Seq<char>),
    Other,
}

impl View for GenericArg {
    type V = GenericArgView;

    open spec fn view(&self) -> GenericArgView {
        match self {
            GenericArg::Type(tokens) => GenericArgView::Type(tokens@),
            GenericArg::Other => GenericArgView::Other,
        }
    }
}

/// The last segment of a type that is written as a path.
#[derive(Debug, PartialEq, Eq)]
pub struct PathTail {
    pub ident: String,
    /// The arguments between angle brackets, where the segment has such.
    pub arguments: Option<Vec<GenericArg>>,
}

/// The value of a [`PathTail`], its texts as sequences of characters.
pub struct PathTailView {
    pub ident: Seq<char>,
    pub arguments: Option<Seq<GenericArgView>>,
}

impl View for PathTail {
    type V = PathTailView;

    open spec fn view(&self) -> PathTailView {
        PathTailView {
            ident: self.ident@,
            arguments: match self.arguments {
                Some(arguments) => Some(arguments@.map_values(|a: GenericArg| a@)),
                None => None,
            },
        }
    }
}

/// A declared type, as far as the generator looks at it.
#[derive(Debug, PartialEq, Eq)]
pub struct TypeSyntax {
    /// The text of the type's tokens.
    pub tokens: String,
    /// The last path segment, where the type is a path.
    pub path: Option<PathTail>,
}

/// The value of a [`TypeSyntax`], its texts as sequences of characters.
pub struct TypeSyntaxView {
    pub tokens: Seq<char>,
    pub path: Option<PathTailView>,
}

impl View for TypeSyntax {
    type V = TypeSyntaxView;

    open spec fn view(&self) -> TypeSyntaxView {
        TypeSyntaxView {
            tokens: self.tokens@,
            path: match self.path {
                Some(tail) => Some(tail@),
                None => None,
            },
        }
    }
}

/// The first of the arguments that is a type.
pub open spec fn first_type_argument(arguments: Seq<GenericArgView>) -> Option<Seq<char>>
    decreases arguments.len(),
{
    if arguments.len() == 0 {
        None
    } else {
        match arguments[0] {
            GenericArgView::Type(tokens) => Some(tokens),
            GenericArgView::Other => first_type_argument(arguments.drop_first()),
        }
    }
}

impl PathTailView {
    /// The element type of a `Vec`: the first type among the arguments of a
    /// segment of that name.
    pub open spec fn vec_element(self) -> Option<Seq<char>> {
        if self.ident == "Vec"@ {
            match self.arguments {
                Some(arguments) => first_type_argument(arguments),
                None => None,
            }
        } else {
            None
        }
    }
}

impl TypeSyntaxView {
    /// The numeric kind that the whole type names.
    pub open spec fn scalar_kind(self) -> Option<NumericKind> {
        NumericKind::of_name(self.tokens)
    }

    /// The element type, where the type is a `Vec` of some type.
    pub open spec fn vec_element(self) -> Option<Seq<char>> {
        match self.path {
            Some(tail) => tail.vec_element(),
            None => None,
        }
    }

    /// The numeric kind of the elements, where the type is a `Vec` of such.
    pub open spec fn element_kind(self) -> Option<NumericKind> {
        match self.vec_element() {
            Some(element) => NumericKind::of_name(element),
            None => None,
        }
    }

    /// Whether the type is a sequence whose elements are each to be cast.
    pub open spec fn map_cast_needed(self) -> bool {
        self.element_kind() is Some
    }

    /// Whether the type is itself the target of a forced cast.
    pub open spec fn target_of_force_cast(self) -> bool {
        self.scalar_kind() is Some
    }

    /// The kind of type that the syntax stands for. A sequence of a numeric
    /// kind comes first, then a numeric kind, then any other sequence.
    pub open spec fn declared_type(self) -> DeclaredType {
        if self.element_kind() is Some {
            DeclaredType::Sequence(self.element_kind())
        } else if self.scalar_kind() is Some {
            DeclaredType::Numeric(self.scalar_kind()->0)
        } else if self.vec_element() is Some {
            DeclaredType::Sequence(None)
        } else {
            DeclaredType::Other
        }
    }
}

/// The kind of type that a field is declared with.
#[derive(Clone, Copy, Debug, PartialEq, Eq, Structural)]
pub enum DeclaredType {
    /// A numeric kind of the force-cast target set.
    Numeric(NumericKind),
    /// A `Vec`, with the numeric kind of its elements where they have one.
    Sequence(Option<NumericKind>),
    /// Any other type.
    Other,
}

/// The text of the first type among the arguments from `start` on.
fn find_type_argument(arguments: &Vec<GenericArg>, start: usize) -> (found: Option<&str>)
    requires
        start <= arguments.len(),
    ensures
        match found {
            Some(tokens) => first_type_argument(
                arguments@.map_values(|a: GenericArg| a@).skip(start as int),
            ) == Some(tokens@),
            None => first_type_argument(
                arguments@.map_values(|a: GenericArg| a@).skip(start as int),
            ) is None,
        },
    decreases arguments.len() - start,
{
    let ghost views = arguments@.map_values(|a: GenericArg| a@);
    if start == arguments.len() {
        return None;
    }
    assert(views.skip(start as int).drop_first() =~= views.skip(start as int + 1));
    match &arguments[start] {
        GenericArg::Type(tokens) => Some(tokens.as_str()),
        GenericArg::Other => find_type_argument(arguments, start + 1),
    }
}

impl PathTail {
    /// The element type of a `Vec`.
    pub fn vec_element(&self) -> (element: Option<&str>)
        ensures
            match element {
                Some(tokens) => self@.vec_element() == Some(tokens@),
                None => self@.vec_element() is None,
            },
    {
        if text_equals(self.ident.as_str(), "Vec") {
            match &self.arguments {
                Some(arguments) => {
                    assert(arguments@.map_values(|a: GenericArg| a@).skip(0)
                        =~= arguments@.map_values(|a: GenericArg| a@));
                    find_type_argument(arguments, 0)
                },
                None => None,
            }
        } else {
            None
        }
    }
}

impl TypeSyntax {
    /// The numeric kind that the whole type names.
    pub fn scalar_kind(&self) -> (kind: Option<NumericKind>)
        ensures
            kind == self@.scalar_kind(),
    {
        NumericKind::from_name(self.tokens.as_str())
    }

    /// The element type, where the type is a `Vec` of some type.
    pub fn vec_element(&self) -> (element: Option<&str>)
        ensures
            match element {
                Some(tokens) => self@.vec_element() == Some(tokens@),
                None => self@.vec_element() is None,
            },
    {
        match &self.path {
            Some(tail) => tail.vec_element(),
            None => None,
        }
    }

    /// The numeric kind of the elements, where the type is a `Vec` of such.
    pub fn element_kind(&self) -> (kind: Option<NumericKind>)
        ensures
            kind == self@.element_kind(),
    {
        match self.vec_element() {
            Some(element) => NumericKind::from_name(element),
            None => None,
        }
    }

    /// The kind of type that the syntax stands for.
    pub fn declared_type(&self) -> (declared: DeclaredType)
        ensures
            declared == self@.declared_type(),
    {
        let element = self.element_kind();
        if element.is_some() {
            return DeclaredType::Sequence(element);
        }
        match self.scalar_kind() {
            Some(kind) => DeclaredType::Numeric(kind),
            None => {
                if self.vec_element().is_some() {
                    DeclaredType::Sequence(None)
                } else {
                    DeclaredType::Other
                }
            },
        }
    }
}

} // verus!
