//! Reading a declared type out of the syntax tree that `syn` parsed.
//!
//! A value of `syn` is opaque to the verifier. What the generator looks at in
//! it has a name here, and the functions that take a type apart are trusted
//! to hand out what the names stand for. Every decision on what was read is
//! made elsewhere, on a [`TypeSyntax`].

use vstd::prelude::*;
use crate::declared::{
    GenericArg, GenericArgView, PathTail, PathTailView, TypeSyntax, TypeSyntaxView,
};

verus! {

/// `syn::Type`, a type as `syn` parsed it. Nothing of it is known here but
/// what the names below stand for.
#[verifier::external_type_specification]
#[verifier::external_body]
pub struct ExType(syn::Type);

/// The text under which the tokens of the type print. A type whose tokens
/// the compiler holds prints as the compiler spaces them, any other as
/// `proc_macro2` does; a type of one identifier prints as that identifier.
pub uninterp spec fn type_text(ty: syn::Type) -> Seq<char>;

/// The name of the last segment of the type's path; `None` for a type that is
/// no path.
pub uninterp spec fn tail_name(ty: syn::Type) -> Option<Seq<char>>;

/// What the list between the angle brackets of the last segment holds: its
/// arguments in their order, each type among them as the text of its tokens;
/// `None` for a type that is no path or whose last segment has no angle
/// brackets.
pub uninterp spec fn tail_arguments(ty: syn::Type) -> Option<Seq<GenericArgView>>;

/// What is read of a type: the text of its tokens and, of a path, the name
/// and the generic arguments of the last segment.
pub open spec fn syntax_of(ty: syn::Type) -> TypeSyntaxView {
    TypeSyntaxView {
        tokens: type_text(ty),
        path: match tail_name(ty) {
            Some(ident) => Some(PathTailView { ident, arguments: tail_arguments(ty) }),
            None => None,
        },
    }
}

/// `quote::ToTokens::to_token_stream` on a `syn::Type`, then the `Display` of
/// the `proc_macro2::TokenStream`. The text depends on the type alone, and
/// the contract gives it its name; it says nothing of what the text is.
#[verifier::external_body]
fn type_tokens(ty: &syn::Type) -> (text: String)
    ensures
        text@ == type_text(*ty),
{
    quote::ToTokens::to_token_stream(ty).to_string()
}

/// `syn::punctuated::Punctuated::last` on the segments of a
/// `syn::Type::Path`, then the `Display` of the segment's
/// `proc_macro2::Ident`. The contract gives the result its name: the name of
/// the last segment, or `None` for a type of another variant or a path
/// without a segment.
#[verifier::external_body]
fn tail_ident(ty: &syn::Type) -> (ident: Option<String>)
    ensures
        match ident {
            Some(name) => tail_name(*ty) == Some(name@),
            None => tail_name(*ty) is None,
        },
{
    match ty {
        syn::Type::Path(type_path) => match type_path.path.segments.last() {
            Some(segment) => Some(segment.ident.to_string()),
            None => None,
        },
        _ => None,
    }
}

/// `syn::punctuated::Punctuated::len` on the arguments of a last segment that
/// is `syn::PathArguments::AngleBracketed`. The contract says that this is
/// the length of what the list holds, and `None` where there is no such list.
#[verifier::external_body]
fn argument_count(ty: &syn::Type) -> (count: Option<usize>)
    ensures
        match count {
            Some(n) => tail_arguments(*ty) matches Some(held) && held.len() == n,
            None => tail_arguments(*ty) is None,
        },
{
    match ty {
        syn::Type::Path(type_path) => match type_path.path.segments.last() {
            Some(
                syn::PathSegment { arguments: syn::PathArguments::AngleBracketed(list), .. },
            ) => Some(list.args.len()),
            _ => None,
        },
        _ => None,
    }
}

/// `syn::punctuated::Punctuated::get` on the same list, and for an argument
/// that is a `syn::GenericArgument::Type` the printing of its tokens as in
/// `type_tokens`. The contract says that this is what the list holds at the
/// index.
#[verifier::external_body]
fn argument_at(ty: &syn::Type, index: usize) -> (argument: GenericArg)
    requires
        tail_arguments(*ty) matches Some(held) && index < held.len(),
    ensures
        argument@ == tail_arguments(*ty)->0[index as int],
{
    match ty {
        syn::Type::Path(type_path) => match type_path.path.segments.last() {
            Some(
                syn::PathSegment { arguments: syn::PathArguments::AngleBracketed(list), .. },
            ) => match list.args.get(index) {
                Some(syn::GenericArgument::Type(argument)) => {
                    GenericArg::Type(quote::ToTokens::to_token_stream(argument).to_string())
                },
                _ => GenericArg::Other,
            },
            _ => GenericArg::Other,
        },
        _ => GenericArg::Other,
    }
}

/// Reads the generic arguments of the last segment, in their order.
fn read_arguments(ty: &syn::Type) -> (read: Option<Vec<GenericArg>>)
    ensures
        match read {
            Some(arguments) => tail_arguments(*ty) == Some(
                arguments@.map_values(|a: GenericArg| a@),
            ),
            None => tail_arguments(*ty) is None,
        },
{
    let count = match argument_count(ty) {
        Some(count) => count,
        None => {
            return None;
        },
    };
    let ghost held = tail_arguments(*ty)->0;
    let mut arguments: Vec<GenericArg> = Vec::new();
    let mut i: usize = 0;
    while i < count
        invariant
            i <= count,
            tail_arguments(*ty) == Some(held),
            held.len() == count,
            arguments@.map_values(|a: GenericArg| a@) == held.take(i as int),
        decreases count - i,
    {
        let argument = argument_at(ty, i);
        arguments.push(argument);
        assert(arguments@.map_values(|a: GenericArg| a@) =~= held.take(i as int).push(
            held[i as int],
        ));
        assert(held.take(i + 1) =~= held.take(i as int).push(held[i as int]));
        i += 1;
    }
    assert(held.take(count as int) =~= held);
    Some(arguments)
}

impl TypeSyntax {
    /// Reads what the generator looks at in a declared type: the text of its
    /// tokens and, of a path, the name and the generic arguments of the last
    /// segment.
    pub fn read(ty: &syn::Type) -> (syntax: TypeSyntax)
        ensures
            syntax@ == syntax_of(*ty),
    {
        let tokens = type_tokens(ty);
        let path = match tail_ident(ty) {
            Some(ident) => Some(PathTail { ident, arguments: read_arguments(ty) }),
            None => None,
        };
        TypeSyntax { tokens, path }
    }
}

} // verus!
