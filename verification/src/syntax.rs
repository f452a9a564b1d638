//! The written form of a host function environment.
//!
//! These types hold what a definition says, before any of it is checked: a module
//! of items, each function with its attributes, its inputs and its output type.
//! The `B` parameter is the function's body, which this crate carries and never
//! inspects.

use vstd::prelude::*;

verus! {

/// An attribute written above a function.
#[derive(Debug)]
pub struct Attribute {
    /// The attribute's name, where its path is a single identifier.
    pub ident: Option<String>,
    /// What the attribute is applied to: for `cfg`, the feature that must be
    /// enabled for the function to be built.
    pub argument: String,
}

impl Attribute {
    /// A copy of this attribute.
    pub fn duplicate(&self) -> (copy: Attribute)
        ensures
            copy == *self,
    {
        let ident = match &self.ident {
            Some(name) => Some(name.clone()),
            None => None,
        };
        Attribute { ident, argument: self.argument.clone() }
    }
}

/// One segment of a path, such as `Result<u32, TrapReason>` in
/// `core::result::Result<u32, TrapReason>`.
#[derive(Debug)]
pub struct PathSegment {
    pub ident: String,
    pub arguments: PathArguments,
}

/// What follows the identifier of a path segment.
#[derive(Debug)]
pub enum PathArguments {
    /// Nothing, as in `u32`.
    Empty,
    /// Arguments in angle brackets, as in `Result<u32, TrapReason>`.
    AngleBracketed(Vec<GenericArgument>),
    /// Arguments in round brackets, as in `Fn(u32)`.
    Parenthesized,
}

/// One argument between angle brackets.
#[derive(Debug)]
pub enum GenericArgument {
    /// A type.
    Type(Type),
    /// Anything else: a lifetime, a constant, a binding.
    Other,
}

/// A path that names a type.
#[derive(Debug)]
pub struct TypePath {
    /// Whether the path starts with `::`.
    pub leading_colon: bool,
    pub segments: Vec<PathSegment>,
}

/// A type as written.
#[derive(Debug)]
pub enum Type {
    /// A path, such as `u32`.
    Path(TypePath),
    /// A reference, such as `&mut M`.
    Reference,
    /// A tuple; `()` is the tuple without elements.
    Tuple(Vec<Type>),
    /// Any other form of type.
    Other,
}

/// The pattern that binds an input.
#[derive(Debug)]
pub enum Pat {
    /// A plain name.
    Ident(String),
    /// Any other pattern.
    Other,
}

/// One input of a function.
#[derive(Debug)]
pub enum FnArg {
    /// `self` in one of its forms.
    Receiver { reference: bool, mutability: bool },
    /// A pattern with its type.
    Typed { pat: Pat, ty: Type },
}

/// The output of a function.
#[derive(Debug)]
pub enum ReturnType {
    /// No type is written.
    Omitted,
    /// The type after `->`.
    Type(Type),
}

/// A function as written.
#[derive(Debug)]
pub struct ItemFn<B> {
    pub attrs: Vec<Attribute>,
    pub ident: String,
    pub inputs: Vec<FnArg>,
    pub output: ReturnType,
    pub block: B,
}

/// An item of a module.
#[derive(Debug)]
pub enum Item<B> {
    Fn(ItemFn<B>),
    /// Anything that is not a function.
    Other,
}

/// A module as written.
#[derive(Debug)]
pub struct ItemMod<B> {
    /// The items between the module's braces; `None` for `mod name;`.
    pub content: Option<Vec<Item<B>>>,
}

impl TypePath {
    /// The single identifier this path consists of, if it is one: no leading
    /// `::`, one segment, no arguments.
    pub open spec fn spec_get_ident(self) -> Option<Seq<char>> {
        if !self.leading_colon && self.segments@.len() == 1
            && self.segments@[0].arguments is Empty {
            Some(self.segments@[0].ident@)
        } else {
            None
        }
    }

    /// The single identifier this path consists of, if it is one.
    pub fn get_ident(&self) -> (ident: Option<&String>)
        ensures
            match ident {
                Some(name) => self.spec_get_ident() == Some(name@),
                None => self.spec_get_ident() is None,
            },
    {
        if !self.leading_colon && self.segments.len() == 1 {
            match &self.segments[0].arguments {
                PathArguments::Empty => Some(&self.segments[0].ident),
                _ => None,
            }
        } else {
            None
        }
    }
}

} // verus!
