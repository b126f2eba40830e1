use vstd::prelude::*;

use proc_macro2::Ident;
use proc_macro2::Span;
use vstd::std_specs::cmp::PartialEqSpecImpl;

verus! {

/// `proc_macro2::Ident`, carried through opaquely.
#[verifier::external_type_specification]
#[verifier::external_body]
pub struct ExIdent(proc_macro2::Ident);

/// `proc_macro2::Span`, carried through opaquely.
#[verifier::external_type_specification]
#[verifier::external_body]
pub struct ExSpan(proc_macro2::Span);

/// `proc_macro2::Ident::span`: the span that the identifier carries. Nothing is
/// stated of it: a span is opaque here, and is only stored for diagnostics.
pub assume_specification[ proc_macro2::Ident::span ](ident: &Ident) -> Span;

/// A mangled name, as it appears in the exported symbols of an instantiation.
pub struct Symbol(pub String);

impl PartialEq for Symbol {
    fn eq(&self, other: &Self) -> (same: bool) {
        self.0 == other.0
    }
}

impl PartialEqSpecImpl for Symbol {
    open spec fn obeys_eq_spec() -> bool {
        true
    }

    open spec fn eq_spec(&self, other: &Self) -> bool {
        self.0@ == other.0@
    }
}

impl Eq for Symbol {}

/// A type named by an identifier.
pub struct NamedType {
    pub rust: Ident,
}

/// A generic type with one type argument, such as `Box<T>` or `UniquePtr<T>`.
pub struct Ty1 {
    /// The generic type's name, such as `Box`.
    pub name: Ident,
    /// The type argument.
    pub inner: Type,
    /// Where the closing angle bracket stands.
    pub rangle: Span,
}

/// A reference type `&T` or `&mut T`.
pub struct Ref {
    pub inner: Type,
    pub mutable: bool,
}

/// The types that a bridge can mention.
pub enum Type {
    Ident(NamedType),
    RustBox(Box<Ty1>),
    RustVec(Box<Ty1>),
    RustOption(Box<Ty1>),
    UniquePtr(Box<Ty1>),
    SharedPtr(Box<Ty1>),
    WeakPtr(Box<Ty1>),
    Ref(Box<Ref>),
    CxxVector(Box<Ty1>),
    /// Every other form (`str`, slices, raw pointers, arrays, function
    /// pointers, `()`), none of which an instantiation is keyed on.
    Other(Span),
}

} // verus!
