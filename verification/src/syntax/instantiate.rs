use vstd::prelude::*;

use crate::syntax::types::{Ref, Symbol, Ty1, Type};
use core::hash::Hash;
use core::hash::Hasher;
use proc_macro2::Span;
use vstd::std_specs::cmp::PartialEqSpec;
use vstd::std_specs::cmp::PartialEqSpecImpl;

verus! {

/// A generic instantiation that a bridge may have to emit symbols for.
#[derive(PartialEq, Eq, Hash)]
pub enum ImplKey<'a> {
    RustBox(NamedImplKey<'a>),
    RustVec(NamedImplKey<'a>),
    RustOption(OptionInner<'a>),
    UniquePtr(NamedImplKey<'a>),
    SharedPtr(NamedImplKey<'a>),
    WeakPtr(NamedImplKey<'a>),
    CxxVector(NamedImplKey<'a>),
}

/// The instantiations of `Option<T>` that have an FFI form.
#[derive(PartialEq, Eq, Hash)]
pub enum OptionInner<'a> {
    RustBox(NamedImplKey<'a>),
    Ref(NamedImplKey<'a>),
    MutRef(NamedImplKey<'a>),
    RefVec(NamedImplKey<'a>),
    MutRefVec(NamedImplKey<'a>),
}

/// What `is_implicit_impl_ok` answers for `key`: yes for an `Option`, and
/// otherwise what `is_local` says of the key's type argument.
pub open spec fn implicit_impl_ok<'a, F: Fn(&Type) -> bool>(key: ImplKey<'a>, is_local: F, ok: bool) -> bool {
    match key {
        ImplKey::RustOption(_) => ok,
        _ => call_ensures(is_local, (key.named().inner,), ok),
    }
}

/// Which instantiation a key stands for, without its data.
#[derive(PartialEq, Eq, Structural, Clone, Copy)]
pub enum KeyKind {
    RustBox,
    RustVec,
    UniquePtr,
    SharedPtr,
    WeakPtr,
    CxxVector,
    OptionRustBox,
    OptionRef,
    OptionMutRef,
    OptionRefVec,
    OptionMutRefVec,
}

/// One instantiation of a generic type: the generic type, its argument, and
/// the mangled name of the argument, by which instantiations are told apart.
pub struct NamedImplKey<'a> {
    pub begin_span: Span,
    /// Mangled form of the `inner` type.
    pub symbol: Symbol,
    /// Generic type, such as `UniquePtr<u8>`.
    pub outer: &'a Type,
    /// Generic type argument, such as `u8` from `UniquePtr<u8>`.
    pub inner: &'a Type,
    pub end_span: Span,
}

/// Two keys are the same instantiation when the mangled names of their
/// arguments agree.
impl<'a> PartialEq for NamedImplKey<'a> {
    fn eq(&self, other: &Self) -> (same: bool) {
        PartialEq::eq(&self.symbol, &other.symbol)
    }
}

impl<'a> PartialEqSpecImpl for NamedImplKey<'a> {
    open spec fn obeys_eq_spec() -> bool {
        true
    }

    open spec fn eq_spec(&self, other: &Self) -> bool {
        self.symbol.0@ == other.symbol.0@
    }
}

impl<'a> Eq for NamedImplKey<'a> {}

/// `<String as Hash>::hash`: feeds the string into the hasher. Nothing is
/// stated of the hasher's state afterwards.
pub assume_specification<H: Hasher>[ <String as Hash>::hash::<H> ](s: &String, state: &mut H);

impl<'a> Hash for NamedImplKey<'a> {
    fn hash<H: Hasher>(&self, hasher: &mut H) {
        self.symbol.0.hash(hasher);
    }
}

impl<'a> ImplKey<'a> {
    /// The kind of instantiation this key stands for.
    pub open spec fn kind(self) -> KeyKind {
        match self {
            ImplKey::RustBox(_) => KeyKind::RustBox,
            ImplKey::RustVec(_) => KeyKind::RustVec,
            ImplKey::UniquePtr(_) => KeyKind::UniquePtr,
            ImplKey::SharedPtr(_) => KeyKind::SharedPtr,
            ImplKey::WeakPtr(_) => KeyKind::WeakPtr,
            ImplKey::CxxVector(_) => KeyKind::CxxVector,
            ImplKey::RustOption(OptionInner::RustBox(_)) => KeyKind::OptionRustBox,
            ImplKey::RustOption(OptionInner::Ref(_)) => KeyKind::OptionRef,
            ImplKey::RustOption(OptionInner::MutRef(_)) => KeyKind::OptionMutRef,
            ImplKey::RustOption(OptionInner::RefVec(_)) => KeyKind::OptionRefVec,
            ImplKey::RustOption(OptionInner::MutRefVec(_)) => KeyKind::OptionMutRefVec,
        }
    }

    /// The instantiation that this key holds, whatever its kind.
    pub open spec fn named(self) -> NamedImplKey<'a> {
        match self {
            ImplKey::RustBox(key)
            | ImplKey::RustVec(key)
            | ImplKey::UniquePtr(key)
            | ImplKey::SharedPtr(key)
            | ImplKey::WeakPtr(key)
            | ImplKey::CxxVector(key) => key,
            ImplKey::RustOption(option_inner) => match option_inner {
                OptionInner::RustBox(key)
                | OptionInner::Ref(key)
                | OptionInner::MutRef(key)
                | OptionInner::RefVec(key)
                | OptionInner::MutRefVec(key) => key,
            },
        }
    }

    /// Whether to produce FFI symbols for this instantiation even where the
    /// bridge holds no explicit `impl Foo<T> {}` for it. An instantiation must
    /// not be emitted in two places, which the orphan rule guarantees for one
    /// whose argument is local to the bridge; an `Option` is always emitted.
    /// `is_local` tells whether a type is local to the bridge.
    pub fn is_implicit_impl_ok<F: Fn(&Type) -> bool>(&self, is_local: &F) -> (ok: bool)
        requires
            call_requires(*is_local, (self.named().inner,)),
        ensures
            implicit_impl_ok(*self, *is_local, ok),
    {
        match self {
            ImplKey::RustOption(_) => true,
            _ => is_local(self.inner()),
        }
    }

    /// The type argument of the instantiation: `u32` for `UniquePtr<u32>`.
    fn inner(&self) -> (inner: &'a Type)
        ensures
            inner == self.named().inner,
    {
        let named_impl_key = match self {
            ImplKey::RustBox(key)
            | ImplKey::RustVec(key)
            | ImplKey::UniquePtr(key)
            | ImplKey::SharedPtr(key)
            | ImplKey::WeakPtr(key)
            | ImplKey::CxxVector(key) => key,
            ImplKey::RustOption(option_inner) => match option_inner {
                OptionInner::RustBox(key)
                | OptionInner::Ref(key)
                | OptionInner::MutRef(key)
                | OptionInner::RefVec(key)
                | OptionInner::MutRefVec(key) => key,
            },
        };
        named_impl_key.inner
    }
}

/// What `NamedImplKey::new` gives for the instantiation `outer`, whose generic
/// part is `ty1`: a key for the argument `ty1.inner` when `mangle` names it,
/// and nothing when `mangle` does not.
pub open spec fn named_key_from<'a, F: Fn(&Type) -> Option<Symbol>>(
    outer: &'a Type,
    ty1: &'a Ty1,
    mangle: F,
    key: Option<NamedImplKey<'a>>,
) -> bool {
    match key {
        Some(k) => {
            &&& call_ensures(mangle, (&ty1.inner,), Some(k.symbol))
            &&& k.outer == outer
            &&& k.inner == &ty1.inner
            &&& k.end_span == ty1.rangle
        },
        None => call_ensures(mangle, (&ty1.inner,), None::<Symbol>),
    }
}

/// `key` is what `impl_key` gives when the instantiation is of kind `kind`
/// and reads `outer` and `ty1` as `named_key_from` says.
pub open spec fn keyed<'a, F: Fn(&Type) -> Option<Symbol>>(
    key: Option<ImplKey<'a>>,
    kind: KeyKind,
    outer: &'a Type,
    ty1: &'a Ty1,
    mangle: F,
) -> bool {
    match key {
        Some(k) => k.kind() == kind && named_key_from(outer, ty1, mangle, Some(k.named())),
        None => named_key_from(outer, ty1, mangle, None),
    }
}

/// The instantiation key of a type, as `Type::impl_key` computes it: one for
/// each generic type of the bridge, and for `Option` of a `Box`, of a
/// reference to a named type, or of a reference to a `Vec`.
pub open spec fn impl_key_of<'a, F: Fn(&Type) -> Option<Symbol>>(
    ty: &'a Type,
    mangle: F,
    key: Option<ImplKey<'a>>,
) -> bool {
    match ty {
        Type::RustBox(t) => keyed(key, KeyKind::RustBox, ty, t, mangle),
        Type::RustVec(t) => keyed(key, KeyKind::RustVec, ty, t, mangle),
        Type::UniquePtr(t) => keyed(key, KeyKind::UniquePtr, ty, t, mangle),
        Type::SharedPtr(t) => keyed(key, KeyKind::SharedPtr, ty, t, mangle),
        Type::WeakPtr(t) => keyed(key, KeyKind::WeakPtr, ty, t, mangle),
        Type::CxxVector(t) => keyed(key, KeyKind::CxxVector, ty, t, mangle),
        Type::RustOption(t) => match &t.inner {
            Type::RustBox(b) => keyed(key, KeyKind::OptionRustBox, &t.inner, b, mangle),
            Type::Ref(r) => match &r.inner {
                Type::RustVec(v) => keyed(
                    key,
                    if r.mutable { KeyKind::OptionMutRefVec } else { KeyKind::OptionRefVec },
                    &r.inner,
                    v,
                    mangle,
                ),
                Type::Ident(_) => keyed(
                    key,
                    if r.mutable { KeyKind::OptionMutRef } else { KeyKind::OptionRef },
                    ty,
                    t,
                    mangle,
                ),
                _ => key is None,
            },
            _ => key is None,
        },
        _ => key is None,
    }
}

/// `mangle` gives one mangled name, or none, for each type.
pub open spec fn mangles_deterministically<F: Fn(&Type) -> Option<Symbol>>(mangle: F) -> bool {
    forall|t: &Type, a: Option<Symbol>, b: Option<Symbol>|
        call_ensures(mangle, (t,), a) && call_ensures(mangle, (t,), b) ==> a == b
}

/// Two keys stand for the same instantiation of the same argument: the same
/// symbol, the same generic type and argument, the same closing bracket.
pub open spec fn same_instantiation<'a>(a: NamedImplKey<'a>, b: NamedImplKey<'a>) -> bool {
    &&& a.symbol == b.symbol
    &&& a.outer == b.outer
    &&& a.inner == b.inner
    &&& a.end_span == b.end_span
}

/// `Option<Box<T>>` is keyed by the instantiation of `Box<T>`: the one has a
/// key exactly when the other has, and then both name the same instantiation.
pub proof fn lemma_option_box_keyed_as_box<'a, F: Fn(&Type) -> Option<Symbol>>(
    ty: &'a Type,
    ty1: &'a Ty1,
    mangle: F,
    option_key: Option<ImplKey<'a>>,
    box_key: Option<ImplKey<'a>>,
)
    requires
        *ty == Type::RustOption(Box::new(*ty1)),
        ty1.inner is RustBox,
        mangles_deterministically(mangle),
        impl_key_of(ty, mangle, option_key),
        impl_key_of(&ty1.inner, mangle, box_key),
    ensures
        option_key is Some <==> box_key is Some,
        option_key is Some ==> {
            &&& option_key->0.kind() == KeyKind::OptionRustBox
            &&& box_key->0.kind() == KeyKind::RustBox
            &&& same_instantiation(option_key->0.named(), box_key->0.named())
        },
{
}

/// `Option<&Vec<T>>` and `Option<&mut Vec<T>>` are keyed by the instantiation
/// of `Vec<T>`: the one has a key exactly when the other has, and then both
/// name the same instantiation.
pub proof fn lemma_option_vec_ref_keyed_as_vec<'a, F: Fn(&Type) -> Option<Symbol>>(
    ty: &'a Type,
    ty1: &'a Ty1,
    r: &'a Ref,
    mangle: F,
    option_key: Option<ImplKey<'a>>,
    vec_key: Option<ImplKey<'a>>,
)
    requires
        *ty == Type::RustOption(Box::new(*ty1)),
        ty1.inner == Type::Ref(Box::new(*r)),
        r.inner is RustVec,
        mangles_deterministically(mangle),
        impl_key_of(ty, mangle, option_key),
        impl_key_of(&r.inner, mangle, vec_key),
    ensures
        option_key is Some <==> vec_key is Some,
        option_key is Some ==> {
            &&& option_key->0.kind() == (if r.mutable {
                KeyKind::OptionMutRefVec
            } else {
                KeyKind::OptionRefVec
            })
            &&& vec_key->0.kind() == KeyKind::RustVec
            &&& same_instantiation(option_key->0.named(), vec_key->0.named())
        },
{
}

/// The generic part of a type written with one type argument: `Box<T>`,
/// `Vec<T>`, `UniquePtr<T>`, `SharedPtr<T>`, `WeakPtr<T>` or `CxxVector<T>`.
pub open spec fn one_argument_generic(ty: Type) -> Option<Ty1> {
    match ty {
        Type::RustBox(t) => Some(*t),
        Type::RustVec(t) => Some(*t),
        Type::UniquePtr(t) => Some(*t),
        Type::SharedPtr(t) => Some(*t),
        Type::WeakPtr(t) => Some(*t),
        Type::CxxVector(t) => Some(*t),
        _ => None,
    }
}

/// The kind of instantiation that each generic type with one argument is.
pub open spec fn generic_kind(ty: Type) -> KeyKind {
    match ty {
        Type::RustBox(_) => KeyKind::RustBox,
        Type::RustVec(_) => KeyKind::RustVec,
        Type::UniquePtr(_) => KeyKind::UniquePtr,
        Type::SharedPtr(_) => KeyKind::SharedPtr,
        Type::WeakPtr(_) => KeyKind::WeakPtr,
        _ => KeyKind::CxxVector,
    }
}

/// Each variant of a key holds its instantiation unchanged: the instantiation
/// that `named` reads from a key is the one it was built from.
pub proof fn lemma_key_holds_its_instantiation<'a>(k: NamedImplKey<'a>)
    ensures
        ImplKey::RustBox(k).named() == k,
        ImplKey::RustVec(k).named() == k,
        ImplKey::UniquePtr(k).named() == k,
        ImplKey::SharedPtr(k).named() == k,
        ImplKey::WeakPtr(k).named() == k,
        ImplKey::CxxVector(k).named() == k,
        ImplKey::RustOption(OptionInner::RustBox(k)).named() == k,
        ImplKey::RustOption(OptionInner::Ref(k)).named() == k,
        ImplKey::RustOption(OptionInner::MutRef(k)).named() == k,
        ImplKey::RustOption(OptionInner::RefVec(k)).named() == k,
        ImplKey::RustOption(OptionInner::MutRefVec(k)).named() == k,
{
}

/// An instantiation of `Option` is always emitted implicitly, whatever is local.
pub proof fn lemma_option_always_implicit<'a, F: Fn(&Type) -> bool>(
    inner: OptionInner<'a>,
    is_local: F,
    ok: bool,
)
    requires
        implicit_impl_ok(ImplKey::RustOption(inner), is_local, ok),
    ensures
        ok,
{
}

/// Any other instantiation is emitted implicitly exactly when its type
/// argument (not the generic type) is local to the bridge.
pub proof fn lemma_other_implicit_when_argument_local<'a, F: Fn(&Type) -> bool>(
    k: NamedImplKey<'a>,
    is_local: F,
    ok: bool,
)
    ensures
        implicit_impl_ok(ImplKey::RustBox(k), is_local, ok) <==> call_ensures(is_local, (k.inner,), ok),
        implicit_impl_ok(ImplKey::RustVec(k), is_local, ok) <==> call_ensures(is_local, (k.inner,), ok),
        implicit_impl_ok(ImplKey::UniquePtr(k), is_local, ok) <==> call_ensures(is_local, (k.inner,), ok),
        implicit_impl_ok(ImplKey::SharedPtr(k), is_local, ok) <==> call_ensures(is_local, (k.inner,), ok),
        implicit_impl_ok(ImplKey::WeakPtr(k), is_local, ok) <==> call_ensures(is_local, (k.inner,), ok),
        implicit_impl_ok(ImplKey::CxxVector(k), is_local, ok) <==> call_ensures(is_local, (k.inner,), ok),
{
}

/// Every key that `impl_key` gives carries, as its symbol, the mangled name
/// of its own type argument.
pub proof fn lemma_key_symbol_is_mangled_argument<'a, F: Fn(&Type) -> Option<Symbol>>(
    ty: &'a Type,
    mangle: F,
    key: Option<ImplKey<'a>>,
)
    requires
        impl_key_of(ty, mangle, key),
    ensures
        key matches Some(k) ==> call_ensures(mangle, (k.named().inner,), Some(k.named().symbol)),
{
}

/// A generic type with one argument is keyed by that argument: the key is of
/// the type's own kind, its generic type is the type itself and its argument
/// the type argument; there is a key exactly when the argument has a mangled
/// name.
pub proof fn lemma_generic_keyed_by_argument<'a, F: Fn(&Type) -> Option<Symbol>>(
    ty: &'a Type,
    mangle: F,
    key: Option<ImplKey<'a>>,
)
    requires
        one_argument_generic(*ty) is Some,
        mangles_deterministically(mangle),
        impl_key_of(ty, mangle, key),
    ensures
        key matches Some(k) ==> {
            &&& k.kind() == generic_kind(*ty)
            &&& *k.named().outer == *ty
            &&& *k.named().inner == one_argument_generic(*ty)->0.inner
            &&& k.named().end_span == one_argument_generic(*ty)->0.rangle
        },
        key is None <==> call_ensures(
            mangle,
            (&one_argument_generic(*ty)->0.inner,),
            None::<Symbol>,
        ),
{
}

/// `Option<&T>` and `Option<&mut T>` of a named `T` are keyed by the reference
/// type itself: the generic type is the option, the argument is `&T` or
/// `&mut T`, and only the kind depends on the mutability; there is a key
/// exactly when the reference type has a mangled name.
pub proof fn lemma_option_ref_keyed_by_reference<'a, F: Fn(&Type) -> Option<Symbol>>(
    ty: &'a Type,
    ty1: Ty1,
    r: Ref,
    mangle: F,
    key: Option<ImplKey<'a>>,
)
    requires
        *ty == Type::RustOption(Box::new(ty1)),
        ty1.inner == Type::Ref(Box::new(r)),
        r.inner is Ident,
        mangles_deterministically(mangle),
        impl_key_of(ty, mangle, key),
    ensures
        key matches Some(k) ==> {
            &&& k.kind() == (if r.mutable {
                KeyKind::OptionMutRef
            } else {
                KeyKind::OptionRef
            })
            &&& *k.named().outer == *ty
            &&& *k.named().inner == ty1.inner
            &&& k.named().end_span == ty1.rangle
        },
        key is None <==> call_ensures(mangle, (&ty1.inner,), None::<Symbol>),
{
}

/// Only the generic types with one argument, and `Option` of a `Box`, of a
/// reference to a named type or of a reference to a `Vec`, have keys.
pub proof fn lemma_only_instantiations_have_keys<'a, F: Fn(&Type) -> Option<Symbol>>(
    ty: &'a Type,
    mangle: F,
    key: Option<ImplKey<'a>>,
)
    requires
        impl_key_of(ty, mangle, key),
        key is Some,
    ensures
        one_argument_generic(*ty) is Some || (ty matches Type::RustOption(t) && (t.inner is RustBox
            || (t.inner matches Type::Ref(r) && (r.inner is Ident || r.inner is RustVec)))),
{
}

/// Two instantiation keys are equal exactly when the texts of their symbols
/// are equal, whatever else they hold.
pub proof fn lemma_key_equality_is_symbol_text<'a>(a: NamedImplKey<'a>, b: NamedImplKey<'a>)
    ensures
        PartialEqSpec::eq_spec(&a, &b) <==> a.symbol.0@ == b.symbol.0@,
        PartialEqSpec::eq_spec(&a.symbol, &b.symbol) <==> a.symbol.0@ == b.symbol.0@,
{
}

impl<'a> NamedImplKey<'a> {
    /// The key of the instantiation `outer`, whose generic part is `ty1`,
    /// where `mangle` gives the mangled name of a type that has one.
    fn new<F: Fn(&Type) -> Option<Symbol>>(outer: &'a Type, ty1: &'a Ty1, mangle: &F) -> (key:
        Option<Self>)
        requires
            call_requires(*mangle, (&ty1.inner,)),
        ensures
            named_key_from(outer, ty1, *mangle, key),
    {
        let inner = &ty1.inner;
        let symbol = match mangle(inner) {
            Some(symbol) => symbol,
            None => return None,
        };
        Some(NamedImplKey { symbol, begin_span: ty1.name.span(), outer, inner, end_span: ty1.rangle })
    }
}

impl Type {
    /// The generic instantiation that this type stands for, if it is one that
    /// the bridge emits symbols for and `mangle` names its argument.
    pub fn impl_key<'a, F: Fn(&Type) -> Option<Symbol>>(&'a self, mangle: &F) -> (key: Option<
        ImplKey<'a>,
    >)
        requires
            forall|t: &Type| call_requires(*mangle, (t,)),
        ensures
            impl_key_of(self, *mangle, key),
        decreases self,
    {
        match self {
            Type::RustBox(ty) => match NamedImplKey::new(self, ty, mangle) {
                Some(k) => Some(ImplKey::RustBox(k)),
                None => None,
            },
            Type::RustVec(ty) => match NamedImplKey::new(self, ty, mangle) {
                Some(k) => Some(ImplKey::RustVec(k)),
                None => None,
            },
            Type::RustOption(ty) => match &ty.inner {
                Type::RustBox(_) => {
                    let impl_key = match ty.inner.impl_key(mangle) {
                        Some(impl_key) => impl_key,
                        None => return None,
                    };
                    match impl_key {
                        ImplKey::RustBox(named) => Some(ImplKey::RustOption(OptionInner::RustBox(named))),
                        _ => {
                            proof {
                                assert(false);
                            }
                            None
                        },
                    }
                },
                Type::Ref(r) => match &r.inner {
                    Type::RustVec(_) => {
                        if let Some(ImplKey::RustVec(impl_key)) = r.inner.impl_key(mangle) {
                            if r.mutable {
                                Some(ImplKey::RustOption(OptionInner::MutRefVec(impl_key)))
                            } else {
                                Some(ImplKey::RustOption(OptionInner::RefVec(impl_key)))
                            }
                        } else {
                            None
                        }
                    },
                    Type::Ident(_) => {
                        let named = match NamedImplKey::new(self, ty, mangle) {
                            Some(named) => named,
                            None => return None,
                        };
                        if r.mutable {
                            Some(ImplKey::RustOption(OptionInner::MutRef(named)))
                        } else {
                            Some(ImplKey::RustOption(OptionInner::Ref(named)))
                        }
                    },
                    _ => None,
                },
                _ => None,
            },
            Type::UniquePtr(ty) => match NamedImplKey::new(self, ty, mangle) {
                Some(k) => Some(ImplKey::UniquePtr(k)),
                None => None,
            },
            Type::SharedPtr(ty) => match NamedImplKey::new(self, ty, mangle) {
                Some(k) => Some(ImplKey::SharedPtr(k)),
                None => None,
            },
            Type::WeakPtr(ty) => match NamedImplKey::new(self, ty, mangle) {
                Some(k) => Some(ImplKey::WeakPtr(k)),
                None => None,
            },
            Type::CxxVector(ty) => match NamedImplKey::new(self, ty, mangle) {
                Some(k) => Some(ImplKey::CxxVector(k)),
                None => None,
            },
            _ => None,
        }
    }
}

} // verus!
