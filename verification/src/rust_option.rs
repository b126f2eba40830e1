use vstd::prelude::*;

verus! {

/// Marker that closes the conversion traits of this module to outside impls.
pub trait Sealed {}

/// The pointer-like types whose `Option` has a niche, and so the size of one pointer.
pub trait OptionPtrTarget: Sealed {}

impl<'a, T> Sealed for &'a T {}

impl<'a, T> OptionPtrTarget for &'a T {}

impl<'a, T> Sealed for &'a mut T {}

impl<'a, T> OptionPtrTarget for &'a mut T {}

/// `core::pin::Pin`, carried through opaquely: a pinned mutable reference is
/// one of the pointer-like types that an FFI option can hold.
#[verifier::external_type_specification]
#[verifier::external_body]
#[verifier::reject_recursive_types(Ptr)]
pub struct ExPin<Ptr>(core::pin::Pin<Ptr>);

impl<'a, T> Sealed for core::pin::Pin<&'a mut T> {}

impl<'a, T> OptionPtrTarget for core::pin::Pin<&'a mut T> {}

impl<T> Sealed for Box<T> {}

impl<T> OptionPtrTarget for Box<T> {}

/// The value that crosses the language boundary in place of an `Option<T>`.
pub struct RustOption<T: OptionPtrTarget> {
    inner: Option<T>,
}

impl<T: OptionPtrTarget> View for RustOption<T> {
    type V = Option<T>;

    /// The option that this FFI value stands for.
    closed spec fn view(&self) -> Option<T> {
        self.inner
    }
}

/// Conversions between an `Option` and the FFI type that stands for it.
pub trait OptionFfi: Sealed + Sized {
    /// The FFI type that this option is mapped to.
    type Target;

    /// The option that an FFI value stands for.
    spec fn ffi_option(target: Self::Target) -> Self;

    /// The FFI value that stands for an option.
    spec fn ffi_target(option: Self) -> Self::Target;

    /// The empty option.
    spec fn ffi_none() -> Self;

    /// Encoding an option and decoding it again gives the option back.
    proof fn lemma_option_target_option(option: Self)
        ensures
            Self::ffi_option(Self::ffi_target(option)) == option,
    ;

    /// Decoding an FFI value and encoding it again gives the FFI value back.
    proof fn lemma_target_option_target(target: Self::Target)
        ensures
            Self::ffi_target(Self::ffi_option(target)) == target,
    ;

    /// An FFI value that holds nothing.
    fn new_ffi() -> (target: Self::Target)
        ensures
            target == Self::ffi_target(Self::ffi_none()),
    ;

    /// Moves an option into its FFI form.
    fn into_ffi(self) -> (target: Self::Target)
        ensures
            target == Self::ffi_target(self),
    ;

    /// Moves an FFI value back into an option.
    fn from_ffi(other: Self::Target) -> (option: Self)
        ensures
            option == Self::ffi_option(other),
    ;

    /// Views an FFI value as the option it stands for.
    fn from_ffi_ref(other: &Self::Target) -> (option: &Self)
        ensures
            *option == Self::ffi_option(*other),
    ;

    /// Borrows an FFI value mutably as the option it stands for; what is
    /// written through the borrow is what the FFI value then holds.
    fn from_ffi_mut(other: &mut Self::Target) -> (option: &mut Self)
        ensures
            *option == Self::ffi_option(*old(other)),
            *final(other) == Self::ffi_target(*final(option)),
    ;
}

impl<T: OptionPtrTarget> Sealed for Option<T> {}

impl<T: OptionPtrTarget> OptionFfi for Option<T> {
    type Target = RustOption<T>;

    open spec fn ffi_option(target: RustOption<T>) -> Option<T> {
        target@
    }

    closed spec fn ffi_target(option: Option<T>) -> RustOption<T> {
        RustOption { inner: option }
    }

    open spec fn ffi_none() -> Option<T> {
        None
    }

    proof fn lemma_option_target_option(option: Option<T>) {
    }

    proof fn lemma_target_option_target(target: RustOption<T>) {
    }

    fn new_ffi() -> (target: RustOption<T>) {
        let none: Option<T> = None;
        none.into_ffi()
    }

    fn into_ffi(self) -> (target: RustOption<T>) {
        RustOption { inner: self }
    }

    fn from_ffi(other: RustOption<T>) -> (option: Option<T>) {
        other.inner
    }

    fn from_ffi_ref(other: &RustOption<T>) -> (option: &Option<T>) {
        &other.inner
    }

    fn from_ffi_mut(other: &mut RustOption<T>) -> (option: &mut Option<T>) {
        &mut other.inner
    }
}

/// The FFI side of the conversion: each FFI type knows the option it stands for.
pub trait OptionFfiInverse: Sealed + Sized {
    /// The Rust option type that this FFI type is mapped to.
    type Target: OptionFfi<Target = Self>;

    /// An FFI value that holds nothing.
    fn new() -> (target: Self)
        ensures
            target == <Self::Target as OptionFfi>::ffi_target(
                <Self::Target as OptionFfi>::ffi_none(),
            ),
    {
        <Self::Target as OptionFfi>::new_ffi()
    }

    /// Moves this FFI value back into the option it stands for.
    fn into_option(self) -> (option: Self::Target)
        ensures
            option == <Self::Target as OptionFfi>::ffi_option(self),
    {
        <Self::Target as OptionFfi>::from_ffi(self)
    }

    /// Views this FFI value as the option it stands for.
    fn as_option(&self) -> (option: &Self::Target)
        ensures
            *option == <Self::Target as OptionFfi>::ffi_option(*self),
    {
        <Self::Target as OptionFfi>::from_ffi_ref(self)
    }

    /// Borrows this FFI value mutably as the option it stands for.
    fn as_mut_option(&mut self) -> (option: &mut Self::Target)
        ensures
            *option == <Self::Target as OptionFfi>::ffi_option(*old(self)),
            *final(self) == <Self::Target as OptionFfi>::ffi_target(*final(option)),
    {
        <Self::Target as OptionFfi>::from_ffi_mut(self)
    }

    /// Moves an option into the FFI value that stands for it.
    fn from_option(other: Self::Target) -> (target: Self)
        ensures
            target == <Self::Target as OptionFfi>::ffi_target(other),
    {
        <Self::Target as OptionFfi>::into_ffi(other)
    }
}

/// For every FFI type: moving a value out to its option and back gives the
/// value back, and moving an option in and back out gives the option back.
pub proof fn lemma_ffi_inverse_roundtrip<F: OptionFfiInverse>(target: F, option: F::Target)
    ensures
        <F::Target as OptionFfi>::ffi_target(<F::Target as OptionFfi>::ffi_option(target))
            == target,
        <F::Target as OptionFfi>::ffi_option(<F::Target as OptionFfi>::ffi_target(option))
            == option,
{
    <F::Target as OptionFfi>::lemma_target_option_target(target);
    <F::Target as OptionFfi>::lemma_option_target_option(option);
}

/// A `RustOption` is fully described by the option it stands for: the FFI
/// value made from an option stands for that option, one made from nothing
/// holds nothing, and two that stand for the same option are the same.
pub proof fn lemma_rust_option_view<T: OptionPtrTarget>(
    option: Option<T>,
    a: RustOption<T>,
    b: RustOption<T>,
)
    ensures
        <Option<T> as OptionFfi>::ffi_target(option)@ == option,
        <Option<T> as OptionFfi>::ffi_target(<Option<T> as OptionFfi>::ffi_none())@ is None,
        a@ == b@ ==> a == b,
{
}

impl<T: OptionPtrTarget> Sealed for RustOption<T> {}

impl<T: OptionPtrTarget> OptionFfiInverse for RustOption<T> {
    type Target = Option<T>;
}

impl<T: OptionPtrTarget> RustOption<T> {
    /// A borrow of the held value, if there is one.
    pub fn value(&self) -> (value: Option<&T>)
        ensures
            match self@ {
                Some(v) => value == Some(&v),
                None => value is None,
            },
    {
        self.as_option().as_ref()
    }

    /// Whether a value is held.
    pub fn has_value(&self) -> (has: bool)
        ensures
            has == self@ is Some,
    {
        self.as_option().is_some()
    }

    /// Holds `value`, in place of whatever was held before.
    pub fn set(&mut self, value: T)
        ensures
            final(self)@ == Some(value),
    {
        let option = self.as_mut_option();
        *option = Some(value);
        proof {
            <Option<T> as OptionFfi>::lemma_option_target_option(Some(value));
        }
    }

    /// A mutable borrow of the held value, which must be there.
    pub fn as_ref_mut_inner_unchecked(&mut self) -> (inner: &mut T)
        requires
            old(self)@ is Some,
        ensures
            *inner == old(self)@->0,
            final(self)@ == Some(*final(inner)),
    {
        proof {
            <Option<T> as OptionFfi>::lemma_option_target_option(old(self)@);
        }
        self.as_mut_option().as_mut().unwrap()
    }
}

} // verus!
