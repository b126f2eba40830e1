use cxx_option::syntax::instantiate::{ImplKey, OptionInner};
use cxx_option::syntax::types::{NamedType, Ref, Symbol, Ty1, Type};
use proc_macro2::{Ident, Span};
use std::collections::hash_map::DefaultHasher;
use std::hash::{Hash, Hasher};

fn ident(name: &str) -> Ident {
    Ident::new(name, Span::call_site())
}

fn named(name: &str) -> Type {
    Type::Ident(NamedType { rust: ident(name) })
}

fn ty1(outer: &str, inner: Type) -> Box<Ty1> {
    Box::new(Ty1 { name: ident(outer), inner, rangle: Span::call_site() })
}

fn reference(inner: Type, mutable: bool) -> Type {
    Type::Ref(Box::new(Ref { inner, mutable }))
}

/// Names every identifier but `Unresolved`, and references by their referent.
fn mangle(t: &Type) -> Option<Symbol> {
    match t {
        Type::Ident(n) => {
            let s = n.rust.to_string();
            if s == "Unresolved" {
                None
            } else {
                Some(Symbol(s))
            }
        }
        Type::Ref(r) => mangle(&r.inner).map(|s| Symbol(format!("ref${}", s.0))),
        Type::RustVec(t) => mangle(&t.inner).map(|s| Symbol(format!("rust_vec${}", s.0))),
        _ => None,
    }
}

fn symbol_of(key: &ImplKey) -> String {
    let named = match key {
        ImplKey::RustBox(k)
        | ImplKey::RustVec(k)
        | ImplKey::UniquePtr(k)
        | ImplKey::SharedPtr(k)
        | ImplKey::WeakPtr(k)
        | ImplKey::CxxVector(k) => k,
        ImplKey::RustOption(o) => match o {
            OptionInner::RustBox(k)
            | OptionInner::Ref(k)
            | OptionInner::MutRef(k)
            | OptionInner::RefVec(k)
            | OptionInner::MutRefVec(k) => k,
        },
    };
    named.symbol.0.clone()
}

#[test]
fn unique_ptr_is_keyed_by_its_argument() {
    let ty = Type::UniquePtr(ty1("UniquePtr", named("Foo")));
    let key = ty.impl_key(&mangle).unwrap();
    match &key {
        ImplKey::UniquePtr(k) => {
            assert_eq!(k.symbol.0, "Foo");
            assert!(std::ptr::eq(k.outer, &ty));
            match k.inner {
                Type::Ident(n) => assert_eq!(n.rust.to_string(), "Foo"),
                _ => panic!("argument is not the named type"),
            }
        }
        _ => panic!("wrong kind"),
    }
}

#[test]
fn each_generic_type_gets_its_own_kind() {
    let cases = vec![
        Type::RustBox(ty1("Box", named("A"))),
        Type::RustVec(ty1("Vec", named("A"))),
        Type::SharedPtr(ty1("SharedPtr", named("A"))),
        Type::WeakPtr(ty1("WeakPtr", named("A"))),
        Type::CxxVector(ty1("CxxVector", named("A"))),
    ];
    let keys: Vec<ImplKey> = cases.iter().map(|t| t.impl_key(&mangle).unwrap()).collect();
    assert!(matches!(keys[0], ImplKey::RustBox(_)));
    assert!(matches!(keys[1], ImplKey::RustVec(_)));
    assert!(matches!(keys[2], ImplKey::SharedPtr(_)));
    assert!(matches!(keys[3], ImplKey::WeakPtr(_)));
    assert!(matches!(keys[4], ImplKey::CxxVector(_)));
    for k in &keys {
        assert_eq!(symbol_of(k), "A");
    }
}

#[test]
fn unresolved_argument_has_no_key() {
    let ty = Type::UniquePtr(ty1("UniquePtr", named("Unresolved")));
    assert!(ty.impl_key(&mangle).is_none());
    let ty = Type::RustOption(ty1("Option", Type::RustBox(ty1("Box", named("Unresolved")))));
    assert!(ty.impl_key(&mangle).is_none());
}

#[test]
fn non_generic_types_have_no_key() {
    assert!(named("Foo").impl_key(&mangle).is_none());
    assert!(Type::Other(Span::call_site()).impl_key(&mangle).is_none());
    assert!(reference(named("Foo"), false).impl_key(&mangle).is_none());
}

#[test]
fn option_of_box_is_keyed_as_the_box() {
    let ty = Type::RustOption(ty1("Option", Type::RustBox(ty1("Box", named("Foo")))));
    let key = ty.impl_key(&mangle).unwrap();
    match &key {
        ImplKey::RustOption(OptionInner::RustBox(k)) => {
            assert_eq!(k.symbol.0, "Foo");
            match k.outer {
                Type::RustBox(_) => {}
                _ => panic!("outer is not the Box"),
            }
        }
        _ => panic!("wrong kind"),
    }
}

#[test]
fn option_of_reference_is_keyed_by_the_reference() {
    let ty = Type::RustOption(ty1("Option", reference(named("Foo"), false)));
    let key = ty.impl_key(&mangle).unwrap();
    match &key {
        ImplKey::RustOption(OptionInner::Ref(k)) => {
            assert_eq!(k.symbol.0, "ref$Foo");
            assert!(std::ptr::eq(k.outer, &ty));
        }
        _ => panic!("wrong kind"),
    }
    let ty = Type::RustOption(ty1("Option", reference(named("Foo"), true)));
    assert!(matches!(ty.impl_key(&mangle), Some(ImplKey::RustOption(OptionInner::MutRef(_)))));
}

#[test]
fn option_of_vec_reference_is_keyed_as_the_vec() {
    let ty = Type::RustOption(ty1("Option", reference(Type::RustVec(ty1("Vec", named("Foo"))), false)));
    let key = ty.impl_key(&mangle).unwrap();
    match &key {
        ImplKey::RustOption(OptionInner::RefVec(k)) => {
            assert_eq!(k.symbol.0, "Foo");
            assert!(matches!(k.outer, Type::RustVec(_)));
        }
        _ => panic!("wrong kind"),
    }
    let ty = Type::RustOption(ty1("Option", reference(Type::RustVec(ty1("Vec", named("Foo"))), true)));
    assert!(matches!(ty.impl_key(&mangle), Some(ImplKey::RustOption(OptionInner::MutRefVec(_)))));
}

#[test]
fn other_options_have_no_key() {
    let ty = Type::RustOption(ty1("Option", named("Foo")));
    assert!(ty.impl_key(&mangle).is_none());
    let ty = Type::RustOption(ty1("Option", reference(Type::Other(Span::call_site()), false)));
    assert!(ty.impl_key(&mangle).is_none());
    let ty = Type::RustOption(ty1("Option", Type::UniquePtr(ty1("UniquePtr", named("Foo")))));
    assert!(ty.impl_key(&mangle).is_none());
}

#[test]
fn options_are_always_emitted_implicitly() {
    let ty = Type::RustOption(ty1("Option", reference(named("Foo"), false)));
    let key = ty.impl_key(&mangle).unwrap();
    assert!(key.is_implicit_impl_ok(&|_: &Type| false));
}

#[test]
fn other_instantiations_are_emitted_when_their_argument_is_local() {
    let ty = Type::UniquePtr(ty1("UniquePtr", named("Local")));
    let key = ty.impl_key(&mangle).unwrap();
    let is_local = |t: &Type| matches!(t, Type::Ident(n) if n.rust == "Local");
    assert!(key.is_implicit_impl_ok(&is_local));
    let ty = Type::UniquePtr(ty1("UniquePtr", named("Remote")));
    let key = ty.impl_key(&mangle).unwrap();
    assert!(!key.is_implicit_impl_ok(&is_local));
}

fn hash_of<T: Hash>(t: &T) -> u64 {
    let mut h = DefaultHasher::new();
    t.hash(&mut h);
    h.finish()
}

#[test]
fn keys_with_the_same_symbol_are_equal() {
    let a = Type::UniquePtr(ty1("UniquePtr", named("Foo")));
    let b = Type::UniquePtr(ty1("UniquePtr", named("Foo")));
    let c = Type::UniquePtr(ty1("UniquePtr", named("Bar")));
    let ka = a.impl_key(&mangle).unwrap();
    let kb = b.impl_key(&mangle).unwrap();
    let kc = c.impl_key(&mangle).unwrap();
    assert!(ka == kb);
    assert!(ka != kc);
    assert_eq!(hash_of(&ka), hash_of(&kb));
    let v = Type::RustVec(ty1("Vec", named("Foo")));
    let kv = v.impl_key(&mangle).unwrap();
    assert!(ka != kv);
}

#[test]
fn symbols_compare_by_text() {
    assert!(Symbol(String::from("a$b")) == Symbol(String::from("a$b")));
    assert!(Symbol(String::from("a$b")) != Symbol(String::from("a$c")));
}
