# cxx_option

`RustOption<T>` is the value that crosses a Rust/C++ bridge in place of an
`Option<T>` whose `T` is pointer-like (`&T`, `&mut T`, `Pin<&mut T>`,
`Box<T>`). The library proves, in Verus, that the conversions between the two
forms are inverse to each other and that reads give back what writes wrote.
It also decides which generic instantiations (`Box<T>`, `Vec<T>`,
`UniquePtr<T>`, `Option<&T>`, ...) a bridge emits symbols for.

- `src/rust_option.rs`: the `OptionFfi` / `OptionFfiInverse` conversion traits,
  `RustOption<T>` and its accessors, and the round-trip laws.
- `src/syntax/types.rs`: the part of the bridge's type syntax that the
  instantiation logic reads.
- `src/syntax/instantiate.rs`: instantiation keys, `Type::impl_key`, and the
  laws that tie the key of an `Option` to the key of what it holds.
- `app/`: the unverified edge: compile-time layout checks, in-place
  reinterpretation of an `Option<T>` as a `RustOption<T>`, raw-pointer
  conversions, and the `extern "C"` entry points for C++.
