//! An FFI-stable stand-in for `Option<T>` over pointer-like `T`, with verified
//! conversions in both directions, and the bookkeeping that decides which
//! generic instantiations a bridge has to emit.

pub mod rust_option;
pub mod syntax;
