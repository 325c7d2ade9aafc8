//! Dispatch core for exposing native functions as methods of a dynamic,
//! Ruby-like host runtime.
//!
//! The host calls into registered native code through fixed-arity
//! trampolines. This crate holds the verified heart of that path: typed
//! conversion of call-site handles ([`try_convert::TryConvert`]), a family of
//! arity-indexed adapters that convert arguments left to right, invoke the
//! wrapped function and normalise its result ([`method`] and [`function`]),
//! and the bridge that turns every failure into a single raised host
//! exception ([`boundary`]).

pub mod value;
pub mod error;
pub mod try_convert;
pub mod into_value;
pub mod block;
pub mod return_value;
pub mod method;
pub mod function;
pub mod boundary;
