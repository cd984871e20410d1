//! Core of a small expression language for reshaping structured events:
//! a dynamic value model, a static type system over value shapes, a
//! function registry with compile-time argument binding, and two
//! execution backends (a tree-walking interpreter and a native dispatch
//! table) that are proved to agree.

pub mod kind;
pub mod typedef;
pub mod value;
pub mod error;
pub mod state;
pub mod text;
pub mod expression;
pub mod downcase;
pub mod function;
pub mod binder;
pub mod vm;
pub mod session;
pub mod laws;
