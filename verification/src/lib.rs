//! Dialect-compatible scalar functions for a columnar query engine.
//!
//! A logical function name owns one or more typed overloads. A call is
//! resolved to the first overload whose signature accepts the argument types,
//! and the overload's kernel is applied to columnar input with nulls passed
//! through.
#![allow(non_camel_case_types)]

pub mod column;
pub mod error;
pub mod facade;
pub mod hex;
pub mod kernel;
pub mod overload;
pub mod registry;
pub mod signature;
pub mod simplify;
pub mod temporal;
pub mod trino;
pub mod types;
pub mod utils;
