//! Rust functions and Rust values for R.
//!
//! Two things are needed so that R can call Rust: for a Rust function, a wrapper that takes and
//! gives R objects ([`wrappers`]); for a Rust value, an R object that leads to it
//! ([`externalptr`]).
//!
//! * [`syntax`] holds what is read of a function's signature.
//! * [`names`] and [`attributes`] hold what is derived from it.
//! * [`item_names`] holds what the generated functions are called.
//! * [`rejection`] says which functions cannot be wrapped, and why.
//! * [`wrappers`] makes the generated functions, which [`items`] describes and [`code`] writes
//!   out.
//! * [`laws`] states what holds of all this as a whole, [`naming_laws`], [`parameter_laws`] and
//!   [`code_laws`] what holds of every name, parameter and source text, and [`call_laws`] what every
//!   call gives.
//! * [`outside`] holds what is taken from other crates and not proved here.

pub mod attributes;
pub mod call_laws;
pub mod code;
pub mod code_laws;
pub mod externalptr;
pub mod item_names;
pub mod items;
pub mod laws;
pub mod names;
pub mod naming_laws;
pub mod outside;
pub mod parameter_laws;
pub mod rejection;
pub mod syntax;
pub mod wrappers;
