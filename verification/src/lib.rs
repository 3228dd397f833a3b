//! Conversions from every leaf type of a tree of enums to every ancestor.
//!
//! Where enums wrap one another in single-field variants, this library
//! plans and writes the `From` impls that lead from each wrapped type up to
//! each enum above it. The expansion runs type by type: for one enum the
//! driver emits, variant by variant, the conversion from the wrapped type
//! and, where the policy asks for it, a request to continue at that type
//! with the path so far.
//!
//! - [`action`] and [`options`]: the policy of a variant and the
//!   configuration of a type.
//! - [`accumulator`]: the path from the root down to the variant in hand;
//!   [`steps`]: the sequence that holds its steps.
//! - [`emitter`]: the source of one conversion function.
//! - [`driver`]: what the variants of one enum contribute.
//! - [`entry`]: the operations that the macros invoke.
//! - [`tree`] and [`laws`]: a whole tree of enums, and what holds of every
//!   expansion.
//! - [`syntax`] and [`token`]: declarations and token streams as the rest
//!   reads them; [`outside`]: what is taken from `syn` and `telety`.

pub mod accumulator;
pub mod action;
pub mod driver;
pub mod emitter;
pub mod entry;
pub mod error;
pub mod impl_type;
pub mod laws;
pub mod options;
pub mod outside;
pub mod steps;
pub mod syntax;
pub mod token;
pub mod tree;
