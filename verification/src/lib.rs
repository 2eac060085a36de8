//! Field-enumeration code generation for structures with named fields.
//!
//! Given a description of a structure definition — its name, its structural
//! kind, and its fields with their annotations — the generator produces one
//! entry per declared field, in declaration order: the field's display name
//! (an annotation override where present, the identifier otherwise) beside
//! the field's identifier, and renders the source of an implementation whose
//! method hands out, for a borrowed instance, one (display name, type-erased
//! borrow of the field's value) pair per field.
//!
//! Structures of any other shape — enums, unions, tuple structs, unit
//! structs — are refused with a diagnostic naming the unsupported kind.

pub mod extract;
pub mod generate;
pub mod laws;
pub mod model;
pub mod render;
