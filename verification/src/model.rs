//! The structure description the generator works over: the name and
//! structural kind of the definition, its fields, and the annotations
//! attached to each field.

use vstd::prelude::*;

verus! {

/// One item inside an annotation's parenthesized payload: either a
/// `key = "value"` pair whose value is a string literal, or anything else
/// (a bare path, a nested list, a pair whose value is not a string literal),
/// which never carries a name override.
pub enum NestedItem {
    StrPair { key: String, value: String },
    Other,
}

/// An annotation's payload: the items of a parenthesized list, or an opaque
/// payload — none at all, one that does not parse, or one of another shape.
pub enum AttrPayload {
    Items(Vec<NestedItem>),
    Opaque,
}

/// One annotation attached to a field: its key (the annotation's path,
/// rendered as text) and its payload.
pub struct Attr {
    pub key: String,
    pub payload: AttrPayload,
}

/// One declared field: its identifier and its annotations, in source order.
pub struct FieldDef {
    pub ident: String,
    pub attrs: Vec<Attr>,
}

/// The shape of a struct definition's field list.
pub enum FieldsKind {
    Named(Vec<FieldDef>),
    Unnamed,
    Unit,
}

/// The structural kind of the definition the generator was handed.
pub enum InputData {
    Struct(FieldsKind),
    Enum,
    Union,
}

/// A definition as the generator sees it: its name and its structural kind,
/// with the declared fields where it has any.
pub struct StructInput {
    pub name: String,
    pub data: InputData,
}

} // verus!
