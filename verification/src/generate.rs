//! The field-enumeration generator: from a structure description, one entry
//! per declared field, in declaration order — or the refusal that names the
//! unsupported structural kind.

use vstd::prelude::*;
use vstd::string::StringExecFns;
use crate::extract::{display_name, spec_display_name};
use crate::model::{FieldDef, FieldsKind, InputData, StructInput};

verus! {

/// One generated entry: the display name that will label the field, beside
/// the field's own identifier, which the emitted expression borrows from
/// `self`.
#[derive(Debug)]
pub struct FieldEntry {
    pub name: String,
    pub ident: String,
}

impl View for FieldEntry {
    type V = (Seq<char>, Seq<char>);

    open spec fn view(&self) -> (Seq<char>, Seq<char>) {
        (self.name@, self.ident@)
    }
}

/// The generated implementation: the structure it attaches to, and its
/// entries, one per declared field, in declaration order.
#[derive(Debug)]
pub struct IterImpl {
    pub struct_name: String,
    pub entries: Vec<FieldEntry>,
}

impl View for IterImpl {
    type V = (Seq<char>, Seq<(Seq<char>, Seq<char>)>);

    open spec fn view(&self) -> Self::V {
        (self.struct_name@, Seq::new(self.entries@.len(), |i: int| self.entries@[i]@))
    }
}

/// Why generation was refused: the definition's structural kind does not
/// carry named fields.
#[derive(Clone, Copy, Debug, PartialEq, Eq, Structural)]
pub enum DeriveError {
    EnumNotSupported,
    UnionNotSupported,
    TupleStructNotSupported,
    UnitStructNotSupported,
}

/// The diagnostic owed for each refusal, naming the unsupported kind.
pub open spec fn spec_message(e: DeriveError) -> Seq<char> {
    match e {
        DeriveError::EnumNotSupported => "enums are not supported, only structs with named fields"@,
        DeriveError::UnionNotSupported => "unions are not supported, only structs with named fields"@,
        DeriveError::TupleStructNotSupported => "tuple structs are not supported, only structs with named fields"@,
        DeriveError::UnitStructNotSupported => "unit structs are not supported, only structs with named fields"@,
    }
}

impl DeriveError {
    /// The diagnostic for this refusal, naming the unsupported kind.
    pub fn message(&self) -> (r: String)
        ensures
            r@ == spec_message(*self),
    {
        match self {
            DeriveError::EnumNotSupported => String::from_str(
                "enums are not supported, only structs with named fields",
            ),
            DeriveError::UnionNotSupported => String::from_str(
                "unions are not supported, only structs with named fields",
            ),
            DeriveError::TupleStructNotSupported => String::from_str(
                "tuple structs are not supported, only structs with named fields",
            ),
            DeriveError::UnitStructNotSupported => String::from_str(
                "unit structs are not supported, only structs with named fields",
            ),
        }
    }
}

/// The entry views owed to a declared field list: the i-th entry pairs the
/// i-th field's display name with that field's identifier.
pub open spec fn spec_entry_views(fields: Seq<FieldDef>) -> Seq<(Seq<char>, Seq<char>)> {
    Seq::new(fields.len(), |i: int| (spec_display_name(fields[i]), fields[i].ident@))
}

/// What the generator owes on every input: the full entry list for every
/// struct with named fields, and the exact refusal for every other kind.
pub open spec fn generation_matches(input: StructInput, r: Result<IterImpl, DeriveError>) -> bool {
    match input.data {
        InputData::Struct(FieldsKind::Named(fields)) => (r matches Ok(g) && g@.0 == input.name@
            && g@.1 == spec_entry_views(fields@)),
        InputData::Struct(FieldsKind::Unnamed) => r == Err::<IterImpl, DeriveError>(
            DeriveError::TupleStructNotSupported,
        ),
        InputData::Struct(FieldsKind::Unit) => r == Err::<IterImpl, DeriveError>(
            DeriveError::UnitStructNotSupported,
        ),
        InputData::Enum => r == Err::<IterImpl, DeriveError>(DeriveError::EnumNotSupported),
        InputData::Union => r == Err::<IterImpl, DeriveError>(DeriveError::UnionNotSupported),
    }
}

/// The field-enumeration generator. For a struct with named fields it
/// returns, in declaration order, one entry per field, each carrying the
/// field's display name — the override where a well-formed recognized
/// annotation is present, the identifier otherwise — beside the field's
/// identifier; a struct with zero fields gets an empty entry list. For an
/// enum, a union, a tuple struct or a unit struct it returns the refusal
/// naming that kind.
pub fn derive_iterable(input: &StructInput) -> (r: Result<IterImpl, DeriveError>)
    ensures
        generation_matches(*input, r),
{
    match &input.data {
        InputData::Struct(FieldsKind::Named(fields)) => {
            let mut entries: Vec<FieldEntry> = Vec::new();
            let mut i: usize = 0;
            while i < fields.len()
                invariant
                    i <= fields@.len(),
                    entries@.len() == i as int,
                    forall|j: int|
                        0 <= j < i as int ==> entries@[j]@ == (
                            #[trigger] spec_display_name(fields@[j]),
                            fields@[j].ident@,
                        ),
                decreases fields@.len() - i,
            {
                let name = display_name(&fields[i]);
                let ident = fields[i].ident.clone();
                entries.push(FieldEntry { name, ident });
                i += 1;
            }
            let g = IterImpl { struct_name: input.name.clone(), entries };
            proof {
                assert(g@.1 =~= spec_entry_views(fields@));
            }
            Ok(g)
        },
        InputData::Struct(FieldsKind::Unnamed) => Err(DeriveError::TupleStructNotSupported),
        InputData::Struct(FieldsKind::Unit) => Err(DeriveError::UnitStructNotSupported),
        InputData::Enum => Err(DeriveError::EnumNotSupported),
        InputData::Union => Err(DeriveError::UnionNotSupported),
    }
}

} // verus!
