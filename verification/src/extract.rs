//! The attribute-value extractor: scanning a field's annotations, in order,
//! for the first well-formed override of the field's display name.

use vstd::prelude::*;
use vstd::string::StringExecFns;
use crate::model::{Attr, AttrPayload, FieldDef, NestedItem};

verus! {

/// The one annotation key the generator recognizes.
pub open spec fn recognized_key() -> Seq<char> {
    "field_name"@
}

/// Whether `key` is the recognized annotation key.
pub fn is_recognized_key(key: &String) -> (r: bool)
    ensures
        r == (key@ == recognized_key()),
{
    let lit = String::from_str("field_name");
    *key == lit
}

/// The override one payload item yields, if any: the string value of a pair
/// whose inner key is the recognized one.
pub open spec fn spec_item_override(item: NestedItem) -> Option<Seq<char>> {
    match item {
        NestedItem::StrPair { key, value } => if key@ == recognized_key() {
            Some(value@)
        } else {
            None
        },
        NestedItem::Other => None,
    }
}

/// The override a payload's item list yields: the first item that yields one.
pub open spec fn spec_items_override(items: Seq<NestedItem>) -> Option<Seq<char>>
    decreases items.len(),
{
    if items.len() == 0 {
        None
    } else {
        match spec_item_override(items[0]) {
            Some(v) => Some(v),
            None => spec_items_override(items.drop_first()),
        }
    }
}

/// The override one annotation yields: the first well-formed recognized pair
/// of its payload, provided the annotation's own key is the recognized one.
/// A foreign key or an opaque payload yields nothing — never an error.
pub open spec fn spec_attr_override(attr: Attr) -> Option<Seq<char>> {
    if attr.key@ == recognized_key() {
        match attr.payload {
            AttrPayload::Items(items) => spec_items_override(items@),
            AttrPayload::Opaque => None,
        }
    } else {
        None
    }
}

/// The override an annotation list yields: the first annotation that yields
/// one. An annotation that yields none is passed over, so a later annotation
/// stays eligible.
pub open spec fn spec_find_override(attrs: Seq<Attr>) -> Option<Seq<char>>
    decreases attrs.len(),
{
    if attrs.len() == 0 {
        None
    } else {
        match spec_attr_override(attrs[0]) {
            Some(v) => Some(v),
            None => spec_find_override(attrs.drop_first()),
        }
    }
}

/// A field's display name, from its identifier and its annotations: the
/// override where one is present, else the identifier, unchanged.
pub open spec fn spec_display_name_of(ident: Seq<char>, attrs: Seq<Attr>) -> Seq<char> {
    match spec_find_override(attrs) {
        Some(n) => n,
        None => ident,
    }
}

/// A field's display name.
pub open spec fn spec_display_name(f: FieldDef) -> Seq<char> {
    spec_display_name_of(f.ident@, f.attrs@)
}

fn item_override(item: &NestedItem) -> (r: Option<String>)
    ensures
        match r {
            Some(s) => spec_item_override(*item) == Some(s@),
            None => spec_item_override(*item) is None,
        },
{
    match item {
        NestedItem::StrPair { key, value } => {
            if is_recognized_key(key) {
                Some(value.clone())
            } else {
                None
            }
        },
        NestedItem::Other => None,
    }
}

fn items_override(items: &Vec<NestedItem>) -> (r: Option<String>)
    ensures
        match r {
            Some(s) => spec_items_override(items@) == Some(s@),
            None => spec_items_override(items@) is None,
        },
{
    let mut i: usize = 0;
    proof {
        assert(items@.skip(0) =~= items@);
    }
    while i < items.len()
        invariant
            i <= items@.len(),
            spec_items_override(items@) == spec_items_override(items@.skip(i as int)),
        decreases items@.len() - i,
    {
        proof {
            assert(items@.skip(i as int)[0] == items@[i as int]);
            assert(items@.skip(i as int).drop_first() =~= items@.skip(i as int + 1));
        }
        let cur = item_override(&items[i]);
        if cur.is_some() {
            return cur;
        }
        i += 1;
    }
    proof {
        assert(items@.skip(i as int) =~= Seq::<NestedItem>::empty());
    }
    None
}

/// The override one annotation carries, if any.
pub fn attr_override(attr: &Attr) -> (r: Option<String>)
    ensures
        match r {
            Some(s) => spec_attr_override(*attr) == Some(s@),
            None => spec_attr_override(*attr) is None,
        },
{
    if !is_recognized_key(&attr.key) {
        return None;
    }
    match &attr.payload {
        AttrPayload::Items(items) => items_override(items),
        AttrPayload::Opaque => None,
    }
}

/// The override a field's annotation list carries, if any: the first
/// annotation that yields one, scanned in source order.
pub fn find_override(attrs: &Vec<Attr>) -> (r: Option<String>)
    ensures
        match r {
            Some(s) => spec_find_override(attrs@) == Some(s@),
            None => spec_find_override(attrs@) is None,
        },
{
    let mut i: usize = 0;
    proof {
        assert(attrs@.skip(0) =~= attrs@);
    }
    while i < attrs.len()
        invariant
            i <= attrs@.len(),
            spec_find_override(attrs@) == spec_find_override(attrs@.skip(i as int)),
        decreases attrs@.len() - i,
    {
        proof {
            assert(attrs@.skip(i as int)[0] == attrs@[i as int]);
            assert(attrs@.skip(i as int).drop_first() =~= attrs@.skip(i as int + 1));
        }
        let cur = attr_override(&attrs[i]);
        if cur.is_some() {
            return cur;
        }
        i += 1;
    }
    proof {
        assert(attrs@.skip(i as int) =~= Seq::<Attr>::empty());
    }
    None
}

/// A field's display name: the first well-formed override among its
/// annotations where one is present, else its own identifier, unchanged.
pub fn display_name(f: &FieldDef) -> (r: String)
    ensures
        r@ == spec_display_name(*f),
{
    match find_override(&f.attrs) {
        Some(s) => s,
        None => f.ident.clone(),
    }
}

} // verus!
