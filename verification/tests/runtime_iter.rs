//! Exercises the code the generator emits: the implementation below is
//! letter for letter the text that `render` produces for `MyStruct`, and the
//! first test holds the two against each other.

use std::any::Any;

use struct_iterable_derive::generate::derive_iterable;
use struct_iterable_derive::model::{FieldDef, FieldsKind, InputData, StructInput};
use struct_iterable_internal::Iterable;

struct MyStruct {
    field1: i32,
    field2: String,
}

impl Iterable for MyStruct {
    fn iter<'a>(&'a self) -> std::vec::IntoIter<(&'static str, &'a dyn std::any::Any)> {
        vec![
            ("field1", &(self.field1) as &dyn std::any::Any),
            ("field2", &(self.field2) as &dyn std::any::Any),
        ].into_iter()
    }
}

fn my_struct_input() -> StructInput {
    StructInput {
        name: "MyStruct".to_string(),
        data: InputData::Struct(FieldsKind::Named(vec![
            FieldDef { ident: "field1".to_string(), attrs: Vec::new() },
            FieldDef { ident: "field2".to_string(), attrs: Vec::new() },
        ])),
    }
}

#[test]
fn emitted_text_is_the_impl_above() {
    let g = derive_iterable(&my_struct_input()).unwrap();
    let expected = "impl Iterable for MyStruct {\n    fn iter<'a>(&'a self) -> std::vec::IntoIter<(&'static str, &'a dyn std::any::Any)> {\n        vec![\n            (\"field1\", &(self.field1) as &dyn std::any::Any),\n            (\"field2\", &(self.field2) as &dyn std::any::Any),\n        ].into_iter()\n    }\n}\n";
    assert_eq!(g.render(), expected);
}

#[test]
fn entries_are_in_declaration_order() {
    let instance = MyStruct { field1: 42, field2: "Hello, world!".to_string() };
    let names: Vec<&'static str> = instance.iter().map(|(name, _)| name).collect();
    assert_eq!(names, vec!["field1", "field2"]);
}

#[test]
fn recovered_values_equal_stored_values() {
    let mut instance = MyStruct { field1: 42, field2: "Hello, world!".to_string() };
    let entries: Vec<(&'static str, &dyn Any)> = instance.iter().collect();
    assert_eq!(*entries[0].1.downcast_ref::<i32>().unwrap(), 42);
    assert_eq!(entries[1].1.downcast_ref::<String>().unwrap(), "Hello, world!");

    // A later call sees the values as they stand then, not a stale snapshot.
    instance.field1 = 7;
    instance.field2 = "changed".to_string();
    let entries: Vec<(&'static str, &dyn Any)> = instance.iter().collect();
    assert_eq!(*entries[0].1.downcast_ref::<i32>().unwrap(), 7);
    assert_eq!(entries[1].1.downcast_ref::<String>().unwrap(), "changed");
}

#[test]
fn two_calls_on_one_instance_agree() {
    let instance = MyStruct { field1: -3, field2: "same".to_string() };
    let first: Vec<(&'static str, &dyn Any)> = instance.iter().collect();
    let second: Vec<(&'static str, &dyn Any)> = instance.iter().collect();
    assert_eq!(first.len(), second.len());
    for ((n1, v1), (n2, v2)) in first.iter().zip(second.iter()) {
        assert_eq!(n1, n2);
        match (v1.downcast_ref::<i32>(), v2.downcast_ref::<i32>()) {
            (Some(a), Some(b)) => assert_eq!(a, b),
            (None, None) => assert_eq!(
                v1.downcast_ref::<String>().unwrap(),
                v2.downcast_ref::<String>().unwrap()
            ),
            _ => panic!("entries of one position disagree in type"),
        }
    }
}
