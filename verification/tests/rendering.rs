use struct_iterable_derive::generate::derive_iterable;
use struct_iterable_derive::model::{
    Attr, AttrPayload, FieldDef, FieldsKind, InputData, NestedItem, StructInput,
};
use struct_iterable_derive::render::escaped;

fn field(ident: &str) -> FieldDef {
    FieldDef { ident: ident.to_string(), attrs: Vec::new() }
}

fn named_input(name: &str, fields: Vec<FieldDef>) -> StructInput {
    StructInput { name: name.to_string(), data: InputData::Struct(FieldsKind::Named(fields)) }
}

fn override_attr(value: &str) -> Attr {
    Attr {
        key: "field_name".to_string(),
        payload: AttrPayload::Items(vec![NestedItem::StrPair {
            key: "field_name".to_string(),
            value: value.to_string(),
        }]),
    }
}

#[test]
fn render_two_fields_exact_text() {
    let input = named_input("MyStruct", vec![field("count"), field("label")]);
    let g = derive_iterable(&input).unwrap();
    let expected = "impl Iterable for MyStruct {\n    fn iter<'a>(&'a self) -> std::vec::IntoIter<(&'static str, &'a dyn std::any::Any)> {\n        vec![\n            (\"count\", &(self.count) as &dyn std::any::Any),\n            (\"label\", &(self.label) as &dyn std::any::Any),\n        ].into_iter()\n    }\n}\n";
    assert_eq!(g.render(), expected);
}

#[test]
fn render_zero_fields_exact_text() {
    let input = named_input("Empty", Vec::new());
    let g = derive_iterable(&input).unwrap();
    let expected = "impl Iterable for Empty {\n    fn iter<'a>(&'a self) -> std::vec::IntoIter<(&'static str, &'a dyn std::any::Any)> {\n        vec![\n        ].into_iter()\n    }\n}\n";
    assert_eq!(g.render(), expected);
}

#[test]
fn render_uses_override_name() {
    let input = named_input("S", vec![FieldDef {
        ident: "label".to_string(),
        attrs: vec![override_attr("Label Name")],
    }]);
    let g = derive_iterable(&input).unwrap();
    let rendered = g.render();
    assert!(rendered.contains("(\"Label Name\", &(self.label) as &dyn std::any::Any),\n"));
    assert!(!rendered.contains("(\"label\""));
}

#[test]
fn render_escapes_display_name() {
    let input = named_input("S", vec![FieldDef {
        ident: "label".to_string(),
        attrs: vec![override_attr("he said \"hi\" \\ twice\n")],
    }]);
    let g = derive_iterable(&input).unwrap();
    let rendered = g.render();
    assert!(rendered.contains("(\"he said \\\"hi\\\" \\\\ twice\\n\", &(self.label)"));
}

#[test]
fn escaped_leaves_plain_text_alone() {
    assert_eq!(escaped("plain text 42"), "plain text 42");
}

#[test]
fn escaped_rewrites_specials() {
    assert_eq!(escaped("a\\b\"c\nd\re\tf"), "a\\\\b\\\"c\\nd\\re\\tf");
}
