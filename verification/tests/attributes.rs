//! Picking, removing and converting the attribute a transformer test names.

use macro_test::attrs::{
    attribute_has_ident, extract_attribute_from_item, find_attribute, path_to_name,
    transform_attribute_to_attribute_args, Attribute, Item, Meta,
};

fn attr(path: &[&str]) -> Attribute {
    Attribute {
        path: path.iter().map(|s| s.to_string()).collect(),
        meta: Some(Meta::Path),
    }
}

#[test]
fn path_to_name_takes_the_last_segment() {
    let p: Vec<String> = vec!["core".to_string(), "fmt".to_string(), "Debug".to_string()];
    assert_eq!(path_to_name(&p), "Debug");
    let single: Vec<String> = vec!["bar".to_string()];
    assert_eq!(path_to_name(&single), "bar");
}

#[test]
fn attribute_name_is_its_last_path_segment() {
    let a = attr(&["serde", "rename"]);
    assert!(attribute_has_ident(&a, "rename"));
    assert!(!attribute_has_ident(&a, "serde"));
    assert!(!attribute_has_ident(&a, "other"));
}

#[test]
fn find_attribute_picks_the_first_match() {
    let attrs = vec![attr(&["derive"]), attr(&["bar"]), attr(&["other", "bar"])];
    assert_eq!(find_attribute(&attrs, "bar"), Some(1));
    assert_eq!(find_attribute(&attrs, "derive"), Some(0));
    assert_eq!(find_attribute(&attrs, "missing"), None);
}

#[test]
fn find_attribute_on_no_attributes_finds_nothing() {
    let attrs: Vec<Attribute> = Vec::new();
    assert_eq!(find_attribute(&attrs, "bar"), None);
}

#[test]
fn extracting_removes_only_the_matched_attribute() {
    let mut item = Item {
        attrs: vec![attr(&["derive"]), attr(&["bar"]), attr(&["bar"])],
    };
    let removed = extract_attribute_from_item(&mut item, "bar");
    assert_eq!(removed.path.last().map(String::as_str), Some("bar"));
    assert_eq!(item.attrs.len(), 2);
    assert_eq!(item.attrs[0].path[0], "derive");
    assert_eq!(item.attrs[1].path[0], "bar");
}

#[test]
fn list_meta_yields_its_nested_arguments() {
    let a = Attribute {
        path: vec!["bar".to_string()],
        meta: Some(Meta::List(vec!["a".to_string(), "b = 1".to_string()])),
    };
    let args = transform_attribute_to_attribute_args(a);
    assert_eq!(args, vec!["a".to_string(), "b = 1".to_string()]);
}

#[test]
fn bare_path_meta_yields_no_arguments() {
    let a = Attribute {
        path: vec!["bar".to_string()],
        meta: Some(Meta::Path),
    };
    assert!(transform_attribute_to_attribute_args(a).is_empty());
}

#[test]
fn name_value_meta_yields_no_arguments() {
    let a = Attribute {
        path: vec!["bar".to_string()],
        meta: Some(Meta::NameValue),
    };
    assert!(transform_attribute_to_attribute_args(a).is_empty());
}
