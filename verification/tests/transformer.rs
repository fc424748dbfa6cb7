//! The end-to-end check a transformer test performs, on a declaration
//! parsed with syn: an identity transformer applied to an annotated
//! declaration, with the annotation stripped, must reproduce the same
//! declaration up to whitespace.

use macro_test::attrs::{find_attribute, transform_attribute_to_attribute_args, Attribute, Meta};
use macro_test::text::matches_modulo_whitespace;
use quote::ToTokens;

fn attribute_to_model(a: &syn::Attribute) -> Attribute {
    let path: Vec<String> = a.path.segments.iter().map(|s| s.ident.to_string()).collect();
    let meta = match a.parse_meta() {
        Ok(syn::Meta::Path(_)) => Some(Meta::Path),
        Ok(syn::Meta::List(l)) => Some(Meta::List(
            l.nested.iter().map(|n| n.to_token_stream().to_string()).collect(),
        )),
        Ok(syn::Meta::NameValue(_)) => Some(Meta::NameValue),
        Err(_) => None,
    };
    Attribute { path, meta }
}

#[test]
fn foo() {
    // bar is the identity transformer: whatever declaration comes in goes out.
    let mut item: syn::Item = syn::parse_str("#[bar]\nstruct S {\n    foo: usize,\n}").unwrap();
    let attrs = match &mut item {
        syn::Item::Struct(s) => &mut s.attrs,
        _ => panic!("Could not extract attributes"),
    };
    let model: Vec<Attribute> = attrs.iter().map(attribute_to_model).collect();
    let idx = find_attribute(&model, "bar").expect("Could not find expected attribute");
    let removed = attrs.remove(idx);
    let args = transform_attribute_to_attribute_args(attribute_to_model(&removed));
    assert!(args.is_empty());
    // the identity transformer returns the stripped declaration's tokens
    let implementation = item.to_token_stream();
    let expected: proc_macro2::TokenStream = "struct S {\n    foo: usize,\n}".parse().unwrap();
    assert!(matches_modulo_whitespace(
        &implementation.to_string(),
        &expected.to_string()
    ));
}
