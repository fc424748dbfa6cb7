//! The shape a transformer function must have, and the expansion that
//! makes it testable.
//!
//! A transformer takes the arguments of the attribute that invoked it and
//! the token stream of the annotated declaration, and returns the rewritten
//! token stream. `signature_as_expected` checks that a function declaration
//! has exactly that shape, and `implement` produces the source text of its
//! expansion: an attribute entry point that forwards to the transformer,
//! plus an `implementation` module that leaves the transformer reachable
//! from tests.

use vstd::prelude::*;

use crate::text::str_eq;

verus! {

/// The shape of a type, as far as the checks read it: a path type, of
/// which only the segment names are kept, or any other form.
pub enum Type {
    Path(Vec<String>),
    Other,
}

/// One parameter of a function signature: a `self` receiver, or a typed
/// parameter of which only the type's shape is kept.
pub enum FnArg {
    Receiver,
    Typed(Type),
}

/// The return type of a function signature: omitted, or a written type
/// of which only the shape is kept.
pub enum ReturnType {
    Omitted,
    Typed(Type),
}

/// A function signature, reduced to what the checks read of it.
pub struct Signature {
    pub ident: String,
    pub inputs: Vec<FnArg>,
    pub output: ReturnType,
}

/// A function declaration: its signature, together with the token text of
/// its parameter list, its return type and its body block.
pub struct ItemFn {
    pub sig: Signature,
    pub inputs_text: String,
    pub output_text: String,
    pub block_text: String,
}

/// Whether a type is a path type whose last segment is named `name`.
pub open spec fn type_ends_in(t: Type, name: Seq<char>) -> bool {
    match t {
        Type::Path(segments) => segments@.len() > 0 && segments.deep_view().last() == name,
        Type::Other => false,
    }
}

/// Whether a parameter is a typed parameter whose type's last path
/// segment is named `name`.
pub open spec fn spec_argument_of_expected_type(input: FnArg, name: Seq<char>) -> bool {
    match input {
        FnArg::Typed(t) => type_ends_in(t, name),
        FnArg::Receiver => false,
    }
}

/// Whether a return type is a path type whose last segment is named
/// `TokenStream2`.
pub open spec fn spec_output_of_expected_type(output: ReturnType) -> bool {
    match output {
        ReturnType::Typed(t) => type_ends_in(t, "TokenStream2"@),
        ReturnType::Omitted => false,
    }
}

/// Whether a signature has the one shape a transformer may have: two
/// parameters, of types ending in `AttributeArgs` and `TokenStream2`,
/// and a return type ending in `TokenStream2`.
pub open spec fn spec_signature_as_expected(sig: Signature) -> bool {
    &&& sig.inputs@.len() == 2
    &&& spec_argument_of_expected_type(sig.inputs@[0], "AttributeArgs"@)
    &&& spec_argument_of_expected_type(sig.inputs@[1], "TokenStream2"@)
    &&& spec_output_of_expected_type(sig.output)
}

/// Whether a parameter's type is a path type ending in the segment
/// `expected_type_name`.
pub fn argument_of_expected_type(input: &FnArg, expected_type_name: &str) -> (r: bool)
    ensures
        r == spec_argument_of_expected_type(*input, expected_type_name@),
{
    match input {
        FnArg::Typed(t) => type_last_segment_is(t, expected_type_name),
        FnArg::Receiver => false,
    }
}

/// Whether a return type is a path type ending in the segment
/// `TokenStream2`.
pub fn output_of_expected_type(output: &ReturnType) -> (r: bool)
    ensures
        r == spec_output_of_expected_type(*output),
{
    match output {
        ReturnType::Typed(t) => type_last_segment_is(t, "TokenStream2"),
        ReturnType::Omitted => false,
    }
}

/// Whether `sig` has the shape a transformer may have.
pub fn signature_as_expected(sig: &Signature) -> (r: bool)
    ensures
        r == spec_signature_as_expected(*sig),
{
    if sig.inputs.len() != 2 {
        return false;
    }
    let first_param_ok = argument_of_expected_type(&sig.inputs[0], "AttributeArgs");
    let second_param_ok = argument_of_expected_type(&sig.inputs[1], "TokenStream2");
    let output_ok = output_of_expected_type(&sig.output);
    first_param_ok && second_param_ok && output_ok
}

/// The source text of the expansion `implement` produces for a
/// transformer named `ident`: an attribute entry point that forwards to
/// the transformer, and an `implementation` module that holds the
/// transformer itself, reachable from tests. `params`, `output` and
/// `block` are the token text of the transformer's parameter list,
/// return type and body block.
pub open spec fn spec_implementation_source(
    ident: Seq<char>,
    params: Seq<char>,
    output: Seq<char>,
    block: Seq<char>,
) -> Seq<char> {
    "#[proc_macro_attribute]\npub fn "@ + ident
        + "(attributes: proc_macro::TokenStream, item: proc_macro::TokenStream) -> proc_macro::TokenStream {\n    implementation::"@
        + ident
        + "(\n        syn::parse_macro_input!(attributes as AttributeArgs),\n        item.into()\n    ).into()\n}\n\npub mod implementation {\n    use super::*;\n\n    pub fn "@
        + ident + "("@ + params + ") "@ + output + " "@ + block + "\n}\n"@
}

/// The expansion of a transformer declaration: `None` when the signature
/// does not have the required shape, and otherwise the source text of the
/// entry point and the `implementation` module.
pub fn implement(item_func: &ItemFn) -> (r: Option<String>)
    ensures
        r is Some <==> spec_signature_as_expected(item_func.sig),
        r is Some ==> (r->0)@ == spec_implementation_source(
            item_func.sig.ident@,
            item_func.inputs_text@,
            item_func.output_text@,
            item_func.block_text@,
        ),
{
    if !signature_as_expected(&item_func.sig) {
        return None;
    }
    let ident = item_func.sig.ident.as_str();
    let mut s = "#[proc_macro_attribute]\npub fn ".to_owned();
    s.append(ident);
    s.append(
        "(attributes: proc_macro::TokenStream, item: proc_macro::TokenStream) -> proc_macro::TokenStream {\n    implementation::",
    );
    s.append(ident);
    s.append(
        "(\n        syn::parse_macro_input!(attributes as AttributeArgs),\n        item.into()\n    ).into()\n}\n\npub mod implementation {\n    use super::*;\n\n    pub fn ",
    );
    s.append(ident);
    s.append("(");
    s.append(item_func.inputs_text.as_str());
    s.append(") ");
    s.append(item_func.output_text.as_str());
    s.append(" ");
    s.append(item_func.block_text.as_str());
    s.append("\n}\n");
    proof {
        assert(s@ =~= spec_implementation_source(
            item_func.sig.ident@,
            item_func.inputs_text@,
            item_func.output_text@,
            item_func.block_text@,
        ));
    }
    Some(s)
}

fn type_last_segment_is(t: &Type, name: &str) -> (r: bool)
    ensures
        r == type_ends_in(*t, name@),
{
    match t {
        Type::Path(segments) => {
            if segments.len() == 0 {
                false
            } else {
                let last = &segments[segments.len() - 1];
                str_eq(last.as_str(), name)
            }
        },
        Type::Other => false,
    }
}

} // verus!
