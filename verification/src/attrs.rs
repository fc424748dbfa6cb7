//! Attributes attached to a declaration.
//!
//! A declaration is reduced to what a transformer test reads of it: the
//! list of attributes attached to it. Each attribute carries the names of
//! its path segments and, once its tokens have been parsed, its meta form.
//! The functions here pick the attribute a test names, remove it from the
//! declaration, and turn it into the argument list handed to a transformer.

use vstd::prelude::*;

use crate::text::str_eq;

verus! {

/// The parsed meta form of an attribute: a bare path, a parenthesised
/// list of nested arguments (each kept as its token text), or a
/// name-value pair.
pub enum Meta {
    Path,
    List(Vec<String>),
    NameValue,
}

/// An attribute attached to a declaration: the names of its path
/// segments, and its meta form (`None` when the attribute's tokens do
/// not parse as a meta item).
pub struct Attribute {
    pub path: Vec<String>,
    pub meta: Option<Meta>,
}

/// A declaration, reduced to the attributes attached to it.
pub struct Item {
    pub attrs: Vec<Attribute>,
}

impl Attribute {
    /// Whether the attribute's path ends in the segment `name`.
    pub open spec fn has_ident(&self, name: Seq<char>) -> bool {
        self.path@.len() > 0 && self.path.deep_view().last() == name
    }
}

/// The nested arguments an attribute's meta form carries: those of a
/// list, and none for a bare path or a name-value pair.
pub open spec fn spec_attribute_args(m: Meta) -> Seq<Seq<char>> {
    match m {
        Meta::List(args) => args.deep_view(),
        _ => Seq::empty(),
    }
}

/// The name a path stands for: the name of its last segment.
pub fn path_to_name(p: &Vec<String>) -> (r: String)
    requires
        p@.len() > 0,
    ensures
        r@ == p.deep_view().last(),
{
    p[p.len() - 1].clone()
}

/// Whether `a`'s path ends in the identifier `name`.
pub fn attribute_has_ident(a: &Attribute, name: &str) -> (r: bool)
    requires
        a.path@.len() > 0,
    ensures
        r == a.has_ident(name@),
{
    let last = path_to_name(&a.path);
    str_eq(name, last.as_str())
}

/// The position of the first attribute whose path ends in `name`, if any.
pub fn find_attribute(attrs: &Vec<Attribute>, name: &str) -> (r: Option<usize>)
    requires
        forall|j: int| 0 <= j < attrs@.len() ==> attrs@[j].path@.len() > 0,
    ensures
        match r {
            Some(i) => i < attrs@.len() && attrs@[i as int].has_ident(name@) && (forall|j: int|
                0 <= j < i ==> !attrs@[j].has_ident(name@)),
            None => forall|j: int| 0 <= j < attrs@.len() ==> !attrs@[j].has_ident(name@),
        },
{
    let mut i: usize = 0;
    while i < attrs.len()
        invariant
            forall|j: int| 0 <= j < attrs@.len() ==> attrs@[j].path@.len() > 0,
            i <= attrs@.len(),
            forall|j: int| 0 <= j < i ==> !attrs@[j].has_ident(name@),
        decreases attrs@.len() - i,
    {
        if attribute_has_ident(&attrs[i], name) {
            return Some(i);
        }
        i = i + 1;
    }
    None
}

/// Removes and returns the first attribute of `item` whose path ends in
/// `name`. A caller must know such an attribute is present; absence is
/// reported by `find_attribute`.
pub fn extract_attribute_from_item(item: &mut Item, name: &str) -> (r: Attribute)
    requires
        forall|j: int| 0 <= j < old(item).attrs@.len() ==> old(item).attrs@[j].path@.len() > 0,
        exists|j: int| 0 <= j < old(item).attrs@.len() && old(item).attrs@[j].has_ident(name@),
    ensures
        exists|i: int|
            {
                &&& 0 <= i < old(item).attrs@.len()
                &&& #[trigger] old(item).attrs@[i].has_ident(name@)
                &&& (forall|j: int| 0 <= j < i ==> !old(item).attrs@[j].has_ident(name@))
                &&& r == old(item).attrs@[i]
                &&& final(item).attrs@ == old(item).attrs@.remove(i)
            },
{
    match find_attribute(&item.attrs, name) {
        Some(i) => item.attrs.remove(i),
        None => unreached(),
    }
}

/// Converts an attribute into the argument list handed to a transformer.
/// The attribute's tokens must have parsed as a meta item; an attribute
/// with `meta == None` is not accepted.
pub fn transform_attribute_to_attribute_args(attribute: Attribute) -> (r: Vec<String>)
    requires
        attribute.meta is Some,
    ensures
        r.deep_view() == spec_attribute_args(attribute.meta->0),
{
    match attribute.meta {
        Some(Meta::List(args)) => args,
        _ => {
            let r: Vec<String> = Vec::new();
            proof {
                assert(r.deep_view() =~= Seq::<Seq<char>>::empty());
            }
            r
        },
    }
}

} // verus!
