//! The parsed markup that the conversion reads: a root element with its
//! attributes and its child elements, in document order.
use vstd::prelude::*;

use crate::text::same_chars;

verus! {

/// An element: its local name and its attributes, in order.
#[derive(Clone, Debug)]
pub struct SvgElement {
    pub name: String,
    pub attributes: Vec<(String, String)>,
}

/// A parsed document: the root element and the elements directly under it.
#[derive(Clone, Debug)]
pub struct SvgDocument {
    pub root: SvgElement,
    pub children: Vec<SvgElement>,
}

pub open spec fn attrs_view(v: Seq<(String, String)>) -> Seq<(Seq<char>, Seq<char>)> {
    v.map_values(|p: (String, String)| (p.0@, p.1@))
}

impl View for SvgElement {
    type V = (Seq<char>, Seq<(Seq<char>, Seq<char>)>);

    open spec fn view(&self) -> (Seq<char>, Seq<(Seq<char>, Seq<char>)>) {
        (self.name@, attrs_view(self.attributes@))
    }
}

pub open spec fn elements_view(v: Seq<SvgElement>) -> Seq<(Seq<char>, Seq<(Seq<char>, Seq<char>)>)> {
    v.map_values(|e: SvgElement| e@)
}

/// The value of the first attribute from position `i` on that is named `name`.
pub open spec fn attr_from(attrs: Seq<(Seq<char>, Seq<char>)>, name: Seq<char>, i: int) -> Option<
    Seq<char>,
>
    decreases attrs.len() - i,
{
    if i < 0 || i >= attrs.len() {
        None
    } else if attrs[i].0 == name {
        Some(attrs[i].1)
    } else {
        attr_from(attrs, name, i + 1)
    }
}

/// The value of the attribute named `name`, if there is one.
pub open spec fn attr_spec(attrs: Seq<(Seq<char>, Seq<char>)>, name: Seq<char>) -> Option<
    Seq<char>,
> {
    attr_from(attrs, name, 0)
}

impl SvgElement {
    /// The value of the attribute named `name`, if there is one.
    pub fn attr(&self, name: &str) -> (r: Option<String>)
        ensures
            match attr_spec(self@.1, name@) {
                Some(v) => r is Some && r->Some_0@ == v,
                None => r is None,
            },
    {
        let mut i: usize = 0;
        while i < self.attributes.len()
            invariant
                i <= self.attributes@.len(),
                attr_spec(self@.1, name@) == attr_from(self@.1, name@, i as int),
            decreases self.attributes@.len() - i,
        {
            let pair = &self.attributes[i];
            assert(self@.1[i as int] == (pair.0@, pair.1@));
            if same_chars(pair.0.as_str(), name) {
                return Some(pair.1.clone());
            }
            i = i + 1;
        }
        None
    }
}

} // verus!
