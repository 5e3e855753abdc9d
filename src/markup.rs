//! Reading SVG text into the document model, through `minidom`.
use vstd::prelude::*;

use crate::document::convert_document;
use crate::document::convert_spec;
use crate::document::diagnostics_view;
use crate::document::Conversion;
use crate::document::ElementModel;
use crate::element::elements_view;
use crate::element::SvgDocument;
use crate::element::SvgElement;
use crate::error::VectorDrawableError;

verus! {

/// The model of a parsed element: its local name and its attributes as
/// (namespace, local name, value).
pub type RawModel = (Seq<char>, Seq<(Seq<char>, Seq<char>, Seq<char>)>);

/// What `minidom` makes of a text: the root and the elements directly under
/// it, or nothing where the text is not well-formed markup.
pub uninterp spec fn markup_of(text: Seq<char>) -> Option<(RawModel, Seq<RawModel>)>;

/// An element as the markup parser gives it.
#[derive(Clone, Debug)]
pub struct RawElement {
    pub name: String,
    pub attributes: Vec<(String, String, String)>,
}

/// A parsed text: the root and the elements directly under it.
#[derive(Clone, Debug)]
pub struct RawDocument {
    pub root: RawElement,
    pub children: Vec<RawElement>,
}

pub open spec fn raw_attrs_view(v: Seq<(String, String, String)>) -> Seq<(Seq<char>, Seq<char>, Seq<char>)> {
    v.map_values(|p: (String, String, String)| (p.0@, p.1@, p.2@))
}

impl View for RawElement {
    type V = RawModel;

    open spec fn view(&self) -> RawModel {
        (self.name@, raw_attrs_view(self.attributes@))
    }
}

pub open spec fn raw_elements_view(v: Seq<RawElement>) -> Seq<RawModel> {
    v.map_values(|e: RawElement| e@)
}

/// Relies on `minidom::Element: FromStr`, `Element::name`, `Element::attrs`
/// and `Element::children`: the parse depends on the text alone, fails
/// exactly on text that is not well-formed, and gives the root element, its
/// attributes and its child elements.
#[verifier::external_body]
fn parse_markup(text: &str) -> (r: Result<RawDocument, String>)
    ensures
        match markup_of(text@) {
            None => r is Err,
            Some(d) => r is Ok && (r->Ok_0.root@, raw_elements_view(r->Ok_0.children@)) == d,
        },
{
    let root: minidom::Element = text.parse().map_err(|e: minidom::Error| e.to_string())?;
    let raw = |e: &minidom::Element| RawElement {
        name: e.name().to_string(),
        attributes: e.attrs().iter().map(|((ns, n), v)| (ns.as_str().to_string(), n.as_str().to_string(), v.clone())).collect(),
    };
    Ok(RawDocument { root: raw(&root), children: root.children().map(raw).collect() })
}

/// The attributes without a namespace, as (name, value), in order.
pub open spec fn plain_attrs(a: Seq<(Seq<char>, Seq<char>, Seq<char>)>) -> Seq<(Seq<char>, Seq<char>)>
    decreases a.len(),
{
    if a.len() == 0 {
        Seq::empty()
    } else {
        plain_attrs(a.drop_last()) + if a.last().0.len() == 0 {
            seq![(a.last().1, a.last().2)]
        } else {
            Seq::empty()
        }
    }
}

/// An element with its namespaced attributes left out.
pub open spec fn plain_element(e: RawModel) -> ElementModel {
    (e.0, plain_attrs(e.1))
}

/// A parsed document as the conversion reads it.
pub open spec fn plain_document(d: (RawModel, Seq<RawModel>)) -> (ElementModel, Seq<ElementModel>) {
    (plain_element(d.0), d.1.map_values(|e: RawModel| plain_element(e)))
}

fn plain(e: &RawElement) -> (r: SvgElement)
    ensures
        r@ == plain_element(e@),
{
    let mut attributes: Vec<(String, String)> = Vec::new();
    let mut k: usize = 0;
    assert(e@.1.subrange(0, 0) =~= Seq::<(Seq<char>, Seq<char>, Seq<char>)>::empty());
    assert(crate::element::attrs_view(attributes@) =~= Seq::<(Seq<char>, Seq<char>)>::empty());
    while k < e.attributes.len()
        invariant
            k <= e.attributes@.len(),
            crate::element::attrs_view(attributes@) == plain_attrs(e@.1.subrange(0, k as int)),
        decreases e.attributes@.len() - k,
    {
        let a = &e.attributes[k];
        let ghost prefix = e@.1.subrange(0, k + 1);
        assert(prefix.drop_last() == e@.1.subrange(0, k as int));
        assert(prefix.last() == (a.0@, a.1@, a.2@));
        let ghost before = crate::element::attrs_view(attributes@);
        let ns = crate::text::chars_of(a.0.as_str());
        if ns.len() == 0 {
            attributes.push((a.1.clone(), a.2.clone()));
            assert(crate::element::attrs_view(attributes@) =~= before + seq![(a.1@, a.2@)]);
        } else {
            assert(crate::element::attrs_view(attributes@) =~= before + Seq::<(Seq<char>, Seq<char>)>::empty());
        }
        k = k + 1;
    }
    assert(e@.1.subrange(0, e@.1.len() as int) == e@.1);
    SvgElement { name: e.name.clone(), attributes }
}

/// Parses SVG text into a document: the root and the elements directly under
/// it, with namespaced attributes left out.
pub fn read_document(text: &str) -> (r: Result<SvgDocument, String>)
    ensures
        match markup_of(text@) {
            None => r is Err,
            Some(d) => r is Ok && (r->Ok_0.root@, elements_view(r->Ok_0.children@)) == plain_document(d),
        },
{
    let raw = match parse_markup(text) {
        Ok(raw) => raw,
        Err(cause) => {
            return Err(cause);
        },
    };
    let ghost d = (raw.root@, raw_elements_view(raw.children@));
    let mut children: Vec<SvgElement> = Vec::new();
    let mut k: usize = 0;
    while k < raw.children.len()
        invariant
            k <= raw.children@.len(),
            elements_view(children@) =~= raw_elements_view(raw.children@).subrange(0, k as int).map_values(
                |e: RawModel| plain_element(e),
            ),
        decreases raw.children@.len() - k,
    {
        let c = plain(&raw.children[k]);
        let ghost before = elements_view(children@);
        children.push(c);
        assert(elements_view(children@) =~= before.push(c@));
        assert(raw_elements_view(raw.children@)[k as int] == raw.children@[k as int]@);
        k = k + 1;
        assert(elements_view(children@) =~= raw_elements_view(raw.children@).subrange(0, k as int).map_values(
            |e: RawModel| plain_element(e),
        ));
    }
    let root = plain(&raw.root);
    assert(raw_elements_view(raw.children@).subrange(0, raw.children@.len() as int) == raw_elements_view(raw.children@));
    Ok(SvgDocument { root, children })
}

/// `r` is what the conversion of the document `d` gives.
pub open spec fn converts_to(
    d: (ElementModel, Seq<ElementModel>),
    r: Result<Conversion, VectorDrawableError>,
) -> bool {
    match convert_spec(d.0, d.1) {
        Ok((xml, ds)) => r is Ok && r->Ok_0.xml@ == xml && diagnostics_view(r->Ok_0.diagnostics@)
            == ds,
        Err(f) => r is Err && r->Err_0@ == f,
    }
}

/// Converts SVG text, read from the file at `path`, into vector-drawable text.
/// Text that is not well-formed fails with the path; otherwise the result is
/// what the conversion of the parsed document gives.
pub fn convert_svg_text(path: &str, text: &str) -> (r: Result<Conversion, VectorDrawableError>)
    ensures
        match markup_of(text@) {
            None => r is Err && r->Err_0@ is CannotParseSvg && r->Err_0@->CannotParseSvg_0 == path@,
            Some(d) => converts_to(plain_document(d), r),
        },
{
    match read_document(text) {
        Err(cause) => Err(VectorDrawableError::CannotParseSvg(path.to_string(), cause)),
        Ok(doc) => convert_document(&doc),
    }
}

} // verus!
