//! The document: classification of the root's children, the intermediate
//! tree, and the vector-drawable text written for it.
use vstd::prelude::*;

use crate::dimensions::dimensions;
use crate::dimensions::root_dimensions;
use crate::dimensions::ViewBox;
use crate::element::elements_view;
use crate::element::SvgDocument;
use crate::element::SvgElement;
use crate::error::Failure;
use crate::error::VectorDrawableError;
use crate::number::number_text;
use crate::number::push_number_text;
use crate::number::Number;
use crate::path_node::path_element_text;
use crate::path_node::path_node_spec;
use crate::path_node::url_count;
use crate::path_node::PathNode;
use crate::text::push_text;
use crate::text::same_chars;
use crate::text::string_from_chars;

verus! {

/// The model of an element: its name and its attributes.
pub type ElementModel = (Seq<char>, Seq<(Seq<char>, Seq<char>)>);

/// The model of a path node: its presentation table and its records.
pub type PathModel = (Seq<Option<Seq<char>>>, Seq<(char, Seq<Number>)>);

/// What kind of construct was left out of the output.
#[derive(Clone, Copy, Debug, PartialEq, Eq, Structural)]
pub enum DiagnosticKind {
    /// An element of a kind that vector drawables cannot express.
    UnsupportedTag,
    /// An element of a kind that this converter does not convert.
    UnimplementedTag,
    /// A paint-server value (`url(...)`) of an attribute of the element.
    UnsupportedUrl,
}

/// A construct that was left out, and the name of the element it was in.
#[derive(Clone, Debug)]
pub struct Diagnostic {
    pub kind: DiagnosticKind,
    pub tag: String,
}

impl View for Diagnostic {
    type V = (DiagnosticKind, Seq<char>);

    open spec fn view(&self) -> (DiagnosticKind, Seq<char>) {
        (self.kind, self.tag@)
    }
}

pub open spec fn diagnostics_view(v: Seq<Diagnostic>) -> Seq<(DiagnosticKind, Seq<char>)> {
    v.map_values(|d: Diagnostic| d@)
}

/// Elements that vector drawables cannot express.
pub open spec fn unsupported_tags() -> Seq<&'static str> {
    seq![
        "animate",
        "animateColor",
        "animateMotion",
        "animateTransform",
        "mpath",
        "set",
        "a",
        "glyph",
        "marker",
        "missing-glyph",
        "pattern",
        "switch",
        "symbol",
        "feBlend",
        "feColorMatrix",
        "feComponentTransfer",
        "feComposite",
        "feConvolveMatrix",
        "feDiffuseLighting",
        "feDisplacementMap",
        "feFlood",
        "feFuncA",
        "feFuncB",
        "feFuncG",
        "feFuncR",
        "feGaussianBlur",
        "feImage",
        "feMerge",
        "feMergeNode",
        "feMorphology",
        "feOffset",
        "feSpecularLighting",
        "feTile",
        "feTurbulence",
        "font",
        "font-face",
        "font-face-format",
        "font-face-name",
        "font-face-src",
        "font-face-uri",
        "hkern",
        "vkern",
        "stop",
        "ellipse",
        "image",
        "text",
        "feDistantLight",
        "fePointLight",
        "feSpotLight",
        "altGlyph",
        "altGlyphDef",
        "altGlyphItem",
        "glyphRef",
        "textPath",
        "tref",
        "tspan",
        "color-profile",
        "cursor",
        "filter",
        "foreignObject",
        "script",
        "view",
    ]
}

fn unsupported_tags_exec() -> (r: Vec<&'static str>)
    ensures
        r@ == unsupported_tags(),
{
    let v = vec![
        "animate",
        "animateColor",
        "animateMotion",
        "animateTransform",
        "mpath",
        "set",
        "a",
        "glyph",
        "marker",
        "missing-glyph",
        "pattern",
        "switch",
        "symbol",
        "feBlend",
        "feColorMatrix",
        "feComponentTransfer",
        "feComposite",
        "feConvolveMatrix",
        "feDiffuseLighting",
        "feDisplacementMap",
        "feFlood",
        "feFuncA",
        "feFuncB",
        "feFuncG",
        "feFuncR",
        "feGaussianBlur",
        "feImage",
        "feMerge",
        "feMergeNode",
        "feMorphology",
        "feOffset",
        "feSpecularLighting",
        "feTile",
        "feTurbulence",
        "font",
        "font-face",
        "font-face-format",
        "font-face-name",
        "font-face-src",
        "font-face-uri",
        "hkern",
        "vkern",
        "stop",
        "ellipse",
        "image",
        "text",
        "feDistantLight",
        "fePointLight",
        "feSpotLight",
        "altGlyph",
        "altGlyphDef",
        "altGlyphItem",
        "glyphRef",
        "textPath",
        "tref",
        "tspan",
        "color-profile",
        "cursor",
        "filter",
        "foreignObject",
        "script",
        "view",
    ];
    assert(v@ =~= unsupported_tags());
    v
}

pub open spec fn is_unsupported_tag(name: Seq<char>) -> bool {
    exists|i: int| 0 <= i < unsupported_tags().len() && (#[trigger] unsupported_tags()[i])@ == name
}

/// Whether an element name is one that vector drawables cannot express.
pub fn unsupported_tag(name: &str) -> (r: bool)
    ensures
        r == is_unsupported_tag(name@),
{
    let tags = unsupported_tags_exec();
    let mut i: usize = 0;
    while i < tags.len()
        invariant
            i <= tags@.len(),
            tags@ == unsupported_tags(),
            forall|k: int| 0 <= k < i ==> (#[trigger] unsupported_tags()[k])@ != name@,
        decreases tags@.len() - i,
    {
        if same_chars(tags[i], name) {
            return true;
        }
        i = i + 1;
    }
    false
}

/// What one child of the root contributes: path nodes and diagnostics.
pub open spec fn child_step(e: ElementModel) -> Result<
    (Seq<PathModel>, Seq<(DiagnosticKind, Seq<char>)>),
    Failure,
> {
    if is_unsupported_tag(e.0) {
        Ok((Seq::empty(), seq![(DiagnosticKind::UnsupportedTag, e.0)]))
    } else if e.0 == "path"@ {
        match path_node_spec(e) {
            Err(f) => Err(f),
            Ok(n) => Ok(
                (
                    seq![n],
                    Seq::new(url_count(e.1), |i: int| (DiagnosticKind::UnsupportedUrl, e.0)),
                ),
            ),
        }
    } else {
        Ok((Seq::empty(), seq![(DiagnosticKind::UnimplementedTag, e.0)]))
    }
}

/// What the children of the root give, in document order: the first failure
/// of a path, or the path nodes and the diagnostics.
pub open spec fn children_spec(es: Seq<ElementModel>) -> Result<
    (Seq<PathModel>, Seq<(DiagnosticKind, Seq<char>)>),
    Failure,
>
    decreases es.len(),
{
    if es.len() == 0 {
        Ok((Seq::empty(), Seq::empty()))
    } else {
        match children_spec(es.drop_last()) {
            Err(f) => Err(f),
            Ok((ps, ds)) => match child_step(es.last()) {
                Err(f) => Err(f),
                Ok((p, d)) => Ok((ps + p, ds + d)),
            },
        }
    }
}

/// The intermediate tree of a document.
#[derive(Clone, Debug)]
pub struct SvgNode {
    pub children: Vec<PathNode>,
    pub view_box: ViewBox,
    pub width: Number,
    pub height: Number,
}

pub open spec fn path_nodes_view(v: Seq<PathNode>) -> Seq<PathModel> {
    v.map_values(|p: PathNode| p@)
}

impl View for SvgNode {
    type V = (Seq<PathModel>, ViewBox, Number, Number);

    open spec fn view(&self) -> (Seq<PathModel>, ViewBox, Number, Number) {
        (path_nodes_view(self.children@), self.view_box, self.width, self.height)
    }
}

/// Every presentation table has its full size.
pub open spec fn tables_wf(ps: Seq<PathModel>) -> bool {
    forall|i: int| 0 <= i < ps.len() ==> (#[trigger] ps[i]).0.len() == crate::path_node::PRESENTATION_COUNT
}

/// The opening `vector` element, with the size in density-independent units
/// and the viewport of the view box.
pub open spec fn header_text(vb: ViewBox, w: Number, h: Number) -> Seq<char> {
    "<vector xmlns:android=\"http://schemas.android.com/apk/res/android\"\n"@
        + "        android:width=\""@ + number_text(w) + "dp\"\n"@
        + "        android:height=\""@ + number_text(h) + "dp\"\n"@
        + "        android:viewportWidth=\""@ + number_text(vb.2) + "\"\n"@
        + "        android:viewportHeight=\""@ + number_text(vb.3) + "\">\n\n"@
}

/// The elements of the first `k` path nodes.
pub open spec fn children_text(ps: Seq<PathModel>, k: nat) -> Seq<char>
    decreases k,
{
    if k == 0 || k > ps.len() {
        Seq::empty()
    } else {
        children_text(ps, (k - 1) as nat) + path_element_text(ps[k - 1])
    }
}

/// The whole vector-drawable text of a tree.
pub open spec fn svg_text(n: (Seq<PathModel>, ViewBox, Number, Number)) -> Seq<char> {
    header_text(n.1, n.2, n.3) + children_text(n.0, n.0.len()) + "</vector>\n"@
}

/// What a document converts to: its text and the diagnostics, or a failure.
/// The root must be `svg` and have accepted dimensions; then every path child
/// must parse.
pub open spec fn convert_spec(root: ElementModel, children: Seq<ElementModel>) -> Result<
    (Seq<char>, Seq<(DiagnosticKind, Seq<char>)>),
    Failure,
> {
    if root.0 != "svg"@ {
        Err(Failure::NotSvgRoot(root.0))
    } else {
        match root_dimensions(root.1) {
            None => Err(Failure::InvalidDimensionSvgTag),
            Some((vb, w, h)) => match children_spec(children) {
                Err(f) => Err(f),
                Ok((ps, ds)) => Ok((svg_text((ps, vb, w, h)), ds)),
            },
        }
    }
}

/// Reads the children of the root, in order: path elements become path
/// nodes, every other element is left out with a diagnostic.
pub fn children(es: &Vec<SvgElement>) -> (r: Result<(Vec<PathNode>, Vec<Diagnostic>), VectorDrawableError>)
    ensures
        match children_spec(elements_view(es@)) {
            Ok((ps, ds)) => r is Ok && path_nodes_view(r->Ok_0.0@) == ps
                && diagnostics_view(r->Ok_0.1@) == ds && tables_wf(ps),
            Err(f) => r is Err && r->Err_0@ == f,
        },
{
    let mut nodes: Vec<PathNode> = Vec::new();
    let mut notes: Vec<Diagnostic> = Vec::new();
    let mut k: usize = 0;
    assert(elements_view(es@).subrange(0, 0) =~= Seq::<ElementModel>::empty());
    assert(path_nodes_view(nodes@) =~= Seq::<PathModel>::empty());
    assert(diagnostics_view(notes@) =~= Seq::<(DiagnosticKind, Seq<char>)>::empty());
    while k < es.len()
        invariant
            k <= es@.len(),
            children_spec(elements_view(es@).subrange(0, k as int)) == Ok::<
                (Seq<PathModel>, Seq<(DiagnosticKind, Seq<char>)>),
                Failure,
            >((path_nodes_view(nodes@), diagnostics_view(notes@))),
            tables_wf(path_nodes_view(nodes@)),
        decreases es@.len() - k,
    {
        let e = &es[k];
        let ghost prefix = elements_view(es@).subrange(0, k + 1);
        assert(prefix.drop_last() == elements_view(es@).subrange(0, k as int));
        assert(prefix.last() == e@);
        let ghost ps0 = path_nodes_view(nodes@);
        let ghost ds0 = diagnostics_view(notes@);
        if unsupported_tag(e.name.as_str()) {
            notes.push(Diagnostic { kind: DiagnosticKind::UnsupportedTag, tag: e.name.clone() });
            assert(path_nodes_view(nodes@) =~= ps0 + Seq::<PathModel>::empty());
            assert(diagnostics_view(notes@) =~= ds0 + seq![(DiagnosticKind::UnsupportedTag, e@.0)]);
        } else if same_chars(e.name.as_str(), "path") {
            match PathNode::from(e) {
                Err(err) => {
                    proof {
                        lemma_children_fail(elements_view(es@), k as int);
                    }
                    return Err(err);
                },
                Ok(p) => {
                    let (_, dropped) = crate::path_node::attributes(e);
                    let ghost pv = p@;
                    nodes.push(p);
                    let mut j: usize = 0;
                    while j < dropped
                        invariant
                            j <= dropped,
                            dropped == url_count(e@.1),
                            diagnostics_view(notes@) == ds0 + Seq::new(
                                j as nat,
                                |i: int| (DiagnosticKind::UnsupportedUrl, e@.0),
                            ),
                        decreases dropped - j,
                    {
                        let d = Diagnostic { kind: DiagnosticKind::UnsupportedUrl, tag: e.name.clone() };
                        assert(d@ == (DiagnosticKind::UnsupportedUrl, e@.0));
                        let ghost before = diagnostics_view(notes@);
                        notes.push(d);
                        assert(diagnostics_view(notes@) =~= before.push(d@));
                        j = j + 1;
                        assert(diagnostics_view(notes@) =~= ds0 + Seq::new(
                            j as nat,
                            |i: int| (DiagnosticKind::UnsupportedUrl, e@.0),
                        ));
                    }
                    assert(path_nodes_view(nodes@) =~= ps0 + seq![pv]);
                },
            }
        } else {
            notes.push(Diagnostic { kind: DiagnosticKind::UnimplementedTag, tag: e.name.clone() });
            assert(path_nodes_view(nodes@) =~= ps0 + Seq::<PathModel>::empty());
            assert(diagnostics_view(notes@) =~= ds0 + seq![(DiagnosticKind::UnimplementedTag, e@.0)]);
        }
        k = k + 1;
    }
    assert(elements_view(es@).subrange(0, es@.len() as int) == elements_view(es@));
    Ok((nodes, notes))
}

/// A failing child fails every longer list of children.
proof fn lemma_children_fail(es: Seq<ElementModel>, k: int)
    requires
        0 <= k < es.len(),
        children_spec(es.subrange(0, k)) is Ok,
        child_step(es[k]) is Err,
    ensures
        children_spec(es) == Err::<(Seq<PathModel>, Seq<(DiagnosticKind, Seq<char>)>), Failure>(
            child_step(es[k])->Err_0,
        ),
    decreases es.len() - k,
{
    let f = child_step(es[k])->Err_0;
    assert(es.subrange(0, k + 1).drop_last() == es.subrange(0, k));
    lemma_children_fail_extends(es, k + 1, f);
}

proof fn lemma_children_fail_extends(es: Seq<ElementModel>, j: int, f: Failure)
    requires
        0 < j <= es.len(),
        children_spec(es.subrange(0, j)) == Err::<(Seq<PathModel>, Seq<(DiagnosticKind, Seq<char>)>), Failure>(f),
    ensures
        children_spec(es) == Err::<(Seq<PathModel>, Seq<(DiagnosticKind, Seq<char>)>), Failure>(f),
    decreases es.len() - j,
{
    if j < es.len() {
        assert(es.subrange(0, j + 1).drop_last() == es.subrange(0, j));
        lemma_children_fail_extends(es, j + 1, f);
    } else {
        assert(es.subrange(0, j) == es);
    }
}

impl SvgNode {
    /// Every path node has a full presentation table.
    pub open spec fn wf(&self) -> bool {
        tables_wf(path_nodes_view(self.children@))
    }

    /// Builds the tree of a document whose root is already known to be `svg`:
    /// its dimensions first, then its children.
    pub fn from(doc: &SvgDocument) -> (r: Result<(SvgNode, Vec<Diagnostic>), VectorDrawableError>)
        ensures
            match root_dimensions(doc.root@.1) {
                None => r is Err && r->Err_0@ == Failure::InvalidDimensionSvgTag,
                Some((vb, w, h)) => match children_spec(elements_view(doc.children@)) {
                    Err(f) => r is Err && r->Err_0@ == f,
                    Ok((ps, ds)) => r is Ok && r->Ok_0.0@ == (ps, vb, w, h) && r->Ok_0.0.wf()
                        && diagnostics_view(r->Ok_0.1@) == ds,
                },
            },
    {
        let (view_box, width, height) = match dimensions(&doc.root) {
            Some(d) => d,
            None => {
                return Err(VectorDrawableError::InvalidDimensionSvgTag);
            },
        };
        let (nodes, notes) = children(&doc.children)?;
        Ok((SvgNode { children: nodes, view_box, width, height }, notes))
    }

    /// Appends the whole vector-drawable text of the tree to `out`.
    pub fn to_vector_drawable(&self, out: &mut Vec<char>)
        requires
            self.wf(),
        ensures
            final(out)@ == old(out)@ + svg_text(self@),
    {
        let ghost start = out@;
        // Render header
        push_text(out, "<vector xmlns:android=\"http://schemas.android.com/apk/res/android\"\n");
        push_text(out, "        android:width=\"");
        push_number_text(out, self.width);
        push_text(out, "dp\"\n");
        push_text(out, "        android:height=\"");
        push_number_text(out, self.height);
        push_text(out, "dp\"\n");
        push_text(out, "        android:viewportWidth=\"");
        push_number_text(out, self.view_box.2);
        push_text(out, "\"\n");
        push_text(out, "        android:viewportHeight=\"");
        push_number_text(out, self.view_box.3);
        push_text(out, "\">\n\n");
        assert(out@ =~= start + header_text(self.view_box, self.width, self.height));
        let ghost head = out@;
        // Render content of every child
        let mut k: usize = 0;
        while k < self.children.len()
            invariant
                k <= self.children@.len(),
                self.wf(),
                out@ == head + children_text(self@.0, k as nat),
            decreases self.children@.len() - k,
        {
            assert(self@.0[k as int] == self.children@[k as int]@);
            assert(self@.0[k as int].0.len() == crate::path_node::PRESENTATION_COUNT);
            self.children[k].to_vector_drawable(out);
            k = k + 1;
            assert(out@ =~= head + children_text(self@.0, k as nat));
        }
        // Render footer
        push_text(out, "</vector>\n");
        assert(out@ =~= start + svg_text(self@));
    }
}

/// A node of the intermediate tree.
#[derive(Clone, Debug)]
pub enum IrNode {
    Svg(SvgNode),
    Path(PathNode),
}

impl IrNode {
    /// The tree of a document, under its root node.
    pub fn from(doc: &SvgDocument) -> (r: Result<(IrNode, Vec<Diagnostic>), VectorDrawableError>)
        ensures
            match root_dimensions(doc.root@.1) {
                None => r is Err && r->Err_0@ == Failure::InvalidDimensionSvgTag,
                Some((vb, w, h)) => match children_spec(elements_view(doc.children@)) {
                    Err(f) => r is Err && r->Err_0@ == f,
                    Ok((ps, ds)) => r is Ok && (match r->Ok_0.0 {
                        IrNode::Svg(n) => n@ == (ps, vb, w, h) && n.wf(),
                        IrNode::Path(_) => false,
                    }) && diagnostics_view(r->Ok_0.1@) == ds,
                },
            },
    {
        let (node, notes) = SvgNode::from(doc)?;
        Ok((IrNode::Svg(node), notes))
    }

    pub open spec fn wf(&self) -> bool {
        match self {
            IrNode::Svg(n) => n.wf(),
            IrNode::Path(p) => p.wf(),
        }
    }

    /// Appends the text of this node to `out`.
    pub fn to_vector_drawable(&self, out: &mut Vec<char>)
        requires
            self.wf(),
        ensures
            final(out)@ == old(out)@ + match self {
                IrNode::Svg(n) => svg_text(n@),
                IrNode::Path(p) => path_element_text(p@),
            },
    {
        match self {
            IrNode::Svg(node) => node.to_vector_drawable(out),
            IrNode::Path(node) => node.to_vector_drawable(out),
        }
    }
}

/// The result of a conversion: the vector-drawable text, and what was left out.
#[derive(Clone, Debug)]
pub struct Conversion {
    pub xml: String,
    pub diagnostics: Vec<Diagnostic>,
}

/// Converts a parsed document into vector-drawable text.
pub fn convert_document(doc: &SvgDocument) -> (r: Result<Conversion, VectorDrawableError>)
    ensures
        match convert_spec(doc.root@, elements_view(doc.children@)) {
            Ok((xml, ds)) => r is Ok && r->Ok_0.xml@ == xml && diagnostics_view(r->Ok_0.diagnostics@)
                == ds,
            Err(f) => r is Err && r->Err_0@ == f,
        },
{
    // Check that the tree is a document with an <svg> root.
    if !same_chars(doc.root.name.as_str(), "svg") {
        return Err(VectorDrawableError::NotSvgRoot(doc.root.name.clone()));
    }
    let (node, notes) = SvgNode::from(doc)?;
    let mut out: Vec<char> = Vec::new();
    node.to_vector_drawable(&mut out);
    assert(out@ =~= svg_text(node@));
    Ok(Conversion { xml: string_from_chars(&out), diagnostics: notes })
}

/// A child of the root that is not a path changes neither whether the
/// conversion of the children succeeds nor the path nodes it gives, wherever
/// it stands among them: only the paths are kept, in their order.
pub proof fn lemma_other_child_dropped(a: Seq<ElementModel>, u: ElementModel, b: Seq<ElementModel>)
    requires
        u.0 != "path"@,
    ensures
        children_spec(a + seq![u] + b) is Ok <==> children_spec(a + b) is Ok,
        children_spec(a + b) is Ok ==> children_spec(a + seq![u] + b)->Ok_0.0 == children_spec(
            a + b,
        )->Ok_0.0,
    decreases b.len(),
{
    if b.len() == 0 {
        assert(a + seq![u] + b == (a + seq![u]));
        assert((a + seq![u]).drop_last() == a);
        assert(a + b == a);
        match children_spec(a) {
            Err(_) => {},
            Ok((ps, ds)) => {
                assert(ps + Seq::<PathModel>::empty() == ps);
            },
        }
    } else {
        let b0 = b.drop_last();
        lemma_other_child_dropped(a, u, b0);
        assert((a + seq![u] + b).drop_last() == a + seq![u] + b0);
        assert((a + seq![u] + b).last() == b.last());
        assert((a + b).drop_last() == a + b0);
        assert((a + b).last() == b.last());
    }
}

/// `path` is not among the elements that vector drawables cannot express, so
/// a path child is always converted.
pub proof fn lemma_path_is_supported()
    ensures
        !is_unsupported_tag("path"@),
{
    reveal_strlit("path");
    reveal_strlit("animate");
    reveal_strlit("animateColor");
    reveal_strlit("animateMotion");
    reveal_strlit("animateTransform");
    reveal_strlit("mpath");
    reveal_strlit("set");
    reveal_strlit("a");
    reveal_strlit("glyph");
    reveal_strlit("marker");
    reveal_strlit("missing-glyph");
    reveal_strlit("pattern");
    reveal_strlit("switch");
    reveal_strlit("symbol");
    reveal_strlit("feBlend");
    reveal_strlit("feColorMatrix");
    reveal_strlit("feComponentTransfer");
    reveal_strlit("feComposite");
    reveal_strlit("feConvolveMatrix");
    reveal_strlit("feDiffuseLighting");
    reveal_strlit("feDisplacementMap");
    reveal_strlit("feFlood");
    reveal_strlit("feFuncA");
    reveal_strlit("feFuncB");
    reveal_strlit("feFuncG");
    reveal_strlit("feFuncR");
    reveal_strlit("feGaussianBlur");
    reveal_strlit("feImage");
    reveal_strlit("feMerge");
    reveal_strlit("feMergeNode");
    reveal_strlit("feMorphology");
    reveal_strlit("feOffset");
    reveal_strlit("feSpecularLighting");
    reveal_strlit("feTile");
    reveal_strlit("feTurbulence");
    reveal_strlit("font");
    reveal_strlit("font-face");
    reveal_strlit("font-face-format");
    reveal_strlit("font-face-name");
    reveal_strlit("font-face-src");
    reveal_strlit("font-face-uri");
    reveal_strlit("hkern");
    reveal_strlit("vkern");
    reveal_strlit("stop");
    reveal_strlit("ellipse");
    reveal_strlit("image");
    reveal_strlit("text");
    reveal_strlit("feDistantLight");
    reveal_strlit("fePointLight");
    reveal_strlit("feSpotLight");
    reveal_strlit("altGlyph");
    reveal_strlit("altGlyphDef");
    reveal_strlit("altGlyphItem");
    reveal_strlit("glyphRef");
    reveal_strlit("textPath");
    reveal_strlit("tref");
    reveal_strlit("tspan");
    reveal_strlit("color-profile");
    reveal_strlit("cursor");
    reveal_strlit("filter");
    reveal_strlit("foreignObject");
    reveal_strlit("script");
    reveal_strlit("view");
    assert forall|i: int| 0 <= i < unsupported_tags().len() implies (#[trigger] unsupported_tags()[i])@ != "path"@ by {
        let t = unsupported_tags()[i]@;
        if t.len() == 4 {
            assert(t[0] != 'p' || t[1] != 'a');
        }
    }
}

/// The nodes of the path children, in document order.
pub open spec fn path_children_nodes(es: Seq<ElementModel>) -> Seq<PathModel>
    decreases es.len(),
{
    if es.len() == 0 {
        Seq::empty()
    } else {
        path_children_nodes(es.drop_last()) + if es.last().0 == "path"@ {
            seq![path_node_spec(es.last())->Ok_0]
        } else {
            Seq::empty()
        }
    }
}

/// Children of the root where every path parses convert without failure,
/// and give exactly the path nodes, in document order: every other child,
/// supported or not, adds nothing.
pub proof fn lemma_only_paths_kept(es: Seq<ElementModel>)
    requires
        forall|i: int| 0 <= i < es.len() && (#[trigger] es[i]).0 == "path"@ ==> path_node_spec(es[i]) is Ok,
    ensures
        children_spec(es) is Ok,
        children_spec(es)->Ok_0.0 == path_children_nodes(es),
    decreases es.len(),
{
    if es.len() > 0 {
        let init = es.drop_last();
        assert forall|i: int| 0 <= i < init.len() && (#[trigger] init[i]).0 == "path"@ implies path_node_spec(init[i]) is Ok by {
            assert(init[i] == es[i]);
        }
        lemma_only_paths_kept(init);
        lemma_path_is_supported();
        let e = es.last();
        assert(e == es[es.len() - 1]);
        let ps = children_spec(init)->Ok_0.0;
        if e.0 == "path"@ {
            assert(!is_unsupported_tag(e.0));
        } else {
            assert(ps + Seq::<PathModel>::empty() == ps);
        }
    }
}

} // verus!
