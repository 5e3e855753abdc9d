//! Path elements: their presentation attributes, their geometry, and the
//! vector-drawable `path` element written for them.
use vstd::prelude::*;

use crate::color::color_spec;
use crate::color::color_svg2vd;
use crate::element::attr_spec;
use crate::element::SvgElement;
use crate::error::Failure;
use crate::error::VectorDrawableError;
use crate::number::NumberFault;
use crate::path_data::nodes_view;
use crate::path_data::parse_path;
use crate::path_data::parse_path_spec;
use crate::path_data::path_text;
use crate::path_data::write_path_data;
use crate::path_data::PathDataNode;
use crate::text::chars_of;
use crate::text::copy_range;
use crate::text::push_text;
use crate::text::same_chars;
use crate::text::string_from_chars;
use crate::text::trim_chars;
use crate::text::trimmed;

verus! {

/// Number of presentation attributes.
pub const PRESENTATION_COUNT: usize = 9;

pub const FILL: usize = 1;

pub const FILL_RULE: usize = 3;

pub const STROKE: usize = 4;

pub const STROKE_WIDTH: usize = 8;

/// The presentation attributes, in alphabetical order.
pub open spec fn presentation_names() -> Seq<&'static str> {
    seq![
        "clip",
        "fill",
        "fill-opacity",
        "fill-rule",
        "stroke",
        "stroke-linecap",
        "stroke-linejoin",
        "stroke-opacity",
        "stroke-width",
    ]
}

/// The vector-drawable attribute of each presentation attribute.
pub open spec fn presentation_targets() -> Seq<&'static str> {
    seq![
        "android:clip",
        "android:fillColor",
        "android:fillAlpha",
        "android:fillType",
        "android:strokeColor",
        "android:strokeLineCap",
        "android:strokeLineJoin",
        "android:strokeAlpha",
        "android:strokeWidth",
    ]
}

fn presentation_names_exec() -> (r: Vec<&'static str>)
    ensures
        r@ == presentation_names(),
{
    let v = vec![
        "clip",
        "fill",
        "fill-opacity",
        "fill-rule",
        "stroke",
        "stroke-linecap",
        "stroke-linejoin",
        "stroke-opacity",
        "stroke-width",
    ];
    assert(v@ =~= presentation_names());
    v
}

fn presentation_targets_exec() -> (r: Vec<&'static str>)
    ensures
        r@ == presentation_targets(),
{
    let v = vec![
        "android:clip",
        "android:fillColor",
        "android:fillAlpha",
        "android:fillType",
        "android:strokeColor",
        "android:strokeLineCap",
        "android:strokeLineJoin",
        "android:strokeAlpha",
        "android:strokeWidth",
    ];
    assert(v@ =~= presentation_targets());
    v
}

/// The position of `name` among the presentation attributes from `i` on, or -1.
pub open spec fn index_from(name: Seq<char>, i: int) -> int
    decreases PRESENTATION_COUNT - i,
{
    if i < 0 || i >= PRESENTATION_COUNT {
        -1
    } else if presentation_names()[i]@ == name {
        i
    } else {
        index_from(name, i + 1)
    }
}

pub open spec fn presentation_index(name: Seq<char>) -> int {
    index_from(name, 0)
}

/// A fill rule in the spelling of vector drawables.
pub open spec fn renamed_rule(v: Seq<char>) -> Seq<char> {
    if v == "nonzero"@ {
        "nonZero"@
    } else if v == "evenodd"@ {
        "evenOdd"@
    } else {
        v
    }
}

/// A value that refers to a paint server (a gradient or a pattern).
pub open spec fn is_url(v: Seq<char>) -> bool {
    v.len() >= 4 && v.subrange(0, 4) == seq!['u', 'r', 'l', '(']
}

/// The value recorded for attribute `i`, or none where it is left out.
pub open spec fn recorded_value(i: int, value: Seq<char>) -> Option<Seq<char>> {
    let v = if i == FILL_RULE {
        renamed_rule(value)
    } else {
        value
    };
    if i < 0 || is_url(v) {
        None
    } else {
        Some(v)
    }
}

/// The table after one more attribute: a presentation attribute is recorded
/// under its position, a stroke width of `0` takes the stroke color out, and
/// a paint-server value is left out.
pub open spec fn record(table: Seq<Option<Seq<char>>>, name: Seq<char>, value: Seq<char>) -> Seq<
    Option<Seq<char>>,
> {
    let i = presentation_index(name);
    match recorded_value(i, value) {
        None => table,
        Some(v) => if i == STROKE_WIDTH && v == seq!['0'] {
            table.update(STROKE as int, None).update(i, Some(v))
        } else {
            table.update(i, Some(v))
        },
    }
}

pub open spec fn empty_table() -> Seq<Option<Seq<char>>> {
    Seq::new(PRESENTATION_COUNT as nat, |i: int| None)
}

/// The presentation table of an attribute list, read in order.
pub open spec fn collect_attrs(attrs: Seq<(Seq<char>, Seq<char>)>) -> Seq<Option<Seq<char>>>
    decreases attrs.len(),
{
    if attrs.len() == 0 {
        empty_table()
    } else {
        record(collect_attrs(attrs.drop_last()), attrs.last().0, attrs.last().1)
    }
}

proof fn lemma_index_range(name: Seq<char>, i: int)
    requires
        0 <= i,
    ensures
        -1 <= index_from(name, i) < PRESENTATION_COUNT,
        index_from(name, i) == -1 || index_from(name, i) >= i,
    decreases PRESENTATION_COUNT - i,
{
    if i < PRESENTATION_COUNT && presentation_names()[i]@ != name {
        lemma_index_range(name, i + 1);
    }
}

proof fn lemma_collect_len(attrs: Seq<(Seq<char>, Seq<char>)>)
    ensures
        collect_attrs(attrs).len() == PRESENTATION_COUNT,
    decreases attrs.len(),
{
    if attrs.len() > 0 {
        lemma_collect_len(attrs.drop_last());
        lemma_index_range(attrs.last().0, 0);
    }
}

/// How many presentation values of an attribute list are left out as paint servers.
pub open spec fn url_count(attrs: Seq<(Seq<char>, Seq<char>)>) -> nat
    decreases attrs.len(),
{
    if attrs.len() == 0 {
        0
    } else {
        let i = presentation_index(attrs.last().0);
        url_count(attrs.drop_last()) + if i >= 0 && recorded_value(i, attrs.last().1) is None {
            1nat
        } else {
            0nat
        }
    }
}

/// A path element ready to be written.
#[derive(Clone, Debug)]
pub struct PathNode {
    pub attributes: Vec<Option<String>>,
    pub path_data: Vec<PathDataNode>,
}

pub open spec fn table_view(v: Seq<Option<String>>) -> Seq<Option<Seq<char>>> {
    v.map_values(
        |o: Option<String>|
            match o {
                Some(s) => Some(s@),
                None => None,
            },
    )
}

impl View for PathNode {
    type V = (Seq<Option<Seq<char>>>, Seq<(char, Seq<crate::number::Number>)>);

    open spec fn view(&self) -> (Seq<Option<Seq<char>>>, Seq<(char, Seq<crate::number::Number>)>) {
        (table_view(self.attributes@), nodes_view(self.path_data@))
    }
}

/// The failure for a geometry string that does not parse.
pub open spec fn path_failure(d: Seq<char>, f: NumberFault) -> Failure {
    match f {
        NumberFault::Malformed => Failure::InvalidPathData(d),
        NumberFault::Infinite => Failure::InfinitePathData(d),
    }
}

/// What a path element becomes: its presentation table and its records.
pub open spec fn path_node_spec(e: (Seq<char>, Seq<(Seq<char>, Seq<char>)>)) -> Result<
    (Seq<Option<Seq<char>>>, Seq<(char, Seq<crate::number::Number>)>),
    Failure,
> {
    match attr_spec(e.1, "d"@) {
        None => Ok((collect_attrs(e.1), Seq::empty())),
        Some(d) => match parse_path_spec(d) {
            Ok(nodes) => Ok((collect_attrs(e.1), nodes)),
            Err(f) => Err(path_failure(d, f)),
        },
    }
}

/// The presentation table of an element, and how many values were left out.
pub fn attributes(e: &SvgElement) -> (r: (Vec<Option<String>>, usize))
    ensures
        table_view(r.0@) == collect_attrs(e@.1),
        r.1 == url_count(e@.1),
{
    let names = presentation_names_exec();
    let mut table: Vec<Option<String>> = Vec::new();
    let mut k: usize = 0;
    while k < PRESENTATION_COUNT
        invariant
            k <= PRESENTATION_COUNT,
            table@.len() == k,
            forall|j: int| 0 <= j < k ==> table@[j] is None,
        decreases PRESENTATION_COUNT - k,
    {
        table.push(None);
        k = k + 1;
    }
    assert(table_view(table@) =~= empty_table());
    let mut dropped: usize = 0;
    let mut a: usize = 0;
    assert(e@.1.subrange(0, 0) =~= Seq::<(Seq<char>, Seq<char>)>::empty());
    while a < e.attributes.len()
        invariant
            a <= e.attributes@.len(),
            names@ == presentation_names(),
            table@.len() == PRESENTATION_COUNT,
            table_view(table@) == collect_attrs(e@.1.subrange(0, a as int)),
            dropped == url_count(e@.1.subrange(0, a as int)),
            dropped <= a,
        decreases e.attributes@.len() - a,
    {
        let pair = &e.attributes[a];
        let ghost prefix = e@.1.subrange(0, a + 1);
        assert(prefix.drop_last() == e@.1.subrange(0, a as int));
        assert(prefix.last() == (pair.0@, pair.1@));
        let i = presentation_position(&names, pair.0.as_str());
        let ghost before = table_view(table@);
        assert(collect_attrs(prefix) == record(before, pair.0@, pair.1@));
        if i < PRESENTATION_COUNT {
            let value = if i == FILL_RULE {
                rename_rule(pair.1.as_str())
            } else {
                pair.1.clone()
            };
            assert(recorded_value(i as int, pair.1@) == (if is_url(value@) {
                None
            } else {
                Some(value@)
            }));
            if starts_with_url(value.as_str()) {
                dropped = dropped + 1;
                assert(record(before, pair.0@, pair.1@) == before);
            } else {
                let zero_width = i == STROKE_WIDTH && same_chars(value.as_str(), "0");
                proof {
                    reveal_strlit("0");
                    assert("0"@ =~= seq!['0']);
                }
                if zero_width {
                    table.set(STROKE, None);
                }
                table.set(i, Some(value));
                proof {
                    if zero_width {
                        assert(table_view(table@) =~= before.update(STROKE as int, None).update(
                            i as int,
                            Some(value@),
                        ));
                    } else {
                        assert(table_view(table@) =~= before.update(i as int, Some(value@)));
                    }
                    assert(record(before, pair.0@, pair.1@) == table_view(table@));
                }
            }
        } else {
            assert(record(before, pair.0@, pair.1@) == before);
        }
        a = a + 1;
        assert(table_view(table@) =~= collect_attrs(e@.1.subrange(0, a as int)));
    }
    assert(e@.1.subrange(0, e@.1.len() as int) == e@.1);
    (table, dropped)
}

/// The position of `name` among the presentation attributes, or the count of them.
fn presentation_position(names: &Vec<&'static str>, name: &str) -> (r: usize)
    requires
        names@ == presentation_names(),
    ensures
        r <= PRESENTATION_COUNT,
        r < PRESENTATION_COUNT ==> r as int == presentation_index(name@),
        r == PRESENTATION_COUNT ==> presentation_index(name@) == -1,
{
    let mut i: usize = 0;
    while i < PRESENTATION_COUNT
        invariant
            i <= PRESENTATION_COUNT,
            names@ == presentation_names(),
            presentation_index(name@) == index_from(name@, i as int),
        decreases PRESENTATION_COUNT - i,
    {
        if same_chars(names[i], name) {
            return i;
        }
        i = i + 1;
    }
    i
}

fn rename_rule(v: &str) -> (r: String)
    ensures
        r@ == renamed_rule(v@),
{
    let mut out: Vec<char> = Vec::new();
    if same_chars(v, "nonzero") {
        push_text(&mut out, "nonZero");
    } else if same_chars(v, "evenodd") {
        push_text(&mut out, "evenOdd");
    } else {
        push_text(&mut out, v);
    }
    string_from_chars(&out)
}

fn starts_with_url(v: &str) -> (r: bool)
    ensures
        r == is_url(v@),
{
    let c = chars_of(v);
    if c.len() >= 4 && c[0] == 'u' && c[1] == 'r' && c[2] == 'l' && c[3] == '(' {
        assert(c@.subrange(0, 4) =~= seq!['u', 'r', 'l', '(']);
        true
    } else {
        proof {
            if c@.len() >= 4 {
                if c@.subrange(0, 4) == seq!['u', 'r', 'l', '('] {
                    assert(c@[0] == c@.subrange(0, 4)[0]);
                    assert(c@[1] == c@.subrange(0, 4)[1]);
                    assert(c@[2] == c@.subrange(0, 4)[2]);
                    assert(c@[3] == c@.subrange(0, 4)[3]);
                }
            }
        }
        false
    }
}

/// The geometry of a path element: none without a `d` attribute.
pub fn path_data(e: &SvgElement) -> (r: Result<Vec<PathDataNode>, VectorDrawableError>)
    ensures
        match attr_spec(e@.1, "d"@) {
            None => r is Ok && r->Ok_0@.len() == 0,
            Some(d) => match parse_path_spec(d) {
                Ok(nodes) => r is Ok && nodes_view(r->Ok_0@) == nodes,
                Err(f) => r is Err && r->Err_0@ == path_failure(d, f),
            },
        },
{
    match e.attr("d") {
        None => Ok(Vec::new()),
        Some(d) => match parse_path(d.as_str()) {
            Ok(nodes) => Ok(nodes),
            Err(NumberFault::Malformed) => Err(VectorDrawableError::InvalidPathData(d)),
            Err(NumberFault::Infinite) => Err(VectorDrawableError::InfinitePathData(d)),
        },
    }
}

pub open spec fn indent() -> Seq<char> {
    "            "@
}

/// A fill that paints nothing: absent, `none`, or transparent.
pub open spec fn fill_is_empty(table: Seq<Option<Seq<char>>>) -> bool {
    match table[FILL as int] {
        None => true,
        Some(v) => v == "none"@ || v == "#00000000"@,
    }
}

/// A recorded value as written out: a color in hex notation, or else the
/// trimmed value without a trailing `px`.
pub open spec fn attribute_value_text(v: Seq<char>) -> Seq<char> {
    let s = trimmed(v);
    match color_spec(s) {
        Some(c) => c,
        None => if s.len() >= 2 && s.subrange(s.len() - 2, s.len() as int) == seq!['p', 'x'] {
            s.subrange(0, s.len() - 2)
        } else {
            s
        },
    }
}

/// The recorded attributes among the first `k`, each on a line of its own
/// under its vector-drawable name.
pub open spec fn attributes_text(table: Seq<Option<Seq<char>>>, k: nat) -> Seq<char>
    decreases k,
{
    if k == 0 || k > table.len() || k > PRESENTATION_COUNT {
        Seq::empty()
    } else {
        attributes_text(table, (k - 1) as nat) + match table[k - 1] {
            None => Seq::empty(),
            Some(v) => seq!['\n'] + indent() + presentation_targets()[k - 1]@ + "=\""@
                + attribute_value_text(v) + seq!['"'],
        }
    }
}

/// The `path` element written for a path node. Nothing is written for a path
/// without geometry. A stroke counts as empty exactly when the fill does, so
/// nothing is written for a path with an empty fill either; a path without a
/// stroke width gets a width of one.
pub open spec fn path_element_text(n: (Seq<Option<Seq<char>>>, Seq<(char, Seq<crate::number::Number>)>)) -> Seq<char> {
    if n.1.len() == 0 || fill_is_empty(n.0) {
        Seq::empty()
    } else {
        "    <path\n"@ + (if n.0[STROKE_WIDTH as int] is None {
            indent() + "android:strokeWidth=\"1\"\n"@
        } else {
            Seq::empty()
        }) + indent() + "android:pathData=\""@ + path_text(n.1, n.1.len()) + seq!['"']
            + attributes_text(n.0, PRESENTATION_COUNT as nat) + " />\n\n"@
    }
}

/// Writes one recorded value as the output holds it.
fn push_attribute_value(out: &mut Vec<char>, v: &str)
    ensures
        final(out)@ == old(out)@ + attribute_value_text(v@),
{
    let all = chars_of(v);
    let t = trim_chars(&all);
    let ts = string_from_chars(&t);
    match color_svg2vd(ts.as_str()) {
        Some(c) => push_text(out, c.as_str()),
        None => {
            let n = t.len();
            if n >= 2 && t[n - 2] == 'p' && t[n - 1] == 'x' {
                assert(t@.subrange(n - 2, n as int) =~= seq!['p', 'x']);
                let cut = copy_range(&t, 0, n - 2);
                let cs = string_from_chars(&cut);
                push_text(out, cs.as_str());
            } else {
                proof {
                    if n >= 2 && t@.subrange(n - 2, n as int) == seq!['p', 'x'] {
                        assert(t@[n - 2] == t@.subrange(n - 2, n as int)[0]);
                        assert(t@[n - 1] == t@.subrange(n - 2, n as int)[1]);
                    }
                }
                push_text(out, ts.as_str());
            }
        },
    }
}

/// Appends each recorded attribute on a line of its own, under its
/// vector-drawable name, in alphabetical order of the SVG names.
#[verifier::rlimit(60)]
pub fn write_attribute_values(attributes: &Vec<Option<String>>, out: &mut Vec<char>)
    requires
        attributes@.len() == PRESENTATION_COUNT,
    ensures
        final(out)@ == old(out)@ + attributes_text(table_view(attributes@), PRESENTATION_COUNT as nat),
{
    let targets = presentation_targets_exec();
    let mut k: usize = 0;
    while k < PRESENTATION_COUNT
        invariant
            k <= PRESENTATION_COUNT,
            attributes@.len() == PRESENTATION_COUNT,
            targets@ == presentation_targets(),
            out@ == old(out)@ + attributes_text(table_view(attributes@), k as nat),
        decreases PRESENTATION_COUNT - k,
    {
        match &attributes[k] {
            None => {},
            Some(v) => {
                out.push('\n');
                push_text(out, "            ");
                push_text(out, targets[k]);
                push_text(out, "=\"");
                push_attribute_value(out, v.as_str());
                out.push('"');
            },
        }
        k = k + 1;
        assert(out@ =~= old(out)@ + attributes_text(table_view(attributes@), k as nat));
    }
}

impl PathNode {
    /// The presentation table has one place for each presentation attribute.
    pub open spec fn wf(&self) -> bool {
        self.attributes@.len() == PRESENTATION_COUNT
    }

    /// Reads a path element: its presentation attributes and its geometry.
    pub fn from(e: &SvgElement) -> (r: Result<PathNode, VectorDrawableError>)
        ensures
            match path_node_spec(e@) {
                Ok(n) => r is Ok && r->Ok_0@ == n && r->Ok_0.wf(),
                Err(f) => r is Err && r->Err_0@ == f,
            },
    {
        let (table, _) = attributes(e);
        proof {
            assert(table_view(table@).len() == table@.len());
            lemma_collect_len(e@.1);
        }
        match path_data(e) {
            Ok(nodes) => {
                let r = PathNode { attributes: table, path_data: nodes };
                proof {
                    if attr_spec(e@.1, "d"@) is None {
                        assert(nodes_view(nodes@) =~= Seq::empty());
                    }
                }
                Ok(r)
            },
            Err(err) => Err(err),
        }
    }

    /// Appends the `path` element of this node to `out`.
    pub fn to_vector_drawable(&self, out: &mut Vec<char>)
        requires
            self.wf(),
        ensures
            final(out)@ == old(out)@ + path_element_text(self@),
    {
        // First, decide whether the path can be skipped, since it has no visible effect.
        if self.path_data.len() == 0 {
            return;
        }
        let fill = &self.attributes[FILL];
        let empty_fill = match fill {
            None => true,
            Some(v) => same_chars(v.as_str(), "none") || same_chars(v.as_str(), "#00000000"),
        };
        // The stroke counts as empty exactly when the fill does.
        let empty_stroke = empty_fill;
        if empty_fill && empty_stroke {
            return;
        }
        let ghost start = out@;
        push_text(out, "    <path\n");
        if empty_fill {
            push_text(out, "            ");
            push_text(out, "android:fillColor=\"#ff000000\"\n");
        }
        if !empty_stroke && self.attributes[STROKE_WIDTH].is_none() {
            push_text(out, "            ");
            push_text(out, "android:strokeWidth=\"1\"\n");
        }
        push_text(out, "            ");
        push_text(out, "android:pathData=\"");
        write_path_data(out, &self.path_data);
        out.push('"');
        write_attribute_values(&self.attributes, out);
        push_text(out, " />\n\n");
        assert(out@ =~= start + path_element_text(self@));
    }
}

/// A path element without a geometry attribute, or whose geometry is empty or
/// white space only, converts without failure and writes no element.
pub proof fn lemma_no_geometry_no_element(e: (Seq<char>, Seq<(Seq<char>, Seq<char>)>))
    requires
        match attr_spec(e.1, "d"@) {
            None => true,
            Some(d) => trimmed(d).len() == 0,
        },
    ensures
        path_node_spec(e) is Ok,
        path_node_spec(e)->Ok_0.1.len() == 0,
        path_element_text(path_node_spec(e)->Ok_0) == Seq::<char>::empty(),
{
    match attr_spec(e.1, "d"@) {
        None => {},
        Some(d) => {
            assert(crate::path_data::segments_from(trimmed(d), 0) == Ok::<
                Seq<(char, Seq<crate::number::Number>)>,
                NumberFault,
            >(Seq::empty()));
        },
    }
}

/// A `fill-rule` of `evenodd` is recorded as the fill type `evenOdd`.
pub proof fn lemma_even_odd_recorded(table: Seq<Option<Seq<char>>>)
    requires
        table.len() == PRESENTATION_COUNT,
    ensures
        record(table, "fill-rule"@, "evenodd"@)[FILL_RULE as int] == Some("evenOdd"@),
        presentation_targets()[FILL_RULE as int] == "android:fillType",
{
    reveal_strlit("evenOdd");
    reveal_strlit("evenodd");
    reveal_strlit("nonzero");
    reveal_strlit("clip");
    reveal_strlit("fill");
    reveal_strlit("fill-opacity");
    reveal_strlit("fill-rule");
    reveal_with_fuel(index_from, 5);
    assert("clip"@.len() != "fill-rule"@.len());
    assert("fill"@.len() != "fill-rule"@.len());
    assert("fill-opacity"@[5] != "fill-rule"@[5]);
    assert(presentation_index("fill-rule"@) == FILL_RULE);
    assert("evenodd"@[0] != "nonzero"@[0]);
    assert(renamed_rule("evenodd"@) == "evenOdd"@);
    assert(!is_url("evenOdd"@));
}

} // verus!
