//! Progress messages as text segments: a label, right-aligned and painted
//! bold in a tint, followed by plain text. Painting is left to the terminal
//! front end.
use vstd::prelude::*;

use crate::text::chars_of;
use crate::text::push_text;
use crate::text::string_from_chars;

verus! {

/// Width that labels are right-aligned to.
pub const INDENT_SIZE: usize = 12;

/// The color a label is painted in.
#[derive(Clone, Copy, Debug, PartialEq, Eq, Structural)]
pub enum Tint {
    Cyan,
    Green,
    Red,
    White,
}

/// A piece of a message: painted bold in a tint, or plain.
#[derive(Clone, Debug)]
pub struct Segment {
    pub text: String,
    pub tint: Option<Tint>,
}

impl View for Segment {
    type V = (Seq<char>, Option<Tint>);

    open spec fn view(&self) -> (Seq<char>, Option<Tint>) {
        (self.text@, self.tint)
    }
}

pub open spec fn segments_view(v: Seq<Segment>) -> Seq<(Seq<char>, Option<Tint>)> {
    v.map_values(|s: Segment| s@)
}

pub open spec fn spaces(n: nat) -> Seq<char> {
    Seq::new(n, |i: int| ' ')
}

/// A text right-aligned to the label width; a longer text stays as it is.
pub open spec fn indented(s: Seq<char>) -> Seq<char> {
    if s.len() <= INDENT_SIZE {
        spaces((INDENT_SIZE - s.len()) as nat) + s
    } else {
        s
    }
}

/// Texts that can be right-aligned as labels.
pub trait Indentable {
    spec fn label_text(&self) -> Seq<char>;

    /// The text with spaces before it up to the label width.
    fn indent(&self) -> (r: String)
        ensures
            r@ == indented(self.label_text()),
    ;
}

impl<'a> Indentable for &'a str {
    open spec fn label_text(&self) -> Seq<char> {
        (*self)@
    }

    fn indent(&self) -> (r: String) {
        let c = chars_of(*self);
        let mut out: Vec<char> = Vec::new();
        if c.len() <= INDENT_SIZE {
            let n = INDENT_SIZE - c.len();
            let mut i: usize = 0;
            while i < n
                invariant
                    i <= n,
                    out@ == spaces(i as nat),
                decreases n - i,
            {
                out.push(' ');
                i = i + 1;
                assert(out@ =~= spaces(i as nat));
            }
        }
        push_text(&mut out, *self);
        string_from_chars(&out)
    }
}

/// Messages that can be shown as segments.
pub trait Renderable {
    spec fn rendered(&self) -> Seq<(Seq<char>, Option<Tint>)>;

    /// The segments of the message.
    fn render(&self) -> (r: Vec<Segment>)
        ensures
            segments_view(r@) == self.rendered(),
    ;
}

impl Segment {
    /// A plain segment with the given characters.
    pub fn plain(t: &Vec<char>) -> (r: Segment)
        ensures
            r@ == (t@, None::<Tint>),
    {
        Segment { text: string_from_chars(t), tint: None }
    }
}

/// Appends a right-aligned label painted in `tint`.
pub fn push_segment(out: &mut Vec<Segment>, label: &str, tint: Tint)
    ensures
        segments_view(final(out)@) == segments_view(old(out)@).push((indented(label@), Some(tint))),
{
    let text = label.indent();
    out.push(Segment { text, tint: Some(tint) });
    assert(segments_view(out@) =~= segments_view(old(out)@).push((indented(label@), Some(tint))));
}

} // verus!
