//! Resolution of the view box and the pixel size of a document from the
//! `width`, `height` and `viewBox` attributes of its root.
use vstd::prelude::*;

use crate::element::attr_spec;
use crate::element::SvgElement;
use crate::number::digit_run;
use crate::number::digit_run_exec;
use crate::number::digits_value;
use crate::number::digits_value_upto;
use crate::number::is_digit;
use crate::number::lemma_digit_run_bound;
use crate::number::parse_number;
use crate::number::parse_number_spec;
use crate::number::Number;
use crate::text::chars_of;
use crate::text::copy_range;

verus! {

/// The unit of a `width` or `height` attribute.
#[derive(Clone, Copy, Debug, PartialEq, Eq, Structural)]
pub enum Unit {
    Pixels,
    Percents,
}

/// A `width` or `height`: a whole number and its unit.
#[derive(Clone, Copy, Debug, PartialEq, Eq, Structural)]
pub struct Size(pub u128, pub Unit);

/// The coordinate rectangle: min x, min y, width and height.
#[derive(Clone, Copy, Debug, PartialEq, Eq, Structural)]
pub struct ViewBox(pub Number, pub Number, pub Number, pub Number);

pub open spec fn zero() -> Number {
    Number::Decimal { negative: false, mantissa: 0, exponent: 0 }
}

/// The number for a whole value.
pub open spec fn whole(v: u128) -> Number {
    Number::Decimal { negative: false, mantissa: v, exponent: 0 }
}

/// A number greater than zero.
pub open spec fn is_positive(n: Number) -> bool {
    match n {
        Number::Decimal { negative, mantissa, exponent: _ } => !negative && mantissa > 0,
        Number::NotANumber => false,
    }
}

impl ViewBox {
    /// Width and height are greater than zero.
    pub open spec fn wf(self) -> bool {
        is_positive(self.2) && is_positive(self.3)
    }
}

/// What a `width` or `height` value gives: the run of digits it starts with,
/// in percent where its last character is `%`.
pub open spec fn size_spec(v: Seq<char>) -> Option<Size> {
    let run = digit_run(v, 0);
    let value = digits_value(v.subrange(0, run as int));
    if run == 0 || value > u128::MAX {
        None
    } else {
        Some(
            Size(
                value as u128,
                if v.last() == '%' {
                    Unit::Percents
                } else {
                    Unit::Pixels
                },
            ),
        )
    }
}

/// The finite value of one space-separated piece, if it has one.
pub open spec fn piece_value(piece: Seq<char>) -> Option<Number> {
    match parse_number_spec(piece) {
        Ok(n) => if n is Decimal {
            Some(n)
        } else {
            None
        },
        Err(_) => None,
    }
}

/// The values of the pieces of `s` split at every space, empty pieces
/// included, where the first piece has begun with `cur`.
pub open spec fn piece_values(s: Seq<char>, cur: Seq<char>) -> Seq<Option<Number>>
    decreases s.len(),
{
    if s.len() == 0 {
        seq![piece_value(cur)]
    } else if s[0] == ' ' {
        seq![piece_value(cur)] + piece_values(s.drop_first(), Seq::empty())
    } else {
        piece_values(s.drop_first(), cur.push(s[0]))
    }
}

/// What a `viewBox` value gives: split at spaces it must give exactly four
/// pieces, each a finite number, the last two greater than zero.
pub open spec fn view_box_spec(v: Seq<char>) -> Option<ViewBox> {
    let ns = piece_values(v, Seq::empty());
    if ns.len() == 4 && ns[0] is Some && ns[1] is Some && ns[2] is Some && ns[3] is Some
        && is_positive(ns[2]->Some_0) && is_positive(ns[3]->Some_0) {
        Some(ViewBox(ns[0]->Some_0, ns[1]->Some_0, ns[2]->Some_0, ns[3]->Some_0))
    } else {
        None
    }
}

/// `n * v / 100`, where the product fits.
pub open spec fn scaled(n: Number, v: u128) -> Option<Number> {
    match n {
        Number::Decimal { negative, mantissa, exponent } => {
            if mantissa * v <= u128::MAX && exponent >= i64::MIN + 2 {
                Some(
                    Number::Decimal {
                        negative,
                        mantissa: (mantissa * v) as u128,
                        exponent: (exponent - 2) as i64,
                    },
                )
            } else {
                None
            }
        },
        Number::NotANumber => Some(Number::NotANumber),
    }
}

/// The pixel length of a size along a view-box side of length `side`.
pub open spec fn pixel_spec(side: Number, s: Size) -> Option<Number> {
    match s.1 {
        Unit::Percents => scaled(side, s.0),
        Unit::Pixels => Some(whole(s.0)),
    }
}

/// The view box and the pixel width and height, from the three attributes.
/// Accepted: sizes without view box (both in pixels, greater than zero), a view
/// box without sizes, or all three (a percent size is a share of the view box).
pub open spec fn resolve_spec(vb: Option<ViewBox>, w: Option<Size>, h: Option<Size>) -> Option<
    (ViewBox, Number, Number),
> {
    match (vb, w, h) {
        (None, Some(w), Some(h)) => {
            if w.0 > 0 && h.0 > 0 {
                Some((ViewBox(zero(), zero(), whole(w.0), whole(h.0)), whole(w.0), whole(h.0)))
            } else {
                None
            }
        },
        (Some(b), None, None) => Some((b, b.2, b.3)),
        (Some(b), Some(w), Some(h)) => match (pixel_spec(b.2, w), pixel_spec(b.3, h)) {
            (Some(pw), Some(ph)) => Some((b, pw, ph)),
            _ => None,
        },
        _ => None,
    }
}

/// The view box and pixel size that the attributes of a root element give.
pub open spec fn root_dimensions(attrs: Seq<(Seq<char>, Seq<char>)>) -> Option<
    (ViewBox, Number, Number),
> {
    resolve_spec(
        match attr_spec(attrs, "viewBox"@) {
            Some(v) => view_box_spec(v),
            None => None,
        },
        match attr_spec(attrs, "width"@) {
            Some(v) => size_spec(v),
            None => None,
        },
        match attr_spec(attrs, "height"@) {
            Some(v) => size_spec(v),
            None => None,
        },
    )
}

/// Reads a `width` or `height` value.
pub fn parse_size(v: &str) -> (r: Option<Size>)
    ensures
        r == size_spec(v@),
{
    let c = chars_of(v);
    let run = digit_run_exec(&c, 0);
    if run == 0 {
        return None;
    }
    let d = copy_range(&c, 0, run);
    proof {
        lemma_digit_run_bound(c@, 0);
        assert forall|k: int| 0 <= k < d@.len() implies is_digit(#[trigger] d@[k]) by {
            assert(d@[k] == c@[k]);
        }
    }
    match digits_value_upto(&d, u128::MAX) {
        None => None,
        Some(value) => {
            let unit = if c[c.len() - 1] == '%' {
                Unit::Percents
            } else {
                Unit::Pixels
            };
            Some(Size(value, unit))
        },
    }
}

/// Reads a `viewBox` value.
pub fn parse_view_box(v: &str) -> (r: Option<ViewBox>)
    ensures
        r == view_box_spec(v@),
        r is Some ==> r->Some_0.wf(),
{
    let s = chars_of(v);
    let n = s.len();
    let mut out: Vec<Option<Number>> = Vec::new();
    let mut cur: Vec<char> = Vec::new();
    let mut i: usize = 0;
    let ghost whole_seq = piece_values(s@, Seq::empty());
    assert(s@.subrange(0, n as int) == s@);
    while i < n
        invariant
            i <= n,
            n == s@.len(),
            whole_seq == piece_values(s@, Seq::empty()),
            whole_seq == out@ + piece_values(s@.subrange(i as int, n as int), cur@),
        decreases n - i,
    {
        let c = s[i];
        let ghost rest = s@.subrange(i as int, n as int);
        assert(rest.drop_first() == s@.subrange(i + 1, n as int));
        if c == ' ' {
            let ghost before = out@;
            let p = piece(&cur);
            out.push(p);
            assert(before + (seq![piece_value(cur@)] + piece_values(rest.drop_first(), Seq::empty()))
                == out@ + piece_values(rest.drop_first(), Seq::empty()));
            cur = Vec::new();
        } else {
            cur.push(c);
        }
        i = i + 1;
    }
    let p = piece(&cur);
    out.push(p);
    assert(whole_seq == out@);
    if out.len() != 4 {
        return None;
    }
    match (out[0], out[1], out[2], out[3]) {
        (Some(a), Some(b), Some(w), Some(h)) => {
            if is_positive_exec(w) && is_positive_exec(h) {
                Some(ViewBox(a, b, w, h))
            } else {
                None
            }
        },
        _ => None,
    }
}

fn is_positive_exec(n: Number) -> (r: bool)
    ensures
        r == is_positive(n),
{
    match n {
        Number::Decimal { negative, mantissa, exponent: _ } => !negative && mantissa > 0,
        Number::NotANumber => false,
    }
}

/// The finite value of one piece, if it has one.
fn piece(cur: &Vec<char>) -> (r: Option<Number>)
    ensures
        r == piece_value(cur@),
{
    match parse_number(cur) {
        Ok(n) => match n {
            Number::Decimal { negative: _, mantissa: _, exponent: _ } => Some(n),
            Number::NotANumber => None,
        },
        Err(_) => None,
    }
}

/// `n * v / 100`, where the product fits.
pub fn scale(n: Number, v: u128) -> (r: Option<Number>)
    ensures
        r == scaled(n, v),
{
    match n {
        Number::Decimal { negative, mantissa, exponent } => {
            match mantissa.checked_mul(v) {
                Some(m) => {
                    if exponent >= i64::MIN + 2 {
                        Some(Number::Decimal { negative, mantissa: m, exponent: exponent - 2 })
                    } else {
                        None
                    }
                },
                None => None,
            }
        },
        Number::NotANumber => Some(Number::NotANumber),
    }
}

fn pixel(side: Number, s: Size) -> (r: Option<Number>)
    ensures
        r == pixel_spec(side, s),
{
    match s.1 {
        Unit::Percents => scale(side, s.0),
        Unit::Pixels => Some(Number::Decimal { negative: false, mantissa: s.0, exponent: 0 }),
    }
}

/// Resolves the view box and the pixel size from what the three attributes gave.
pub fn resolve(vb: Option<ViewBox>, w: Option<Size>, h: Option<Size>) -> (r: Option<
    (ViewBox, Number, Number),
>)
    ensures
        r == resolve_spec(vb, w, h),
{
    match (vb, w, h) {
        (None, Some(w), Some(h)) => {
            if w.0 > 0 && h.0 > 0 {
                let z = Number::Decimal { negative: false, mantissa: 0, exponent: 0 };
                let pw = Number::Decimal { negative: false, mantissa: w.0, exponent: 0 };
                let ph = Number::Decimal { negative: false, mantissa: h.0, exponent: 0 };
                Some((ViewBox(z, z, pw, ph), pw, ph))
            } else {
                None
            }
        },
        (Some(b), None, None) => Some((b, b.2, b.3)),
        (Some(b), Some(w), Some(h)) => match (pixel(b.2, w), pixel(b.3, h)) {
            (Some(pw), Some(ph)) => Some((b, pw, ph)),
            _ => None,
        },
        _ => None,
    }
}

/// The view box of a root element.
pub fn view_box(e: &SvgElement) -> (r: Option<ViewBox>)
    ensures
        r == (match attr_spec(e@.1, "viewBox"@) {
            Some(v) => view_box_spec(v),
            None => None,
        }),
{
    match e.attr("viewBox") {
        Some(v) => parse_view_box(v.as_str()),
        None => None,
    }
}

/// A named size attribute of a root element.
pub fn parse_dim_by_name(e: &SvgElement, name: &str) -> (r: Option<Size>)
    ensures
        r == (match attr_spec(e@.1, name@) {
            Some(v) => size_spec(v),
            None => None,
        }),
{
    match e.attr(name) {
        Some(v) => parse_size(v.as_str()),
        None => None,
    }
}

/// The view box and the pixel width and height of a root element.
pub fn dimensions(e: &SvgElement) -> (r: Option<(ViewBox, Number, Number)>)
    ensures
        r == root_dimensions(e@.1),
        r is Some ==> r->Some_0.0.wf(),
{
    let vb = view_box(e);
    let w = parse_dim_by_name(e, "width");
    let h = parse_dim_by_name(e, "height");
    resolve(vb, w, h)
}

/// Resolution is total over the three accepted shapes: sizes alone (greater
/// than zero), a well-formed view box alone, and all three, where a size in
/// percent gives a result whenever its share of the view box can be held.
pub proof fn lemma_resolution_total(b: ViewBox, w: Size, h: Size)
    requires
        b.wf(),
        w.0 > 0,
        h.0 > 0,
    ensures
        resolve_spec(None, Some(w), Some(h)) is Some,
        resolve_spec(Some(b), None, None) is Some,
        resolve_spec(Some(b), Some(w), Some(h)) is Some <==> (pixel_spec(b.2, w) is Some
            && pixel_spec(b.3, h) is Some),
        w.1 == Unit::Pixels && h.1 == Unit::Pixels ==> resolve_spec(Some(b), Some(w), Some(h)) is Some,
{
}

/// A view box at the origin alone resolves exactly as the matching width and
/// height alone do, whatever unit those are written in.
pub proof fn lemma_resolution_agrees(w: Size, h: Size)
    requires
        w.0 > 0,
        h.0 > 0,
    ensures
        resolve_spec(Some(ViewBox(zero(), zero(), whole(w.0), whole(h.0))), None, None)
            == resolve_spec(None, Some(w), Some(h)),
{
}

/// On a root element, a view box at the origin alone and the matching width
/// and height alone give the same view box and pixel size.
pub proof fn lemma_root_dimensions_agree(
    a1: Seq<(Seq<char>, Seq<char>)>,
    a2: Seq<(Seq<char>, Seq<char>)>,
    w: Size,
    h: Size,
)
    requires
        w.0 > 0,
        h.0 > 0,
        attr_spec(a1, "viewBox"@) is Some,
        view_box_spec(attr_spec(a1, "viewBox"@)->Some_0) == Some(
            ViewBox(zero(), zero(), whole(w.0), whole(h.0)),
        ),
        attr_spec(a1, "width"@) is None,
        attr_spec(a1, "height"@) is None,
        attr_spec(a2, "viewBox"@) is None,
        attr_spec(a2, "width"@) is Some && size_spec(attr_spec(a2, "width"@)->Some_0) == Some(w),
        attr_spec(a2, "height"@) is Some && size_spec(attr_spec(a2, "height"@)->Some_0) == Some(h),
    ensures
        root_dimensions(a1) == root_dimensions(a2),
        root_dimensions(a2) == Some((ViewBox(zero(), zero(), whole(w.0), whole(h.0)), whole(w.0), whole(h.0))),
{
}

} // verus!
