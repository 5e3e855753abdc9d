//! Resolution of SVG color syntax into the hex notation of vector drawables.
use vstd::prelude::*;

use crate::text::chars_of;
use crate::text::same_chars;
use crate::text::string_from_chars;
use crate::text::trim_chars;
use crate::text::trimmed;

verus! {

/// What `str::to_lowercase` returns for a string.
pub uninterp spec fn lower_of(s: Seq<char>) -> Seq<char>;

/// Relies on `str::to_lowercase`: the result depends on the characters alone.
#[verifier::external_body]
fn lowercase(s: &str) -> (r: String)
    ensures
        r@ == lower_of(s@),
{
    s.to_lowercase()
}

/// The named colors of CSS, each with its six-digit hex value, in order of name.
pub open spec fn color_table() -> Seq<(&'static str, &'static str)> {
    colors_first() + colors_second() + colors_third() + colors_fourth() + colors_fifth() + colors_sixth()
}

pub open spec fn colors_first() -> Seq<(&'static str, &'static str)> {
    seq![
        ("aliceblue", "#f0f8ff"),
        ("antiquewhite", "#faebd7"),
        ("aqua", "#00ffff"),
        ("aquamarine", "#7fffd4"),
        ("azure", "#f0ffff"),
        ("beige", "#f5f5dc"),
        ("bisque", "#ffe4c4"),
        ("black", "#000000"),
        ("blanchedalmond", "#ffebcd"),
        ("blue", "#0000ff"),
        ("blueviolet", "#8a2be2"),
        ("brown", "#a52a2a"),
        ("burlywood", "#deb887"),
        ("cadetblue", "#5f9ea0"),
        ("chartreuse", "#7fff00"),
        ("chocolate", "#d2691e"),
        ("coral", "#ff7f50"),
        ("cornflowerblue", "#6495ed"),
        ("cornsilk", "#fff8dc"),
        ("crimson", "#dc143c"),
        ("cyan", "#00ffff"),
        ("darkblue", "#00008b"),
        ("darkcyan", "#008b8b"),
        ("darkgoldenrod", "#b8860b"),
        ("darkgray", "#a9a9a9"),
    ]
}

pub open spec fn colors_second() -> Seq<(&'static str, &'static str)> {
    seq![
        ("darkgrey", "#a9a9a9"),
        ("darkgreen", "#006400"),
        ("darkkhaki", "#bdb76b"),
        ("darkmagenta", "#8b008b"),
        ("darkolivegreen", "#556b2f"),
        ("darkorange", "#ff8c00"),
        ("darkorchid", "#9932cc"),
        ("darkred", "#8b0000"),
        ("darksalmon", "#e9967a"),
        ("darkseagreen", "#8fbc8f"),
        ("darkslateblue", "#483d8b"),
        ("darkslategray", "#2f4f4f"),
        ("darkslategrey", "#2f4f4f"),
        ("darkturquoise", "#00ced1"),
        ("darkviolet", "#9400d3"),
        ("deeppink", "#ff1493"),
        ("deepskyblue", "#00bfff"),
        ("dimgray", "#696969"),
        ("dimgrey", "#696969"),
        ("dodgerblue", "#1e90ff"),
        ("firebrick", "#b22222"),
        ("floralwhite", "#fffaf0"),
        ("forestgreen", "#228b22"),
        ("fuchsia", "#ff00ff"),
        ("gainsboro", "#dcdcdc"),
    ]
}

pub open spec fn colors_third() -> Seq<(&'static str, &'static str)> {
    seq![
        ("ghostwhite", "#f8f8ff"),
        ("gold", "#ffd700"),
        ("goldenrod", "#daa520"),
        ("gray", "#808080"),
        ("grey", "#808080"),
        ("green", "#008000"),
        ("greenyellow", "#adff2f"),
        ("honeydew", "#f0fff0"),
        ("hotpink", "#ff69b4"),
        ("indianred", "#cd5c5c"),
        ("indigo", "#4b0082"),
        ("ivory", "#fffff0"),
        ("khaki", "#f0e68c"),
        ("lavender", "#e6e6fa"),
        ("lavenderblush", "#fff0f5"),
        ("lawngreen", "#7cfc00"),
        ("lemonchiffon", "#fffacd"),
        ("lightblue", "#add8e6"),
        ("lightcoral", "#f08080"),
        ("lightcyan", "#e0ffff"),
        ("lightgoldenrodyellow", "#fafad2"),
        ("lightgray", "#d3d3d3"),
        ("lightgrey", "#d3d3d3"),
        ("lightgreen", "#90ee90"),
        ("lightpink", "#ffb6c1"),
    ]
}

pub open spec fn colors_fourth() -> Seq<(&'static str, &'static str)> {
    seq![
        ("lightsalmon", "#ffa07a"),
        ("lightseagreen", "#20b2aa"),
        ("lightskyblue", "#87cefa"),
        ("lightslategray", "#778899"),
        ("lightslategrey", "#778899"),
        ("lightsteelblue", "#b0c4de"),
        ("lightyellow", "#ffffe0"),
        ("lime", "#00ff00"),
        ("limegreen", "#32cd32"),
        ("linen", "#faf0e6"),
        ("magenta", "#ff00ff"),
        ("maroon", "#800000"),
        ("mediumaquamarine", "#66cdaa"),
        ("mediumblue", "#0000cd"),
        ("mediumorchid", "#ba55d3"),
        ("mediumpurple", "#9370db"),
        ("mediumseagreen", "#3cb371"),
        ("mediumslateblue", "#7b68ee"),
        ("mediumspringgreen", "#00fa9a"),
        ("mediumturquoise", "#48d1cc"),
        ("mediumvioletred", "#c71585"),
        ("midnightblue", "#191970"),
        ("mintcream", "#f5fffa"),
        ("mistyrose", "#ffe4e1"),
        ("moccasin", "#ffe4b5"),
    ]
}

pub open spec fn colors_fifth() -> Seq<(&'static str, &'static str)> {
    seq![
        ("navajowhite", "#ffdead"),
        ("navy", "#000080"),
        ("oldlace", "#fdf5e6"),
        ("olive", "#808000"),
        ("olivedrab", "#6b8e23"),
        ("orange", "#ffa500"),
        ("orangered", "#ff4500"),
        ("orchid", "#da70d6"),
        ("palegoldenrod", "#eee8aa"),
        ("palegreen", "#98fb98"),
        ("paleturquoise", "#afeeee"),
        ("palevioletred", "#db7093"),
        ("papayawhip", "#ffefd5"),
        ("peachpuff", "#ffdab9"),
        ("peru", "#cd853f"),
        ("pink", "#ffc0cb"),
        ("plum", "#dda0dd"),
        ("powderblue", "#b0e0e6"),
        ("purple", "#800080"),
        ("rebeccapurple", "#663399"),
        ("red", "#ff0000"),
        ("rosybrown", "#bc8f8f"),
        ("royalblue", "#4169e1"),
        ("saddlebrown", "#8b4513"),
        ("salmon", "#fa8072"),
    ]
}

pub open spec fn colors_sixth() -> Seq<(&'static str, &'static str)> {
    seq![
        ("sandybrown", "#f4a460"),
        ("seagreen", "#2e8b57"),
        ("seashell", "#fff5ee"),
        ("sienna", "#a0522d"),
        ("silver", "#c0c0c0"),
        ("skyblue", "#87ceeb"),
        ("slateblue", "#6a5acd"),
        ("slategray", "#708090"),
        ("slategrey", "#708090"),
        ("snow", "#fffafa"),
        ("springgreen", "#00ff7f"),
        ("steelblue", "#4682b4"),
        ("tan", "#d2b48c"),
        ("teal", "#008080"),
        ("thistle", "#d8bfd8"),
        ("tomato", "#ff6347"),
        ("turquoise", "#40e0d0"),
        ("violet", "#ee82ee"),
        ("wheat", "#f5deb3"),
        ("white", "#ffffff"),
        ("whitesmoke", "#f5f5f5"),
        ("yellow", "#ffff00"),
        ("yellowgreen", "#9acd32"),
    ]
}

/// The hex value of the first entry of `table` from `i` on named `name`.
pub open spec fn lookup_from(table: Seq<(&'static str, &'static str)>, name: Seq<char>, i: int) -> Option<
    Seq<char>,
>
    decreases table.len() - i,
{
    if i < 0 || i >= table.len() {
        None
    } else if table[i].0@ == name {
        Some(table[i].1@)
    } else {
        lookup_from(table, name, i + 1)
    }
}

/// The hex value of a lower-case color name, if the table names it.
pub open spec fn named_color(name: Seq<char>) -> Option<Seq<char>> {
    lookup_from(color_table(), name, 0)
}

/// The hex notation of a color value, once trimmed: see `color_parts_spec`.
pub open spec fn color_spec(color: Seq<char>) -> Option<Seq<char>> {
    color_parts_spec(trimmed(color), lower_of(trimmed(color)))
}

/// The hex notation of a trimmed color value `t` whose lower-case form is
/// `lowered`: a value that starts with `#` stands as it is, `none` is
/// transparent, and a name is looked up in lower case.
pub open spec fn color_parts_spec(t: Seq<char>, lowered: Seq<char>) -> Option<Seq<char>> {
    if t.len() > 0 && t[0] == '#' {
        Some(t)
    } else if t == seq!['n', 'o', 'n', 'e'] {
        Some(seq!['#', '0', '0', '0', '0', '0', '0', '0', '0'])
    } else {
        named_color(lowered)
    }
}

fn push_colors_first(v: &mut Vec<(&'static str, &'static str)>)
    ensures
        final(v)@ == old(v)@ + colors_first(),
{
    v.push(("aliceblue", "#f0f8ff"));
    v.push(("antiquewhite", "#faebd7"));
    v.push(("aqua", "#00ffff"));
    v.push(("aquamarine", "#7fffd4"));
    v.push(("azure", "#f0ffff"));
    v.push(("beige", "#f5f5dc"));
    v.push(("bisque", "#ffe4c4"));
    v.push(("black", "#000000"));
    v.push(("blanchedalmond", "#ffebcd"));
    v.push(("blue", "#0000ff"));
    v.push(("blueviolet", "#8a2be2"));
    v.push(("brown", "#a52a2a"));
    v.push(("burlywood", "#deb887"));
    v.push(("cadetblue", "#5f9ea0"));
    v.push(("chartreuse", "#7fff00"));
    v.push(("chocolate", "#d2691e"));
    v.push(("coral", "#ff7f50"));
    v.push(("cornflowerblue", "#6495ed"));
    v.push(("cornsilk", "#fff8dc"));
    v.push(("crimson", "#dc143c"));
    v.push(("cyan", "#00ffff"));
    v.push(("darkblue", "#00008b"));
    v.push(("darkcyan", "#008b8b"));
    v.push(("darkgoldenrod", "#b8860b"));
    v.push(("darkgray", "#a9a9a9"));
    assert(v@ =~= old(v)@ + colors_first());
}

fn push_colors_second(v: &mut Vec<(&'static str, &'static str)>)
    ensures
        final(v)@ == old(v)@ + colors_second(),
{
    v.push(("darkgrey", "#a9a9a9"));
    v.push(("darkgreen", "#006400"));
    v.push(("darkkhaki", "#bdb76b"));
    v.push(("darkmagenta", "#8b008b"));
    v.push(("darkolivegreen", "#556b2f"));
    v.push(("darkorange", "#ff8c00"));
    v.push(("darkorchid", "#9932cc"));
    v.push(("darkred", "#8b0000"));
    v.push(("darksalmon", "#e9967a"));
    v.push(("darkseagreen", "#8fbc8f"));
    v.push(("darkslateblue", "#483d8b"));
    v.push(("darkslategray", "#2f4f4f"));
    v.push(("darkslategrey", "#2f4f4f"));
    v.push(("darkturquoise", "#00ced1"));
    v.push(("darkviolet", "#9400d3"));
    v.push(("deeppink", "#ff1493"));
    v.push(("deepskyblue", "#00bfff"));
    v.push(("dimgray", "#696969"));
    v.push(("dimgrey", "#696969"));
    v.push(("dodgerblue", "#1e90ff"));
    v.push(("firebrick", "#b22222"));
    v.push(("floralwhite", "#fffaf0"));
    v.push(("forestgreen", "#228b22"));
    v.push(("fuchsia", "#ff00ff"));
    v.push(("gainsboro", "#dcdcdc"));
    assert(v@ =~= old(v)@ + colors_second());
}

fn push_colors_third(v: &mut Vec<(&'static str, &'static str)>)
    ensures
        final(v)@ == old(v)@ + colors_third(),
{
    v.push(("ghostwhite", "#f8f8ff"));
    v.push(("gold", "#ffd700"));
    v.push(("goldenrod", "#daa520"));
    v.push(("gray", "#808080"));
    v.push(("grey", "#808080"));
    v.push(("green", "#008000"));
    v.push(("greenyellow", "#adff2f"));
    v.push(("honeydew", "#f0fff0"));
    v.push(("hotpink", "#ff69b4"));
    v.push(("indianred", "#cd5c5c"));
    v.push(("indigo", "#4b0082"));
    v.push(("ivory", "#fffff0"));
    v.push(("khaki", "#f0e68c"));
    v.push(("lavender", "#e6e6fa"));
    v.push(("lavenderblush", "#fff0f5"));
    v.push(("lawngreen", "#7cfc00"));
    v.push(("lemonchiffon", "#fffacd"));
    v.push(("lightblue", "#add8e6"));
    v.push(("lightcoral", "#f08080"));
    v.push(("lightcyan", "#e0ffff"));
    v.push(("lightgoldenrodyellow", "#fafad2"));
    v.push(("lightgray", "#d3d3d3"));
    v.push(("lightgrey", "#d3d3d3"));
    v.push(("lightgreen", "#90ee90"));
    v.push(("lightpink", "#ffb6c1"));
    assert(v@ =~= old(v)@ + colors_third());
}

fn push_colors_fourth(v: &mut Vec<(&'static str, &'static str)>)
    ensures
        final(v)@ == old(v)@ + colors_fourth(),
{
    v.push(("lightsalmon", "#ffa07a"));
    v.push(("lightseagreen", "#20b2aa"));
    v.push(("lightskyblue", "#87cefa"));
    v.push(("lightslategray", "#778899"));
    v.push(("lightslategrey", "#778899"));
    v.push(("lightsteelblue", "#b0c4de"));
    v.push(("lightyellow", "#ffffe0"));
    v.push(("lime", "#00ff00"));
    v.push(("limegreen", "#32cd32"));
    v.push(("linen", "#faf0e6"));
    v.push(("magenta", "#ff00ff"));
    v.push(("maroon", "#800000"));
    v.push(("mediumaquamarine", "#66cdaa"));
    v.push(("mediumblue", "#0000cd"));
    v.push(("mediumorchid", "#ba55d3"));
    v.push(("mediumpurple", "#9370db"));
    v.push(("mediumseagreen", "#3cb371"));
    v.push(("mediumslateblue", "#7b68ee"));
    v.push(("mediumspringgreen", "#00fa9a"));
    v.push(("mediumturquoise", "#48d1cc"));
    v.push(("mediumvioletred", "#c71585"));
    v.push(("midnightblue", "#191970"));
    v.push(("mintcream", "#f5fffa"));
    v.push(("mistyrose", "#ffe4e1"));
    v.push(("moccasin", "#ffe4b5"));
    assert(v@ =~= old(v)@ + colors_fourth());
}

fn push_colors_fifth(v: &mut Vec<(&'static str, &'static str)>)
    ensures
        final(v)@ == old(v)@ + colors_fifth(),
{
    v.push(("navajowhite", "#ffdead"));
    v.push(("navy", "#000080"));
    v.push(("oldlace", "#fdf5e6"));
    v.push(("olive", "#808000"));
    v.push(("olivedrab", "#6b8e23"));
    v.push(("orange", "#ffa500"));
    v.push(("orangered", "#ff4500"));
    v.push(("orchid", "#da70d6"));
    v.push(("palegoldenrod", "#eee8aa"));
    v.push(("palegreen", "#98fb98"));
    v.push(("paleturquoise", "#afeeee"));
    v.push(("palevioletred", "#db7093"));
    v.push(("papayawhip", "#ffefd5"));
    v.push(("peachpuff", "#ffdab9"));
    v.push(("peru", "#cd853f"));
    v.push(("pink", "#ffc0cb"));
    v.push(("plum", "#dda0dd"));
    v.push(("powderblue", "#b0e0e6"));
    v.push(("purple", "#800080"));
    v.push(("rebeccapurple", "#663399"));
    v.push(("red", "#ff0000"));
    v.push(("rosybrown", "#bc8f8f"));
    v.push(("royalblue", "#4169e1"));
    v.push(("saddlebrown", "#8b4513"));
    v.push(("salmon", "#fa8072"));
    assert(v@ =~= old(v)@ + colors_fifth());
}

fn push_colors_sixth(v: &mut Vec<(&'static str, &'static str)>)
    ensures
        final(v)@ == old(v)@ + colors_sixth(),
{
    v.push(("sandybrown", "#f4a460"));
    v.push(("seagreen", "#2e8b57"));
    v.push(("seashell", "#fff5ee"));
    v.push(("sienna", "#a0522d"));
    v.push(("silver", "#c0c0c0"));
    v.push(("skyblue", "#87ceeb"));
    v.push(("slateblue", "#6a5acd"));
    v.push(("slategray", "#708090"));
    v.push(("slategrey", "#708090"));
    v.push(("snow", "#fffafa"));
    v.push(("springgreen", "#00ff7f"));
    v.push(("steelblue", "#4682b4"));
    v.push(("tan", "#d2b48c"));
    v.push(("teal", "#008080"));
    v.push(("thistle", "#d8bfd8"));
    v.push(("tomato", "#ff6347"));
    v.push(("turquoise", "#40e0d0"));
    v.push(("violet", "#ee82ee"));
    v.push(("wheat", "#f5deb3"));
    v.push(("white", "#ffffff"));
    v.push(("whitesmoke", "#f5f5f5"));
    v.push(("yellow", "#ffff00"));
    v.push(("yellowgreen", "#9acd32"));
    assert(v@ =~= old(v)@ + colors_sixth());
}

fn color_entries() -> (r: Vec<(&'static str, &'static str)>)
    ensures
        r@ == color_table(),
{
    let mut v: Vec<(&'static str, &'static str)> = Vec::new();
    push_colors_first(&mut v);
    push_colors_second(&mut v);
    push_colors_third(&mut v);
    push_colors_fourth(&mut v);
    push_colors_fifth(&mut v);
    push_colors_sixth(&mut v);
    assert(v@ =~= color_table());
    v
}

/// Looks a lower-case color name up in the table of named colors.
pub fn lookup_named_color(name: &str) -> (r: Option<String>)
    ensures
        match named_color(name@) {
            Some(h) => r is Some && r->Some_0@ == h,
            None => r is None,
        },
{
    let table = color_entries();
    let mut i: usize = 0;
    while i < table.len()
        invariant
            i <= table@.len(),
            table@.len() == color_table().len(),
            table@ == color_table(),
            named_color(name@) == lookup_from(color_table(), name@, i as int),
        decreases table@.len() - i,
    {
        let (key, hex) = table[i];
        if same_chars(key, name) {
            let h = chars_of(hex);
            return Some(string_from_chars(&h));
        }
        i = i + 1;
    }
    None
}

/// Converts an SVG color value into vector-drawable hex notation, if it is
/// one that the table or the notation rules cover.
pub fn color_svg2vd(color: &str) -> (r: Option<String>)
    ensures
        match color_spec(color@) {
            Some(h) => r is Some && r->Some_0@ == h,
            None => r is None,
        },
{
    let all = chars_of(color);
    let t = trim_chars(&all);
    let ts = string_from_chars(&t);
    let lower = lowercase(ts.as_str());
    resolve_color(ts.as_str(), lower.as_str())
}

/// The hex notation of a trimmed color value `t`, given its lower-case form.
pub fn resolve_color(t: &str, lowered: &str) -> (r: Option<String>)
    ensures
        match color_parts_spec(t@, lowered@) {
            Some(h) => r is Some && r->Some_0@ == h,
            None => r is None,
        },
{
    let c = chars_of(t);
    if c.len() > 0 && c[0] == '#' {
        return Some(string_from_chars(&c));
    }
    if c.len() == 4 && c[0] == 'n' && c[1] == 'o' && c[2] == 'n' && c[3] == 'e' {
        assert(c@ == seq!['n', 'o', 'n', 'e']);
        let z = vec!['#', '0', '0', '0', '0', '0', '0', '0', '0'];
        return Some(string_from_chars(&z));
    }
    assert(c@ != seq!['n', 'o', 'n', 'e']);
    lookup_named_color(lowered)
}

} // verus!
