use vdconvert::color::color_svg2vd;
use vdconvert::color::lookup_named_color;
use vdconvert::dimensions::parse_size;
use vdconvert::dimensions::parse_view_box;
use vdconvert::dimensions::resolve;
use vdconvert::dimensions::Size;
use vdconvert::dimensions::Unit;
use vdconvert::dimensions::ViewBox;
use vdconvert::document::convert_document;
use vdconvert::document::DiagnosticKind;
use vdconvert::element::SvgDocument;
use vdconvert::element::SvgElement;
use vdconvert::error::VectorDrawableError;
use vdconvert::markup::convert_svg_text;
use vdconvert::number::Number;
use vdconvert::path_node::PathNode;

fn whole(v: u128) -> Number {
    Number::Decimal { negative: false, mantissa: v, exponent: 0 }
}

fn element(name: &str, attrs: &[(&str, &str)]) -> SvgElement {
    SvgElement {
        name: name.to_string(),
        attributes: attrs.iter().map(|(n, v)| (n.to_string(), v.to_string())).collect(),
    }
}

fn square_root() -> SvgElement {
    element("svg", &[("viewBox", "0 0 24 24")])
}

fn header(w: &str, h: &str, vw: &str, vh: &str) -> String {
    format!(
        "<vector xmlns:android=\"http://schemas.android.com/apk/res/android\"\n        android:width=\"{}dp\"\n        android:height=\"{}dp\"\n        android:viewportWidth=\"{}\"\n        android:viewportHeight=\"{}\">\n\n",
        w, h, vw, vh
    )
}

fn path_text(d: &PathNode) -> String {
    let mut out: Vec<char> = Vec::new();
    d.to_vector_drawable(&mut out);
    out.into_iter().collect()
}

#[test]
fn color_resolution() {
    assert_eq!(color_svg2vd("red"), Some("#ff0000".to_string()));
    assert_eq!(color_svg2vd("none"), Some("#00000000".to_string()));
    assert_eq!(color_svg2vd("#abc"), Some("#abc".to_string()));
    assert_eq!(color_svg2vd("  Red "), Some("#ff0000".to_string()));
    assert_eq!(color_svg2vd("rgb(1,2,3)"), None);
    assert_eq!(lookup_named_color("aliceblue"), Some("#f0f8ff".to_string()));
    assert_eq!(lookup_named_color("yellowgreen"), Some("#9acd32".to_string()));
    assert_eq!(lookup_named_color("Red"), None);
}

#[test]
fn end_to_end_square() {
    let svg = "<svg xmlns=\"http://www.w3.org/2000/svg\" viewBox=\"0 0 24 24\"><path d=\"M0,0 L24,0 L24,24 Z\" fill=\"#ff0000\"/></svg>";
    let r = convert_svg_text("square.svg", svg).ok().unwrap();
    let expected = header("24", "24", "24", "24")
        + "    <path\n"
        + "            android:strokeWidth=\"1\"\n"
        + "            android:pathData=\"M0,0L24,0L24,24Z\"\n"
        + "            android:fillColor=\"#ff0000\" />\n\n"
        + "</vector>\n";
    assert_eq!(r.xml, expected);
    assert!(r.diagnostics.is_empty());
}

#[test]
fn fill_rule_even_odd_emits_fill_type() {
    let e = element("path", &[("d", "M0 0 L1 1"), ("fill", "red"), ("fill-rule", "evenodd")]);
    let p = PathNode::from(&e).ok().unwrap();
    let text = path_text(&p);
    assert!(text.contains("android:fillType=\"evenOdd\""));
    assert!(text.contains("android:fillColor=\"#ff0000\""));
}

#[test]
fn path_without_geometry_writes_nothing() {
    let absent = PathNode::from(&element("path", &[("fill", "red")])).ok().unwrap();
    assert_eq!(path_text(&absent), "");
    let empty = PathNode::from(&element("path", &[("d", ""), ("fill", "red")])).ok().unwrap();
    assert_eq!(path_text(&empty), "");
}

#[test]
fn path_with_empty_fill_writes_nothing() {
    let p = PathNode::from(&element("path", &[("d", "M0 0 L1 1"), ("stroke", "red")])).ok().unwrap();
    assert_eq!(path_text(&p), "");
    let q = PathNode::from(&element("path", &[("d", "M0 0"), ("fill", "none")])).ok().unwrap();
    assert_eq!(path_text(&q), "");
}

#[test]
fn attributes_are_mapped_and_ordered() {
    let e = element(
        "path",
        &[
            ("stroke-width", "2px"),
            ("stroke", "blue"),
            ("fill", "#123456"),
            ("id", "ignored"),
            ("stroke-linecap", "round"),
        ],
    );
    let p = PathNode::from(&e).ok();
    assert!(p.is_some());
    let text = path_text(&p.unwrap());
    // no geometry: nothing written
    assert_eq!(text, "");
    let e = element(
        "path",
        &[("d", "M1 1"), ("stroke-width", "2px"), ("stroke", "blue"), ("fill", "#123456"), ("id", "x")],
    );
    let text = path_text(&PathNode::from(&e).ok().unwrap());
    let expected = "    <path\n".to_string()
        + "            android:pathData=\"M1,1\"\n"
        + "            android:fillColor=\"#123456\"\n"
        + "            android:strokeColor=\"#0000ff\"\n"
        + "            android:strokeWidth=\"2\" />\n\n";
    assert_eq!(text, expected);
}

#[test]
fn zero_stroke_width_removes_stroke() {
    let e = element("path", &[("d", "M1 1"), ("fill", "red"), ("stroke", "blue"), ("stroke-width", "0")]);
    let text = path_text(&PathNode::from(&e).ok().unwrap());
    assert!(!text.contains("strokeColor"));
    assert!(text.contains("android:strokeWidth=\"0\""));
}

#[test]
fn url_values_are_dropped_with_a_diagnostic() {
    let doc = SvgDocument {
        root: square_root(),
        children: vec![element("path", &[("d", "M1 1"), ("fill", "url(#g)"), ("stroke", "red")])],
    };
    let r = convert_document(&doc).ok().unwrap();
    assert_eq!(r.xml, header("24", "24", "24", "24") + "</vector>\n");
    assert_eq!(r.diagnostics.len(), 1);
    assert_eq!(r.diagnostics[0].kind, DiagnosticKind::UnsupportedUrl);
}

#[test]
fn unsupported_siblings_are_skipped_in_order() {
    let doc = SvgDocument {
        root: square_root(),
        children: vec![
            element("path", &[("d", "M1 1"), ("fill", "#000001")]),
            element("text", &[]),
            element("path", &[("d", "M2 2"), ("fill", "#000002")]),
            element("rect", &[("width", "3")]),
            element("path", &[("d", "M3 3"), ("fill", "#000003")]),
        ],
    };
    let r = convert_document(&doc).ok().unwrap();
    let a = r.xml.find("#000001").unwrap();
    let b = r.xml.find("#000002").unwrap();
    let c = r.xml.find("#000003").unwrap();
    assert!(a < b && b < c);
    assert_eq!(r.xml.matches("<path").count(), 3);
    assert_eq!(r.diagnostics.len(), 2);
    assert_eq!(r.diagnostics[0].kind, DiagnosticKind::UnsupportedTag);
    assert_eq!(r.diagnostics[0].tag, "text");
    assert_eq!(r.diagnostics[1].kind, DiagnosticKind::UnimplementedTag);
    assert_eq!(r.diagnostics[1].tag, "rect");
}

#[test]
fn dimension_shapes() {
    let vb = parse_view_box("0 0 24 24").unwrap();
    assert_eq!(vb, ViewBox(whole(0), whole(0), whole(24), whole(24)));
    let w = parse_size("24").unwrap();
    let h = parse_size("24px").unwrap();
    assert_eq!(w, Size(24, Unit::Pixels));
    assert_eq!(h, Size(24, Unit::Pixels));
    // viewBox only and width/height only agree
    assert_eq!(resolve(Some(vb), None, None), resolve(None, Some(w), Some(h)));
    // all three, with percent
    let half = parse_size("50%").unwrap();
    assert_eq!(half, Size(50, Unit::Percents));
    let (_, pw, ph) = resolve(Some(vb), Some(half), Some(w)).unwrap();
    assert_eq!(pw, Number::Decimal { negative: false, mantissa: 1200, exponent: -2 });
    assert_eq!(ph, whole(24));
    // rejected shapes
    assert_eq!(resolve(None, Some(w), None), None);
    assert_eq!(resolve(Some(vb), Some(w), None), None);
    assert_eq!(resolve(None, None, None), None);
    assert_eq!(parse_view_box("0 0 24"), None);
    assert_eq!(parse_view_box("0,0,24,24"), None);
    assert_eq!(parse_view_box("0 0 0 24"), None);
    assert_eq!(parse_view_box("1 1 1 1 x"), None);
    assert_eq!(parse_view_box("0  0 24 24"), None);
    assert_eq!(parse_view_box("0 0 24 inf"), None);
    assert_eq!(parse_view_box("-1 0.5 2e1 24"), Some(ViewBox(
        Number::Decimal { negative: true, mantissa: 1, exponent: 0 },
        Number::Decimal { negative: false, mantissa: 5, exponent: -1 },
        Number::Decimal { negative: false, mantissa: 2, exponent: 1 },
        whole(24),
    )));
    assert_eq!(parse_size("abc"), None);
}

#[test]
fn percent_size_is_a_share_of_the_view_box() {
    let svg = "<svg xmlns=\"http://www.w3.org/2000/svg\" viewBox=\"0 0 48 24\" width=\"50%\" height=\"12\"></svg>";
    let r = convert_svg_text("half.svg", svg).ok().unwrap();
    assert_eq!(r.xml, header("24", "12", "48", "24") + "</vector>\n");
}

#[test]
fn conversion_failures() {
    let not_svg = SvgDocument { root: element("html", &[("viewBox", "0 0 1 1")]), children: vec![] };
    match convert_document(&not_svg) {
        Err(VectorDrawableError::NotSvgRoot(n)) => assert_eq!(n, "html"),
        _ => panic!("expected a root error"),
    }
    let no_size = SvgDocument { root: element("svg", &[]), children: vec![] };
    assert!(matches!(convert_document(&no_size), Err(VectorDrawableError::InvalidDimensionSvgTag)));
    let bad = SvgDocument {
        root: square_root(),
        children: vec![element("path", &[("d", "M1 x")])],
    };
    match convert_document(&bad) {
        Err(VectorDrawableError::InvalidPathData(d)) => assert_eq!(d, "M1 x"),
        _ => panic!("expected a path error"),
    }
    let inf = SvgDocument {
        root: square_root(),
        children: vec![element("path", &[("d", "M1 2e40")])],
    };
    match convert_document(&inf) {
        Err(VectorDrawableError::InfinitePathData(d)) => assert_eq!(d, "M1 2e40"),
        _ => panic!("expected an infinity error"),
    }
    match convert_svg_text("broken.svg", "<svg") {
        Err(VectorDrawableError::CannotParseSvg(p, _)) => assert_eq!(p, "broken.svg"),
        _ => panic!("expected a markup error"),
    }
}

#[test]
fn error_messages() {
    assert_eq!(
        VectorDrawableError::InvalidDimensionSvgTag.message(),
        "Invalid dimensions in <svg> tag"
    );
    assert_eq!(
        VectorDrawableError::CannotReadSvg("a.svg".to_string(), "gone".to_string()).message(),
        "Can't read file a.svg. Cause: gone"
    );
}

#[test]
fn namespaced_attributes_are_left_out() {
    let svg = "<svg xmlns=\"http://www.w3.org/2000/svg\" xmlns:x=\"urn:x\" viewBox=\"0 0 2 2\"><path d=\"M0 0\" x:fill=\"red\"/><path d=\"M1 1\" fill=\"red\" x:stroke=\"blue\"/></svg>";
    let r = convert_svg_text("ns.svg", svg).ok().unwrap();
    assert_eq!(r.xml.matches("<path").count(), 1);
    assert!(r.xml.contains("android:pathData=\"M1,1\""));
    assert!(!r.xml.contains("strokeColor"));
}

#[test]
fn read_document_keeps_children_in_order() {
    let doc = vdconvert::markup::read_document(
        "<svg xmlns=\"http://www.w3.org/2000/svg\" width=\"3\"><g/><path d=\"M0 0\"/></svg>",
    )
    .ok()
    .unwrap();
    assert_eq!(doc.root.name, "svg");
    assert_eq!(doc.root.attributes, vec![("width".to_string(), "3".to_string())]);
    assert_eq!(doc.children.len(), 2);
    assert_eq!(doc.children[0].name, "g");
    assert_eq!(doc.children[1].name, "path");
    assert!(vdconvert::markup::read_document("not markup").is_err());
}
