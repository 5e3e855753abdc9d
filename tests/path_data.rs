use vdconvert::number::parse_number;
use vdconvert::number::Number;
use vdconvert::number::NumberFault;
use vdconvert::path_data::parse_path;
use vdconvert::path_data::write_path_data;

fn whole(v: u128) -> Number {
    Number::Decimal { negative: false, mantissa: v, exponent: 0 }
}

fn text_of(d: &str) -> String {
    let nodes = parse_path(d).unwrap();
    let mut out: Vec<char> = Vec::new();
    write_path_data(&mut out, &nodes);
    out.into_iter().collect()
}

fn number(s: &str) -> Result<Number, NumberFault> {
    parse_number(&s.chars().collect())
}

#[test]
fn implicit_leading_moveto() {
    let nodes = parse_path("L 10 10").unwrap();
    assert_eq!(nodes.len(), 2);
    assert_eq!(nodes[0].0, 'M');
    assert_eq!(nodes[0].1, vec![whole(0), whole(0)]);
    assert_eq!(nodes[1].0, 'L');
    assert_eq!(nodes[1].1, vec![whole(10), whole(10)]);
}

#[test]
fn moveto_pairs_continue_as_lineto() {
    let nodes = parse_path("M0,0 10,10 20,20").unwrap();
    assert_eq!(nodes.len(), 1);
    assert_eq!(nodes[0].0, 'M');
    assert_eq!(nodes[0].1.len(), 6);
    assert_eq!(text_of("M0,0 10,10 20,20"), "M0,0L10,10L20,20");
    assert_eq!(text_of("m1,2 3,4"), "m1,2l3,4");
}

#[test]
fn arc_radii_forced_positive() {
    let nodes = parse_path("A -5 -3 0 0 1 10 10").unwrap();
    assert_eq!(nodes.len(), 2);
    assert_eq!(nodes[1].0, 'A');
    let expected: Vec<Number> = vec![5, 3, 0, 0, 1, 10, 10].into_iter().map(whole).collect();
    assert_eq!(nodes[1].1, expected);
}

#[test]
fn command_case_is_kept() {
    assert_eq!(text_of("m1 2 l3 4 z"), "m1,2l3,4z");
    assert_eq!(text_of("M1 2 C1 2 3 4 5 6"), "M1,2C1,2 3,4 5,6");
}

#[test]
fn scientific_notation_is_not_a_command() {
    let nodes = parse_path("M1e2 -2.5E-1").unwrap();
    assert_eq!(nodes.len(), 1);
    assert_eq!(text_of("M1e2 -2.5E-1"), "M100,-0.25");
}

#[test]
fn empty_geometry_gives_no_nodes() {
    assert!(parse_path("").unwrap().is_empty());
    assert!(parse_path("   ").unwrap().is_empty());
}

#[test]
fn malformed_and_infinite_tokens() {
    assert_eq!(parse_path("M1 x2").err(), Some(NumberFault::Malformed));
    assert_eq!(parse_path("M1 2..3").err(), Some(NumberFault::Malformed));
    // letters other than e and E start a new segment, so "inf" is not a token here
    assert_eq!(parse_path("M1 inf").err(), Some(NumberFault::Malformed));
    assert_eq!(parse_path("M1 1e39").err(), Some(NumberFault::Infinite));
    assert_eq!(parse_path("10 10").err(), Some(NumberFault::Malformed));
}

#[test]
fn number_tokens() {
    assert_eq!(number("10"), Ok(whole(10)));
    assert_eq!(number("-2.50"), Ok(Number::Decimal { negative: true, mantissa: 250, exponent: -2 }));
    assert_eq!(number(".5"), Ok(Number::Decimal { negative: false, mantissa: 5, exponent: -1 }));
    assert_eq!(number("+3."), Ok(whole(3)));
    assert_eq!(number("NaN"), Ok(Number::NotANumber));
    assert_eq!(number("-Infinity"), Err(NumberFault::Infinite));
    assert_eq!(number("."), Err(NumberFault::Malformed));
    assert_eq!(number("1e"), Err(NumberFault::Malformed));
    assert_eq!(number(""), Err(NumberFault::Malformed));
    // the largest value below the overflow point of a 32-bit float is finite
    assert!(number("340282356779733661637539395458142568447").is_ok());
    assert_eq!(number("340282356779733661637539395458142568448"), Err(NumberFault::Infinite));
}

#[test]
fn numbers_are_written_in_shortest_decimal_form() {
    assert_eq!(text_of("M0.50 -0 L007 1.250e1"), "M0.5,-0L7,12.5");
    assert_eq!(text_of("M0.001 2e-3"), "M0.001,0.002");
    assert_eq!(text_of("M0.000 12.0"), "M0,12");
}
