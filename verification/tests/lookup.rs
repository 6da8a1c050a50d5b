use rawaccel_convert_gui::lookup::{
    entry_reading, lookup_entries, lookup_entries_of_bytes, lookup_table,
};
use rawaccel_convert_gui::scalar::Scalar;
use rawaccel_convert_gui::types::Point;

fn scalar(value: f64) -> Scalar {
    Scalar::from_bits(value.to_bits())
}

fn point(x: f64, y: f64) -> Point {
    Point { x: scalar(x), y: scalar(y) }
}

fn read(bytes: &[u8]) -> Option<Scalar> {
    std::str::from_utf8(bytes).ok()?.parse::<f64>().ok().map(scalar)
}

/// The whole way from text to table, with the numbers read as the platform
/// reads them.
fn parse_lookup_table(text: &str) -> Option<Vec<(f64, f64)>> {
    let entries = lookup_entries(text)?;
    let readings: Vec<Option<Point>> =
        entries.iter().map(|e| entry_reading(read(&e.x), read(&e.y))).collect();
    let table = lookup_table(&readings)?;
    let number = |s: &Scalar| f64::from_bits(s.to_bits());
    Some(table.iter().map(|p| (number(&p.x), number(&p.y))).collect())
}

fn entries(text: &str) -> Option<Vec<(String, String)>> {
    lookup_entries(text).map(|v| {
        v.into_iter()
            .map(|e| (String::from_utf8(e.x).unwrap(), String::from_utf8(e.y).unwrap()))
            .collect()
    })
}

fn pair(x: &str, y: &str) -> (String, String) {
    (x.to_string(), y.to_string())
}

#[test]
fn two_entries_on_two_lines_are_two_points() {
    assert_eq!(parse_lookup_table("1,2;\n3,4;\n"), Some(vec![(1.0, 2.0), (3.0, 4.0)]));
}

#[test]
fn an_empty_text_is_no_table() {
    assert_eq!(parse_lookup_table(""), None);
    assert!(lookup_entries("").is_none());
}

#[test]
fn a_missing_terminator_is_no_table() {
    assert_eq!(parse_lookup_table("1,2"), None);
    assert!(lookup_entries("1,2").is_none());
    assert!(lookup_entries("1,2;3,4").is_none());
}

#[test]
fn a_table_that_does_not_increase_is_no_table() {
    assert_eq!(parse_lookup_table("5,1;3,2;"), None);
    assert_eq!(entries("5,1;3,2;"), Some(vec![pair("5", "1"), pair("3", "2")]));
}

#[test]
fn equal_inputs_are_no_table() {
    assert_eq!(parse_lookup_table("1,1;1,2;"), None);
    assert_eq!(parse_lookup_table("0,1;-0,2;"), None);
    assert_eq!(parse_lookup_table("1.0,1;1,2;"), None);
}

#[test]
fn one_entry_is_a_table() {
    assert_eq!(parse_lookup_table("0.5,1.25;"), Some(vec![(0.5, 1.25)]));
}

#[test]
fn whitespace_may_stand_around_and_between_entries() {
    let expected = Some(vec![(1.0, 2.0), (3.0, 4.0)]);
    assert_eq!(parse_lookup_table("1,2;3,4;"), expected);
    assert_eq!(parse_lookup_table("  1,2; 3,4;  "), expected);
    assert_eq!(parse_lookup_table("\n1,2;\r\n\t3,4;\n\n"), expected);
    assert_eq!(parse_lookup_table("1,2;\x0b\x0c3,4;"), expected);
}

#[test]
fn whitespace_alone_is_no_table() {
    for text in [" ", "\n", " \t\r\n "] {
        assert!(lookup_entries(text).is_none(), "{text:?}");
    }
}

#[test]
fn whitespace_inside_an_entry_is_malformed() {
    for text in ["1 ,2;", "1, 2;", "1,2 ;", "1 2,3;", "1,\n2;"] {
        assert!(lookup_entries(text).is_none(), "{text:?}");
        assert_eq!(parse_lookup_table(text), None, "{text:?}");
    }
}

#[test]
fn misplaced_delimiters_are_malformed() {
    for text in [
        ";", ",", ",;", "1,;", ",2;", "1;", "1;2;", "1,2,3;", "1,2;;", "1,2;,", ";1,2;", "1,,2;",
        "1,2;3", "1,2;3,", "1,2;3,4",
    ] {
        assert!(lookup_entries(text).is_none(), "{text:?}");
    }
}

#[test]
fn the_format_does_not_judge_numbers() {
    assert_eq!(entries("a,b;"), Some(vec![pair("a", "b")]));
    assert_eq!(entries("1e3,-.5;+7,nan;"), Some(vec![pair("1e3", "-.5"), pair("+7", "nan")]));
    assert_eq!(entries("é,ü;"), Some(vec![pair("é", "ü")]));
}

#[test]
fn a_malformed_number_is_no_table() {
    assert_eq!(parse_lookup_table("a,b;"), None);
    assert_eq!(parse_lookup_table("1,2;x,4;"), None);
    assert_eq!(parse_lookup_table("1,2;3,y;"), None);
    assert_eq!(parse_lookup_table("1,2;3,4.5.6;"), None);
}

#[test]
fn numbers_are_read_as_the_platform_reads_them() {
    assert_eq!(
        parse_lookup_table("-1e1,+2.5;.5,1e-3;1.,inf;"),
        Some(vec![(-10.0, 2.5), (0.5, 0.001), (1.0, f64::INFINITY)])
    );
}

#[test]
fn an_input_that_is_no_number_cannot_be_ordered() {
    assert_eq!(parse_lookup_table("1,1;nan,2;"), None);
    assert_eq!(parse_lookup_table("nan,1;2,2;"), None);
    let alone = parse_lookup_table("nan,1;").unwrap();
    assert_eq!(alone.len(), 1);
    assert!(alone[0].0.is_nan());
    assert_eq!(alone[0].1, 1.0);
}

#[test]
fn entries_keep_their_bytes() {
    let found = lookup_entries_of_bytes(b"0.10,00;\n2,3;").unwrap();
    assert_eq!(found.len(), 2);
    assert_eq!(found[0].x, b"0.10");
    assert_eq!(found[0].y, b"00");
    assert_eq!(found[1].x, b"2");
    assert_eq!(found[1].y, b"3");
}

#[test]
fn bytes_that_are_no_text_can_still_be_entries() {
    let found = lookup_entries_of_bytes(&[0xFF, b',', 0x80, b';']).unwrap();
    assert_eq!(found[0].x, [0xFF]);
    assert_eq!(found[0].y, [0x80]);
    assert_eq!(read(&found[0].x), None);
}

#[test]
fn no_readings_are_no_table() {
    assert_eq!(lookup_table(&vec![]), None);
}

#[test]
fn one_missing_reading_is_no_table() {
    assert_eq!(lookup_table(&vec![None]), None);
    assert_eq!(lookup_table(&vec![Some(point(1.0, 2.0)), None, Some(point(3.0, 4.0))]), None);
    assert_eq!(lookup_table(&vec![Some(point(1.0, 2.0)), Some(point(3.0, 4.0)), None]), None);
}

#[test]
fn increasing_readings_are_the_table() {
    assert_eq!(
        lookup_table(&vec![Some(point(-1.0, 9.0)), Some(point(0.0, 5.0)), Some(point(0.5, 7.0))]),
        Some(vec![point(-1.0, 9.0), point(0.0, 5.0), point(0.5, 7.0)])
    );
}

#[test]
fn readings_out_of_order_are_no_table() {
    let falling = vec![Some(point(1.0, 1.0)), Some(point(3.0, 1.0)), Some(point(2.0, 1.0))];
    assert_eq!(lookup_table(&falling), None);
    assert_eq!(lookup_table(&vec![Some(point(2.0, 1.0)), Some(point(2.0, 1.0))]), None);
}

#[test]
fn an_entry_is_read_when_both_numbers_are() {
    assert_eq!(entry_reading(Some(scalar(1.0)), Some(scalar(2.0))), Some(point(1.0, 2.0)));
    assert_eq!(entry_reading(None, Some(scalar(2.0))), None);
    assert_eq!(entry_reading(Some(scalar(1.0)), None), None);
    assert_eq!(entry_reading(None, None), None);
}
