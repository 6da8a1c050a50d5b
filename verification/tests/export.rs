use rawaccel_convert_gui::export::{
    encoding, format_points, number_style, Encoding, NumberStyle, PointText,
};
use rawaccel_convert_gui::types::PointScaling;

#[allow(dead_code)]
#[derive(Debug)]
struct Point {
    x: f64,
    y: f64,
}

fn plain(points: &[(f64, f64)]) -> Vec<PointText> {
    points.iter().map(|(x, y)| PointText { x: x.to_string(), y: y.to_string() }).collect()
}

fn debug(points: &[(f64, f64)]) -> Vec<PointText> {
    points.iter().map(|(x, y)| PointText { x: format!("{x:?}"), y: format!("{y:?}") }).collect()
}

const CURVE: [(f64, f64); 3] = [(0.0, 1.0), (0.5, 1.25), (60.0, 1.5)];

#[test]
fn scalings_choose_their_encoding() {
    assert_eq!(encoding(PointScaling::Sens), Encoding::Dump);
    assert_eq!(encoding(PointScaling::Velocity), Encoding::Dump);
    assert_eq!(encoding(PointScaling::Gain), Encoding::Dump);
    assert_eq!(encoding(PointScaling::Libinput), Encoding::Values);
    assert_eq!(encoding(PointScaling::LibinputDebug), Encoding::Values);
    assert_eq!(encoding(PointScaling::LookupVelocity), Encoding::Pairs);
    assert_eq!(encoding(PointScaling::LookupSens), Encoding::Pairs);
}

#[test]
fn only_the_dump_wants_debug_numbers() {
    assert_eq!(number_style(PointScaling::Sens), NumberStyle::Debug);
    assert_eq!(number_style(PointScaling::Velocity), NumberStyle::Debug);
    assert_eq!(number_style(PointScaling::Gain), NumberStyle::Debug);
    assert_eq!(number_style(PointScaling::Libinput), NumberStyle::Plain);
    assert_eq!(number_style(PointScaling::LibinputDebug), NumberStyle::Plain);
    assert_eq!(number_style(PointScaling::LookupVelocity), NumberStyle::Plain);
    assert_eq!(number_style(PointScaling::LookupSens), NumberStyle::Plain);
}

#[test]
fn libinput_is_the_outputs_each_followed_by_a_space() {
    assert_eq!(format_points(&plain(&CURVE), PointScaling::Libinput), "1 1.25 1.5 ");
    assert_eq!(format_points(&plain(&CURVE), PointScaling::LibinputDebug), "1 1.25 1.5 ");
}

#[test]
fn libinput_of_one_point_ends_in_a_space() {
    assert_eq!(format_points(&plain(&[(3.0, 0.75)]), PointScaling::Libinput), "0.75 ");
}

#[test]
fn lookup_is_one_line_per_point() {
    assert_eq!(
        format_points(&plain(&CURVE), PointScaling::LookupVelocity),
        "0,1;\n0.5,1.25;\n60,1.5;\n"
    );
    assert_eq!(
        format_points(&plain(&CURVE), PointScaling::LookupSens),
        "0,1;\n0.5,1.25;\n60,1.5;\n"
    );
}

#[test]
fn the_dump_names_the_fields() {
    assert_eq!(
        format_points(&debug(&CURVE), PointScaling::Sens),
        "[Point { x: 0.0, y: 1.0 }, Point { x: 0.5, y: 1.25 }, Point { x: 60.0, y: 1.5 }]"
    );
}

#[test]
fn the_dump_is_what_the_debug_formatter_prints() {
    let curves: [&[(f64, f64)]; 4] =
        [&[], &[(0.1, 2.0)], &CURVE, &[(1e-7, 1e21), (f64::INFINITY, -0.0), (2.5, f64::NAN)]];
    for curve in curves {
        let points: Vec<Point> = curve.iter().map(|&(x, y)| Point { x, y }).collect();
        for scaling in [PointScaling::Sens, PointScaling::Velocity, PointScaling::Gain] {
            assert_eq!(format_points(&debug(curve), scaling), format!("{points:?}"));
        }
    }
}

#[test]
fn an_empty_curve_exports_as_nothing_or_as_empty_brackets() {
    let none: Vec<PointText> = vec![];
    assert_eq!(format_points(&none, PointScaling::Libinput), "");
    assert_eq!(format_points(&none, PointScaling::LibinputDebug), "");
    assert_eq!(format_points(&none, PointScaling::LookupVelocity), "");
    assert_eq!(format_points(&none, PointScaling::LookupSens), "");
    assert_eq!(format_points(&none, PointScaling::Sens), "[]");
}

#[test]
fn texts_are_taken_as_written() {
    let points = vec![
        PointText { x: "x0".to_string(), y: "y0".to_string() },
        PointText { x: "".to_string(), y: "ÿ".to_string() },
    ];
    assert_eq!(format_points(&points, PointScaling::Libinput), "y0 ÿ ");
    assert_eq!(format_points(&points, PointScaling::LookupSens), "x0,y0;\n,ÿ;\n");
    assert_eq!(
        format_points(&points, PointScaling::Velocity),
        "[Point { x: x0, y: y0 }, Point { x: , y: ÿ }]"
    );
}

#[test]
fn a_lookup_export_reads_back_as_the_same_table() {
    let text = format_points(&plain(&CURVE), PointScaling::LookupSens);
    let entries = rawaccel_convert_gui::lookup::lookup_entries(&text).unwrap();
    let read: Vec<(f64, f64)> = entries
        .iter()
        .map(|e| {
            (
                std::str::from_utf8(&e.x).unwrap().parse().unwrap(),
                std::str::from_utf8(&e.y).unwrap().parse().unwrap(),
            )
        })
        .collect();
    assert_eq!(read, CURVE);
}

#[test]
fn a_rewritten_table_has_the_same_entries() {
    let text = " 1,2;\t3.5,4e0;\n\n7,8; ";
    let entries = rawaccel_convert_gui::lookup::lookup_entries(text).unwrap();
    let texts: Vec<PointText> = entries
        .iter()
        .map(|e| PointText {
            x: String::from_utf8(e.x.clone()).unwrap(),
            y: String::from_utf8(e.y.clone()).unwrap(),
        })
        .collect();
    let written = format_points(&texts, PointScaling::LookupVelocity);
    assert_eq!(written, "1,2;\n3.5,4e0;\n7,8;\n");
    let again = rawaccel_convert_gui::lookup::lookup_entries(&written).unwrap();
    assert_eq!(again.len(), entries.len());
    for (a, b) in again.iter().zip(entries.iter()) {
        assert_eq!(a.x, b.x);
        assert_eq!(a.y, b.y);
    }
}
