use chartplan::figure::{
    AxisScale, Export, ImageFormat, LineStyle, MarkerStyle, MarkerSymbol, Mode,
};
use chartplan::layout::{make_borders, make_layout};
use chartplan::{
    check_series, color_at, dash_at, dash_types, legend_position, line_plot, DashType, LegendAl,
    LineOrPoints, PlotError, PlotPar, Rgb,
};

fn labels(n: usize) -> Vec<String> {
    (0..n).map(|i| format!("series {}", i)).collect()
}

fn ramp(n: usize, step: f64) -> Vec<f64> {
    (0..n).map(|k| k as f64 * step).collect()
}

#[test]
fn three_series_with_two_legends_fail_before_any_export() {
    let x = vec![ramp(4, 1.0); 3];
    let y = vec![ramp(4, 2.0), ramp(4, 3.0), ramp(4, 4.0)];
    let par: PlotPar<f64> = PlotPar::new(800, 600, "x", "y", "t", "out", labels(2));
    assert_eq!(line_plot(&x, &y, &par), Err(PlotError::MissingLegend { index: 2 }));
    assert_eq!(check_series(&x, &y, &par), Err(PlotError::MissingLegend { index: 2 }));
}

#[test]
fn matched_series_give_one_trace_each_and_one_file_per_format() {
    for n in 1..=6usize {
        let x: Vec<Vec<f64>> = (0..n).map(|l| ramp(l + 2, 0.5)).collect();
        let y: Vec<Vec<f64>> = (0..n).map(|l| ramp(l + 2, 1.5)).collect();
        let par: PlotPar<f64> = PlotPar::new(640, 480, "x", "y", "t", "stem", labels(n));
        let figure = line_plot(&x, &y, &par).unwrap();
        assert_eq!(figure.traces.len(), n);
        assert_eq!(
            figure.exports,
            vec![
                Export { format: ImageFormat::PDF, width: 640, height: 480, scale: 1000 },
                Export { format: ImageFormat::PNG, width: 640, height: 480, scale: 1000 },
            ]
        );
        assert_eq!(figure.file_stem, "stem");
        for l in 0..n {
            assert_eq!(figure.traces[l].x, x[l]);
            assert_eq!(figure.traces[l].y, y[l]);
            assert_eq!(figure.traces[l].name, format!("series {}", l));
        }
    }
}

#[test]
fn no_series_give_an_empty_chart() {
    let x: Vec<Vec<f64>> = Vec::new();
    let y: Vec<Vec<f64>> = Vec::new();
    let par: PlotPar<f64> = PlotPar::new(640, 480, "x", "y", "t", "stem", Vec::new());
    let figure = line_plot(&x, &y, &par).unwrap();
    assert!(figure.traces.is_empty());
    assert_eq!(figure.exports.len(), 2);
}

#[test]
fn figure_carries_texts_layout_and_border() {
    let x = vec![ramp(3, 1.0)];
    let y = vec![ramp(3, 2.0)];
    let mut par: PlotPar<f64> =
        PlotPar::new(1600, 1080, "x, a.u.", "f(x)", "Main title", "dir/name", labels(1));
    par.font_family = String::from("Times New Roman");
    par.show_legend = false;
    let figure = line_plot(&x, &y, &par).unwrap();
    assert_eq!(figure.title, "Main title");
    assert_eq!(figure.x_title, "x, a.u.");
    assert_eq!(figure.y_title, "f(x)");
    assert_eq!(figure.font_family, "Times New Roman");
    assert_eq!(figure.file_stem, "dir/name");
    assert_eq!(figure.layout, make_layout(&par));
    assert!(!figure.layout.show_legend);
    assert_eq!(figure.borders, make_borders(1000));
}

#[test]
fn five_series_with_overrides() {
    let xs = ramp(250, 0.012);
    let x = vec![xs.clone(); 5];
    let y: Vec<Vec<f64>> = (0..5).map(|l| xs.iter().map(|v| v * l as f64).collect()).collect();
    let mut par: PlotPar<f64> = PlotPar::new(
        1600,
        1080,
        "x",
        "f(x)",
        "Approximations",
        "Taylor",
        vec![
            String::from("f(x)"),
            String::from("T1"),
            String::from("T2"),
            String::from("T3"),
            String::from("T4"),
        ],
    );
    par.legend_al = LegendAl::BottomLeft;
    par.line_or_points[3] = LineOrPoints::Points;
    par.dashes = dash_types();
    par.range_y = Some([-1.0, 1.0]);

    let figure = line_plot(&x, &y, &par).unwrap();
    assert_eq!(figure.traces.len(), 5);
    assert_eq!(figure.layout.legend.position, legend_position(LegendAl::BottomLeft));
    assert_eq!(figure.layout.y_axis.range, Some([-1.0, 1.0]));
    assert_eq!(figure.layout.x_axis.range, None);
    assert_eq!(figure.layout.y_axis.scale, AxisScale::Linear);
    for l in [0usize, 1, 2, 4] {
        let style = figure.traces[l].style;
        assert_eq!(style.mode, Mode::Lines);
        assert_eq!(
            style.line,
            Some(LineStyle { color: Rgb::from_array(color_at(l)), width: 5, dash: Some(dash_at(l)) })
        );
        assert_eq!(style.marker, None);
    }
    let points = figure.traces[3].style;
    assert_eq!(points.mode, Mode::Markers);
    assert_eq!(points.line, None);
    assert_eq!(
        points.marker,
        Some(MarkerStyle {
            size: 10,
            color: Some(Rgb { r: 80, g: 80, b: 80 }),
            symbol: MarkerSymbol::Circle
        })
    );
    assert_eq!(figure.traces[1].style.line.and_then(|s| s.dash), Some(DashType::Dash));
    assert_eq!(figure.traces[4].name, "T4");
    assert_eq!(figure.traces[2].y, y[2]);
}

#[test]
fn style_pools_as_large_as_the_series_count_never_fault() {
    for n in [1usize, 2, 47, 48, 99, 100] {
        let x = vec![ramp(2, 1.0); n];
        let y = vec![ramp(2, 1.0); n];
        let mut par: PlotPar<f64> = PlotPar::new(100, 100, "x", "y", "t", "f", labels(n));
        par.line_or_points = vec![LineOrPoints::LineAndPoints; n];
        par.colors = (0..n).map(color_at).collect();
        par.dashes = (0..n).map(dash_at).collect();
        let figure = line_plot(&x, &y, &par).unwrap();
        assert_eq!(figure.traces.len(), n);
        for l in 0..n {
            assert_eq!(
                figure.traces[l].style.line.map(|s| s.color),
                Some(Rgb::from_array(color_at(l)))
            );
            assert_eq!(figure.traces[l].style.line.and_then(|s| s.dash), Some(dash_at(l)));
        }
    }
}

#[test]
fn default_pools_serve_a_hundred_series() {
    let x = vec![ramp(2, 1.0); 100];
    let y = vec![ramp(2, 1.0); 100];
    let par: PlotPar<f64> = PlotPar::new(100, 100, "x", "y", "t", "f", labels(100));
    let figure = line_plot(&x, &y, &par).unwrap();
    for l in 0..100 {
        assert_eq!(
            figure.traces[l].style.line,
            Some(LineStyle {
                color: Rgb::from_array(color_at(l)),
                width: 5,
                dash: Some(DashType::Solid)
            })
        );
    }
    // one more series has no drawing mode
    let x = vec![ramp(2, 1.0); 101];
    let y = vec![ramp(2, 1.0); 101];
    let par: PlotPar<f64> = PlotPar::new(100, 100, "x", "y", "t", "f", labels(101));
    assert_eq!(line_plot(&x, &y, &par), Err(PlotError::MissingMode { index: 100 }));
}

#[test]
fn differing_numbers_of_series_are_a_fault() {
    let x = vec![ramp(2, 1.0); 2];
    let y = vec![ramp(2, 1.0); 3];
    let par: PlotPar<f64> = PlotPar::new(100, 100, "x", "y", "t", "f", labels(3));
    assert_eq!(
        line_plot(&x, &y, &par),
        Err(PlotError::SeriesCount { x_series: 2, y_series: 3 })
    );
    assert_eq!(
        line_plot(&y, &x, &par),
        Err(PlotError::SeriesCount { x_series: 3, y_series: 2 })
    );
}

#[test]
fn differing_lengths_of_a_pair_are_a_fault() {
    let x = vec![ramp(3, 1.0), ramp(4, 1.0), ramp(5, 1.0)];
    let y = vec![ramp(3, 1.0), ramp(7, 1.0), ramp(6, 1.0)];
    let par: PlotPar<f64> = PlotPar::new(100, 100, "x", "y", "t", "f", labels(3));
    assert_eq!(
        line_plot(&x, &y, &par),
        Err(PlotError::SeriesLength { index: 1, x_len: 4, y_len: 7 })
    );
}

#[test]
fn a_series_without_mode_is_a_fault() {
    let x = vec![ramp(3, 1.0); 3];
    let y = vec![ramp(3, 1.0); 3];
    let mut par: PlotPar<f64> = PlotPar::new(100, 100, "x", "y", "t", "f", labels(3));
    par.line_or_points = vec![LineOrPoints::Line; 2];
    assert_eq!(line_plot(&x, &y, &par), Err(PlotError::MissingMode { index: 2 }));
}

#[test]
fn empty_pools_are_a_fault() {
    let x = vec![ramp(3, 1.0); 2];
    let y = vec![ramp(3, 1.0); 2];
    let mut par: PlotPar<f64> = PlotPar::new(100, 100, "x", "y", "t", "f", labels(2));
    par.colors = Vec::new();
    assert_eq!(line_plot(&x, &y, &par), Err(PlotError::NoColors { index: 0 }));

    let mut par: PlotPar<f64> = PlotPar::new(100, 100, "x", "y", "t", "f", labels(2));
    par.dashes = Vec::new();
    par.line_or_points[0] = LineOrPoints::Points;
    assert_eq!(line_plot(&x, &y, &par), Err(PlotError::NoDashes { index: 1 }));

    // markers alone need no dash pattern
    par.line_or_points[1] = LineOrPoints::Points;
    assert_eq!(line_plot(&x, &y, &par).map(|f| f.traces.len()), Ok(2));
}

#[test]
fn the_first_series_at_fault_is_reported() {
    let x = vec![ramp(3, 1.0), ramp(3, 1.0), ramp(2, 1.0)];
    let y = vec![ramp(3, 1.0), ramp(3, 1.0), ramp(3, 1.0)];
    // series 1 has no legend, series 2 differs in length
    let par: PlotPar<f64> = PlotPar::new(100, 100, "x", "y", "t", "f", labels(1));
    assert_eq!(line_plot(&x, &y, &par), Err(PlotError::MissingLegend { index: 1 }));
    // at one series, the lengths come before the legend
    let x = vec![ramp(3, 1.0), ramp(2, 1.0)];
    let y = vec![ramp(3, 1.0), ramp(3, 1.0)];
    assert_eq!(
        line_plot(&x, &y, &par),
        Err(PlotError::SeriesLength { index: 1, x_len: 2, y_len: 3 })
    );
}

#[test]
fn colours_wrap_past_the_pool() {
    let n = 60;
    let x = vec![ramp(2, 1.0); n];
    let y = vec![ramp(2, 1.0); n];
    let par: PlotPar<f64> = PlotPar::new(100, 100, "x", "y", "t", "f", labels(n));
    let figure = line_plot(&x, &y, &par).unwrap();
    assert_eq!(
        figure.traces[48].style.line.map(|s| s.color),
        Some(Rgb { r: 68, g: 119, b: 170 })
    );
    assert_eq!(
        figure.traces[59].style.line.map(|s| s.color),
        Some(Rgb::from_array(color_at(11)))
    );
}

#[test]
fn check_series_accepts_what_line_plot_plots() {
    let x = vec![ramp(3, 1.0); 2];
    let y = vec![ramp(3, 1.0); 2];
    let par: PlotPar<f64> = PlotPar::new(100, 100, "x", "y", "t", "f", labels(2));
    assert_eq!(check_series(&x, &y, &par), Ok(()));
    assert!(line_plot(&x, &y, &par).is_ok());
}

#[test]
fn samples_of_any_copy_type() {
    let x: Vec<Vec<i32>> = vec![vec![1, 2, 3]];
    let y: Vec<Vec<i32>> = vec![vec![-1, -2, -3]];
    let mut par: PlotPar<i32> = PlotPar::new(100, 100, "x", "y", "t", "f", labels(1));
    par.range_x = Some([0, 4]);
    let figure = line_plot(&x, &y, &par).unwrap();
    assert_eq!(figure.traces[0].x, vec![1, 2, 3]);
    assert_eq!(figure.traces[0].y, vec![-1, -2, -3]);
    assert_eq!(figure.layout.x_axis.range, Some([0, 4]));
}
