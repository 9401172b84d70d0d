use chartplan::figure::{
    Anchor, AxisScale, Fill, FontStyle, ItemSizing, LegendPosition, Margins,
};
use chartplan::layout::{make_borders, make_exports, make_layout, series_style};
use chartplan::figure::{EdgeLine, Export, ImageFormat, LineStyle, MarkerStyle, MarkerSymbol, Mode};
use chartplan::{legend_position, scale_size, DashType, LegendAl, LineOrPoints, PlotPar, Rgb};

const BLACK: Rgb = Rgb { r: 0, g: 0, b: 0 };
const WHITE: Rgb = Rgb { r: 255, g: 255, b: 255 };

fn all_presets() -> Vec<LegendAl> {
    vec![
        LegendAl::BottomRight,
        LegendAl::TopRight,
        LegendAl::BottomLeft,
        LegendAl::TopLeft,
        LegendAl::CenterRight,
        LegendAl::CenterLeft,
        LegendAl::BottomCenter,
        LegendAl::TopCenter,
    ]
}

#[test]
fn legend_places_of_the_corners() {
    assert_eq!(
        legend_position(LegendAl::BottomRight),
        LegendPosition { x: 990, x_anchor: Anchor::Right, y: 10, y_anchor: Anchor::Bottom }
    );
    assert_eq!(
        legend_position(LegendAl::TopRight),
        LegendPosition { x: 990, x_anchor: Anchor::Right, y: 990, y_anchor: Anchor::Top }
    );
    assert_eq!(
        legend_position(LegendAl::BottomLeft),
        LegendPosition { x: 10, x_anchor: Anchor::Left, y: 10, y_anchor: Anchor::Bottom }
    );
    assert_eq!(
        legend_position(LegendAl::TopLeft),
        LegendPosition { x: 10, x_anchor: Anchor::Left, y: 990, y_anchor: Anchor::Top }
    );
}

#[test]
fn legend_places_of_the_edges() {
    assert_eq!(
        legend_position(LegendAl::CenterRight),
        LegendPosition { x: 990, x_anchor: Anchor::Right, y: 500, y_anchor: Anchor::Center }
    );
    assert_eq!(
        legend_position(LegendAl::CenterLeft),
        LegendPosition { x: 10, x_anchor: Anchor::Left, y: 500, y_anchor: Anchor::Center }
    );
    assert_eq!(
        legend_position(LegendAl::BottomCenter),
        LegendPosition { x: 500, x_anchor: Anchor::Center, y: 10, y_anchor: Anchor::Bottom }
    );
    assert_eq!(
        legend_position(LegendAl::TopCenter),
        LegendPosition { x: 500, x_anchor: Anchor::Center, y: 990, y_anchor: Anchor::Top }
    );
}

#[test]
fn legend_places_lie_within_the_plotting_area() {
    for al in all_presets() {
        let p = legend_position(al);
        assert!(p.x <= 1000 && p.y <= 1000);
        assert!(10 <= p.x && p.x <= 990);
        assert!(10 <= p.y && p.y <= 990);
    }
}

#[test]
fn legend_places_are_fixed_and_distinct() {
    let presets = all_presets();
    for (i, a) in presets.iter().enumerate() {
        assert_eq!(legend_position(*a), legend_position(*a));
        for (j, b) in presets.iter().enumerate() {
            if i != j {
                assert_ne!(legend_position(*a), legend_position(*b));
            }
        }
    }
}

#[test]
fn legend_place_does_not_depend_on_the_chart() {
    let mut small: PlotPar<f64> = PlotPar::new(10, 10, "", "", "", "a", Vec::new());
    let mut large: PlotPar<f64> =
        PlotPar::new(4000, 3000, "x", "y", "t", "b", vec![String::from("l")]);
    large.font_scale = 2500;
    large.log_y = true;
    for al in all_presets() {
        small.legend_al = al;
        large.legend_al = al;
        assert_eq!(make_layout(&small).legend.position, legend_position(al));
        assert_eq!(make_layout(&large).legend.position, legend_position(al));
    }
}

#[test]
fn scale_size_rounds_down() {
    assert_eq!(scale_size(38, 1000), 38);
    assert_eq!(scale_size(3, 1500), 4);
    assert_eq!(scale_size(5, 500), 2);
    assert_eq!(scale_size(10, 999), 9);
    assert_eq!(scale_size(3, 0), 0);
    assert_eq!(scale_size(0, 5000), 0);
    assert_eq!(scale_size(100, 2000), 200);
    assert_eq!(scale_size(255, u32::MAX), 1095216660);
}

#[test]
fn layout_at_the_defaults() {
    let par: PlotPar<f64> = PlotPar::new(1600, 1080, "x", "y", "t", "f", Vec::new());
    let layout = make_layout(&par);
    assert_eq!(layout.width, 1600);
    assert_eq!(layout.height, 1080);
    assert_eq!(layout.font, FontStyle { size: Some(32), color: None, family: false });
    assert_eq!(layout.title_font, FontStyle { size: Some(38), color: Some(BLACK), family: true });
    assert_eq!(layout.legend.position, legend_position(LegendAl::TopRight));
    assert_eq!(layout.legend.font, FontStyle { size: Some(36), color: Some(BLACK), family: true });
    assert_eq!(layout.legend.border_width, 3);
    assert_eq!(layout.legend.border_color, BLACK);
    assert_eq!(layout.legend.background, WHITE);
    assert_eq!(layout.legend.item_width, 52);
    assert_eq!(layout.legend.item_sizing, ItemSizing::Trace);
    assert!(layout.show_legend);
    assert_eq!(layout.plot_background, Fill::Transparent);
    assert_eq!(layout.paper_background, Fill::Color(WHITE));
    assert_eq!(layout.margin, Margins { left: 100, bottom: 75, top: Some(75) });
}

#[test]
fn axes_at_the_defaults() {
    let par: PlotPar<f64> = PlotPar::new(1600, 1080, "x", "y", "t", "f", Vec::new());
    let layout = make_layout(&par);
    let x = layout.x_axis;
    let y = layout.y_axis;
    assert_eq!(x.position, 0);
    assert!(x.show_line);
    assert_eq!(x.line_color, BLACK);
    assert_eq!(x.line_width, 3);
    assert_eq!(x.tick_length, 9);
    assert_eq!(x.tick_width, 5);
    assert_eq!(x.tick_color, BLACK);
    assert_eq!(x.tick_font, FontStyle { size: None, color: Some(BLACK), family: false });
    assert!(!x.zero_line);
    assert!(x.show_grid);
    assert_eq!(x.grid_color, Rgb { r: 220, g: 220, b: 220 });
    assert!(x.auto_margin);
    assert_eq!(x.title_font, FontStyle { size: Some(38), color: Some(BLACK), family: true });
    assert_eq!(x.tick_angle, None);
    assert_eq!(x.scale, AxisScale::Linear);
    assert_eq!(x.range, None);
    assert_eq!(y.tick_angle, Some(270));
    assert_eq!(y.scale, AxisScale::Linear);
    assert_eq!(y.range, None);
    assert_eq!(y.line_width, 3);
    assert_eq!(y.tick_width, 5);
}

#[test]
fn log_axes_and_fixed_ranges() {
    let mut par: PlotPar<f64> = PlotPar::new(800, 600, "x", "y", "t", "f", Vec::new());
    par.log_x = true;
    par.range_y = Some([-1.0, 1.0]);
    let layout = make_layout(&par);
    assert_eq!(layout.x_axis.scale, AxisScale::Log);
    assert_eq!(layout.x_axis.tick_angle, None);
    assert_eq!(layout.x_axis.range, None);
    assert_eq!(layout.y_axis.scale, AxisScale::Linear);
    assert_eq!(layout.y_axis.tick_angle, Some(270));
    assert_eq!(layout.y_axis.range, Some([-1.0, 1.0]));

    par.log_x = false;
    par.log_y = true;
    par.range_x = Some([0.5, 2.5]);
    par.range_y = None;
    let layout = make_layout(&par);
    assert_eq!(layout.x_axis.scale, AxisScale::Linear);
    assert_eq!(layout.x_axis.range, Some([0.5, 2.5]));
    assert_eq!(layout.y_axis.scale, AxisScale::Log);
    assert_eq!(layout.y_axis.tick_angle, Some(0));
    assert_eq!(layout.y_axis.range, None);
}

#[test]
fn sizes_follow_the_two_scales() {
    let mut par: PlotPar<f64> = PlotPar::new(800, 600, "x", "y", "t", "f", Vec::new());
    par.font_scale = 500;
    par.line_scale = 2000;
    let layout = make_layout(&par);
    assert_eq!(layout.font.size, Some(16));
    assert_eq!(layout.title_font.size, Some(19));
    assert_eq!(layout.legend.font.size, Some(18));
    assert_eq!(layout.x_axis.title_font.size, Some(19));
    assert_eq!(layout.margin, Margins { left: 50, bottom: 37, top: Some(37) });
    assert_eq!(layout.legend.border_width, 6);
    assert_eq!(layout.x_axis.line_width, 6);
    assert_eq!(layout.y_axis.tick_width, 10);
    assert_eq!(layout.x_axis.tick_length, 9);
    assert_eq!(layout.legend.item_width, 52);
}

#[test]
fn borders_close_the_box() {
    let borders = make_borders(1000);
    assert_eq!(
        borders,
        vec![
            EdgeLine { x0: 0, y0: 1000, x1: 1000, y1: 1000, color: BLACK, width: 3 },
            EdgeLine { x0: 1000, y0: 0, x1: 1000, y1: 1000, color: BLACK, width: 3 },
        ]
    );
    assert_eq!(make_borders(1700)[0].width, 5);
    assert_eq!(make_borders(1700)[1].width, 5);
}

#[test]
fn exports_are_a_pdf_and_a_png() {
    assert_eq!(
        make_exports(1600, 1080),
        vec![
            Export { format: ImageFormat::PDF, width: 1600, height: 1080, scale: 1000 },
            Export { format: ImageFormat::PNG, width: 1600, height: 1080, scale: 1000 },
        ]
    );
}

#[test]
fn series_style_by_mode() {
    let mut par: PlotPar<f64> = PlotPar::new(800, 600, "x", "y", "t", "f", Vec::new());
    par.line_or_points[1] = LineOrPoints::Points;
    par.line_or_points[2] = LineOrPoints::LineAndPoints;
    par.dashes[2] = DashType::Dot;
    let blue = Rgb { r: 68, g: 119, b: 170 };
    let orange = Rgb { r: 238, g: 119, b: 51 };
    let green = Rgb { r: 34, g: 136, b: 51 };

    let line = series_style(&par, 0);
    assert_eq!(line.mode, Mode::Lines);
    assert_eq!(line.line, Some(LineStyle { color: blue, width: 5, dash: Some(DashType::Solid) }));
    assert_eq!(line.marker, None);

    let points = series_style(&par, 1);
    assert_eq!(points.mode, Mode::Markers);
    assert_eq!(points.line, None);
    assert_eq!(
        points.marker,
        Some(MarkerStyle { size: 10, color: Some(orange), symbol: MarkerSymbol::Circle })
    );

    let both = series_style(&par, 2);
    assert_eq!(both.mode, Mode::LinesMarkers);
    assert_eq!(both.line, Some(LineStyle { color: green, width: 5, dash: Some(DashType::Dot) }));
    assert_eq!(
        both.marker,
        Some(MarkerStyle { size: 10, color: None, symbol: MarkerSymbol::Circle })
    );
}

#[test]
fn series_style_cycles_through_the_pools() {
    let mut par: PlotPar<f64> = PlotPar::new(800, 600, "x", "y", "t", "f", Vec::new());
    par.colors = vec![[1, 1, 1], [2, 2, 2]];
    par.dashes = vec![DashType::Dash, DashType::Dot, DashType::LongDash];
    let s = series_style(&par, 5);
    assert_eq!(
        s.line,
        Some(LineStyle { color: Rgb { r: 2, g: 2, b: 2 }, width: 5, dash: Some(DashType::LongDash) })
    );
    let s = series_style(&par, 6);
    assert_eq!(
        s.line,
        Some(LineStyle { color: Rgb { r: 1, g: 1, b: 1 }, width: 5, dash: Some(DashType::Dash) })
    );
    // the default colours hold 48 entries: the series 48 starts again
    let par: PlotPar<f64> = PlotPar::new(800, 600, "x", "y", "t", "f", Vec::new());
    assert_eq!(series_style(&par, 48).line.map(|l| l.color), Some(Rgb { r: 68, g: 119, b: 170 }));
    assert_eq!(series_style(&par, 51).line.map(|l| l.color), Some(Rgb { r: 80, g: 80, b: 80 }));
}
