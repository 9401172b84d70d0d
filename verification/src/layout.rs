//! From the parameters of a chart to its layout: sizes from the two scale
//! factors, the legend's place from its preset, the two axes, the border.

use vstd::prelude::*;
use crate::config::{LegendAl, LineOrPoints, PlotPar, PlotParView};
use crate::figure::{
    Anchor, AxisScale, AxisStyle, EdgeLine, Export, Fill, FontStyle, ImageFormat, ItemSizing,
    Layout, LegendPosition, LegendStyle, LineStyle, Margins, MarkerStyle, MarkerSymbol, Mode,
    TraceStyle,
};
use crate::style::{rgb, rgb_of, DashType, Rgb};

verus! {

/// Width of the axis lines, the border lines and the legend's border, in
/// pixels at the line scale one.
pub const THICK_LINE: u8 = 3;

/// Width of the strokes of the series and of the ticks, at the line scale
/// one.
pub const MEDIUM_LINE: u8 = 5;

/// Size of a marker, at the line scale one.
pub const MARKER_SIZE: u8 = 10;

/// Size of the title's font, at the font scale one.
pub const TITLE_FONT: u8 = 38;

/// Size of the legend's font, at the font scale one.
pub const LEGEND_FONT: u8 = 36;

/// Size of the font of the tick labels, at the font scale one.
pub const TICK_FONT: u8 = 32;

/// Size of the font of the axis titles, at the font scale one.
pub const AXIS_FONT: u8 = 38;

/// The left margin, at the font scale one.
pub const LEFT_MARGIN: u8 = 100;

/// The bottom margin, at the font scale one.
pub const BOTTOM_MARGIN: u8 = 75;

/// The top margin, at the font scale one.
pub const TOP_MARGIN: u8 = 75;

/// Length of a tick, whatever the scale.
pub const TICK_LENGTH: usize = 9;

/// Width of the sample of a trace in the legend, whatever the scale.
pub const LEGEND_ITEM_WIDTH: usize = 52;

/// `base` times a scale factor in thousandths, rounded down.
pub open spec fn scaled(base: u8, scale: u32) -> usize {
    (base as int * scale as int / 1000) as usize
}

/// The colour of texts, axes, ticks and border.
pub open spec fn foreground() -> Rgb {
    rgb(0, 0, 0)
}

/// The colour of the paper and of the legend's box.
pub open spec fn background() -> Rgb {
    rgb(255, 255, 255)
}

/// The colour of the grid lines.
pub open spec fn grid_gray() -> Rgb {
    rgb(220, 220, 220)
}

/// The place of the legend for each preset. Every preset puts the legend
/// inside the plotting area, a hundredth of its size off the edges that the
/// preset names: a corner off two edges, the middle of an edge off that one
/// edge, half way along it. The point of the legend's box that is placed is
/// the one nearest to those edges.
pub open spec fn legend_place(al: LegendAl) -> LegendPosition {
    match al {
        LegendAl::BottomRight => LegendPosition {
            x: 990,
            x_anchor: Anchor::Right,
            y: 10,
            y_anchor: Anchor::Bottom,
        },
        LegendAl::TopRight => LegendPosition {
            x: 990,
            x_anchor: Anchor::Right,
            y: 990,
            y_anchor: Anchor::Top,
        },
        LegendAl::BottomLeft => LegendPosition {
            x: 10,
            x_anchor: Anchor::Left,
            y: 10,
            y_anchor: Anchor::Bottom,
        },
        LegendAl::TopLeft => LegendPosition {
            x: 10,
            x_anchor: Anchor::Left,
            y: 990,
            y_anchor: Anchor::Top,
        },
        LegendAl::CenterRight => LegendPosition {
            x: 990,
            x_anchor: Anchor::Right,
            y: 500,
            y_anchor: Anchor::Center,
        },
        LegendAl::CenterLeft => LegendPosition {
            x: 10,
            x_anchor: Anchor::Left,
            y: 500,
            y_anchor: Anchor::Center,
        },
        LegendAl::BottomCenter => LegendPosition {
            x: 500,
            x_anchor: Anchor::Center,
            y: 10,
            y_anchor: Anchor::Bottom,
        },
        LegendAl::TopCenter => LegendPosition {
            x: 500,
            x_anchor: Anchor::Center,
            y: 990,
            y_anchor: Anchor::Top,
        },
    }
}

/// The font of a title or of the legend: a size that goes by the font
/// scale, the foreground colour, the figure's font family.
pub open spec fn text_font(base: u8, font_scale: u32) -> FontStyle {
    FontStyle { size: Some(scaled(base, font_scale)), color: Some(foreground()), family: true }
}

pub open spec fn legend_style_of(al: LegendAl, font_scale: u32, line_scale: u32) -> LegendStyle {
    LegendStyle {
        position: legend_place(al),
        font: text_font(LEGEND_FONT, font_scale),
        border_width: scaled(THICK_LINE, line_scale),
        border_color: foreground(),
        background: background(),
        item_width: LEGEND_ITEM_WIDTH,
        item_sizing: ItemSizing::Trace,
    }
}

/// An axis. Both axes are drawn alike, with a line, ticks and a grid; they
/// differ in their scale, their range and the angle of their tick labels.
pub open spec fn axis_of<T>(
    font_scale: u32,
    line_scale: u32,
    tick_angle: Option<u32>,
    log: bool,
    range: Option<[T; 2]>,
) -> AxisStyle<T> {
    AxisStyle {
        position: 0,
        show_line: true,
        line_color: foreground(),
        line_width: scaled(THICK_LINE, line_scale),
        tick_length: TICK_LENGTH,
        tick_width: scaled(MEDIUM_LINE, line_scale),
        tick_color: foreground(),
        tick_font: FontStyle { size: None, color: Some(foreground()), family: false },
        zero_line: false,
        show_grid: true,
        grid_color: grid_gray(),
        auto_margin: true,
        title_font: text_font(AXIS_FONT, font_scale),
        tick_angle,
        scale: if log {
            AxisScale::Log
        } else {
            AxisScale::Linear
        },
        range,
    }
}

/// The angle of the tick labels of the Y axis: upright on a linear axis,
/// level on a logarithmic one.
pub open spec fn y_tick_angle(log_y: bool) -> u32 {
    if log_y {
        0
    } else {
        270
    }
}

/// The layout that belongs to the parameters `cfg`.
pub open spec fn layout_of<T>(cfg: PlotParView<T>) -> Layout<T> {
    Layout {
        width: cfg.width,
        height: cfg.height,
        font: FontStyle { size: Some(scaled(TICK_FONT, cfg.font_scale)), color: None, family: false },
        title_font: text_font(TITLE_FONT, cfg.font_scale),
        legend: legend_style_of(cfg.legend_al, cfg.font_scale, cfg.line_scale),
        show_legend: cfg.show_legend,
        x_axis: axis_of(cfg.font_scale, cfg.line_scale, None, cfg.log_x, cfg.range_x),
        y_axis: axis_of(
            cfg.font_scale,
            cfg.line_scale,
            Some(y_tick_angle(cfg.log_y)),
            cfg.log_y,
            cfg.range_y,
        ),
        plot_background: Fill::Transparent,
        paper_background: Fill::Color(background()),
        margin: Margins {
            left: scaled(LEFT_MARGIN, cfg.font_scale),
            bottom: scaled(BOTTOM_MARGIN, cfg.font_scale),
            top: Some(scaled(TOP_MARGIN, cfg.font_scale)),
        },
    }
}

/// The two lines that close the box which the axes begin: along the top
/// edge of the plotting area, then along its right edge.
pub open spec fn borders_of(line_scale: u32) -> Seq<EdgeLine> {
    seq![
        EdgeLine {
            x0: 0,
            y0: 1000,
            x1: 1000,
            y1: 1000,
            color: foreground(),
            width: scaled(THICK_LINE, line_scale),
        },
        EdgeLine {
            x0: 1000,
            y0: 0,
            x1: 1000,
            y1: 1000,
            color: foreground(),
            width: scaled(THICK_LINE, line_scale),
        },
    ]
}

/// The image files of a chart: a PDF, then a PNG, both of the chart's size
/// and at the scale one.
pub open spec fn exports_of(width: usize, height: usize) -> Seq<Export> {
    seq![
        Export { format: ImageFormat::PDF, width, height, scale: 1000 },
        Export { format: ImageFormat::PNG, width, height, scale: 1000 },
    ]
}

/// Whether a series in this mode has a stroke.
pub open spec fn draws_line(mode: LineOrPoints) -> bool {
    mode != LineOrPoints::Points
}

/// The style of a series from its mode, its colour and its dash pattern. A
/// stroke has the colour and the pattern. Markers are circles; they have the
/// colour where there is no stroke to show it.
pub open spec fn trace_style_of(
    mode: LineOrPoints,
    color: Rgb,
    dash: DashType,
    line_scale: u32,
) -> TraceStyle {
    let line = LineStyle { color, width: scaled(MEDIUM_LINE, line_scale), dash: Some(dash) };
    let size = scaled(MARKER_SIZE, line_scale);
    match mode {
        LineOrPoints::Line => TraceStyle { mode: Mode::Lines, line: Some(line), marker: None },
        LineOrPoints::Points => TraceStyle {
            mode: Mode::Markers,
            line: None,
            marker: Some(MarkerStyle { size, color: Some(color), symbol: MarkerSymbol::Circle }),
        },
        LineOrPoints::LineAndPoints => TraceStyle {
            mode: Mode::LinesMarkers,
            line: Some(line),
            marker: Some(MarkerStyle { size, color: None, symbol: MarkerSymbol::Circle }),
        },
    }
}

/// The entry of a style pool for the series `l`: the pool is gone through
/// in a cycle.
pub open spec fn pool_entry<A>(pool: Seq<A>, l: int) -> A
    recommends
        pool.len() > 0,
        0 <= l,
{
    pool[l % pool.len() as int]
}

/// The style of the series `l` under the parameters `cfg`.
pub open spec fn series_style_of<T>(cfg: PlotParView<T>, l: int) -> TraceStyle
    recommends
        0 <= l < cfg.line_or_points.len(),
{
    trace_style_of(
        cfg.line_or_points[l],
        rgb_of(pool_entry(cfg.colors, l)),
        pool_entry(cfg.dashes, l),
        cfg.line_scale,
    )
}

/// A size for a scale factor: `base` pixels at the factor one.
pub fn scale_size(base: u8, scale: u32) -> (s: usize)
    ensures
        s == scaled(base, scale),
        s as int == base as int * scale as int / 1000,
{
    assert(base as int * scale as int <= 255 * 4294967295) by (nonlinear_arith)
        requires
            0 <= base <= 255,
            0 <= scale <= 4294967295,
    ;
    let product: u64 = (base as u64) * (scale as u64);
    let s: u64 = product / 1000;
    s as usize
}

/// The place of the legend for a preset.
pub fn legend_position(al: LegendAl) -> (p: LegendPosition)
    ensures
        p == legend_place(al),
{
    match al {
        LegendAl::BottomRight => LegendPosition {
            x: 990,
            x_anchor: Anchor::Right,
            y: 10,
            y_anchor: Anchor::Bottom,
        },
        LegendAl::TopRight => LegendPosition {
            x: 990,
            x_anchor: Anchor::Right,
            y: 990,
            y_anchor: Anchor::Top,
        },
        LegendAl::BottomLeft => LegendPosition {
            x: 10,
            x_anchor: Anchor::Left,
            y: 10,
            y_anchor: Anchor::Bottom,
        },
        LegendAl::TopLeft => LegendPosition {
            x: 10,
            x_anchor: Anchor::Left,
            y: 990,
            y_anchor: Anchor::Top,
        },
        LegendAl::CenterRight => LegendPosition {
            x: 990,
            x_anchor: Anchor::Right,
            y: 500,
            y_anchor: Anchor::Center,
        },
        LegendAl::CenterLeft => LegendPosition {
            x: 10,
            x_anchor: Anchor::Left,
            y: 500,
            y_anchor: Anchor::Center,
        },
        LegendAl::BottomCenter => LegendPosition {
            x: 500,
            x_anchor: Anchor::Center,
            y: 10,
            y_anchor: Anchor::Bottom,
        },
        LegendAl::TopCenter => LegendPosition {
            x: 500,
            x_anchor: Anchor::Center,
            y: 990,
            y_anchor: Anchor::Top,
        },
    }
}

fn make_text_font(base: u8, font_scale: u32) -> (f: FontStyle)
    ensures
        f == text_font(base, font_scale),
{
    FontStyle {
        size: Some(scale_size(base, font_scale)),
        color: Some(Rgb::new(0, 0, 0)),
        family: true,
    }
}

fn make_legend(al: LegendAl, font_scale: u32, line_scale: u32) -> (s: LegendStyle)
    ensures
        s == legend_style_of(al, font_scale, line_scale),
{
    LegendStyle {
        position: legend_position(al),
        font: make_text_font(LEGEND_FONT, font_scale),
        border_width: scale_size(THICK_LINE, line_scale),
        border_color: Rgb::new(0, 0, 0),
        background: Rgb::new(255, 255, 255),
        item_width: LEGEND_ITEM_WIDTH,
        item_sizing: ItemSizing::Trace,
    }
}

fn make_axis<T>(
    font_scale: u32,
    line_scale: u32,
    tick_angle: Option<u32>,
    log: bool,
    range: Option<[T; 2]>,
) -> (a: AxisStyle<T>)
    ensures
        a == axis_of(font_scale, line_scale, tick_angle, log, range),
{
    let foreground = Rgb::new(0, 0, 0);
    AxisStyle {
        position: 0,
        show_line: true,
        line_color: foreground,
        line_width: scale_size(THICK_LINE, line_scale),
        tick_length: TICK_LENGTH,
        tick_width: scale_size(MEDIUM_LINE, line_scale),
        tick_color: foreground,
        tick_font: FontStyle { size: None, color: Some(foreground), family: false },
        zero_line: false,
        show_grid: true,
        grid_color: Rgb::new(220, 220, 220),
        auto_margin: true,
        title_font: make_text_font(AXIS_FONT, font_scale),
        tick_angle,
        scale: if log {
            AxisScale::Log
        } else {
            AxisScale::Linear
        },
        range,
    }
}

/// The layout of the chart with the parameters `plot_par`.
pub fn make_layout<T: Copy>(plot_par: &PlotPar<T>) -> (layout: Layout<T>)
    ensures
        layout == layout_of(plot_par@),
{
    let font_scale = plot_par.font_scale;
    let line_scale = plot_par.line_scale;
    let y_angle: u32 = if plot_par.log_y {
        0
    } else {
        270
    };
    Layout {
        width: plot_par.width,
        height: plot_par.height,
        font: FontStyle { size: Some(scale_size(TICK_FONT, font_scale)), color: None, family: false },
        title_font: make_text_font(TITLE_FONT, font_scale),
        legend: make_legend(plot_par.legend_al, font_scale, line_scale),
        show_legend: plot_par.show_legend,
        x_axis: make_axis(font_scale, line_scale, None, plot_par.log_x, plot_par.range_x),
        y_axis: make_axis(font_scale, line_scale, Some(y_angle), plot_par.log_y, plot_par.range_y),
        plot_background: Fill::Transparent,
        paper_background: Fill::Color(Rgb::new(255, 255, 255)),
        margin: Margins {
            left: scale_size(LEFT_MARGIN, font_scale),
            bottom: scale_size(BOTTOM_MARGIN, font_scale),
            top: Some(scale_size(TOP_MARGIN, font_scale)),
        },
    }
}

/// The two border lines.
pub fn make_borders(line_scale: u32) -> (borders: Vec<EdgeLine>)
    ensures
        borders@ == borders_of(line_scale),
{
    let foreground = Rgb::new(0, 0, 0);
    let width = scale_size(THICK_LINE, line_scale);
    let mut borders: Vec<EdgeLine> = Vec::new();
    borders.push(EdgeLine { x0: 0, y0: 1000, x1: 1000, y1: 1000, color: foreground, width });
    borders.push(EdgeLine { x0: 1000, y0: 0, x1: 1000, y1: 1000, color: foreground, width });
    assert(borders@ =~= borders_of(line_scale));
    borders
}

/// The image files to write of a chart of the given size.
pub fn make_exports(width: usize, height: usize) -> (exports: Vec<Export>)
    ensures
        exports@ == exports_of(width, height),
{
    let mut exports: Vec<Export> = Vec::new();
    exports.push(Export { format: ImageFormat::PDF, width, height, scale: 1000 });
    exports.push(Export { format: ImageFormat::PNG, width, height, scale: 1000 });
    assert(exports@ =~= exports_of(width, height));
    exports
}

/// The style of the series `l`. Its colour and, where it has a stroke, its
/// dash pattern come from the pools of `plot_par`, which are gone through
/// in a cycle.
pub fn series_style<T>(plot_par: &PlotPar<T>, l: usize) -> (s: TraceStyle)
    requires
        l < plot_par.line_or_points.len(),
        plot_par.colors.len() > 0,
        draws_line(plot_par.line_or_points[l as int]) ==> plot_par.dashes.len() > 0,
    ensures
        s == series_style_of(plot_par@, l as int),
{
    let color = Rgb::from_array(plot_par.colors[l % plot_par.colors.len()]);
    let size = scale_size(MARKER_SIZE, plot_par.line_scale);
    let width = scale_size(MEDIUM_LINE, plot_par.line_scale);
    match plot_par.line_or_points[l] {
        LineOrPoints::Line => {
            let dash = plot_par.dashes[l % plot_par.dashes.len()];
            TraceStyle { mode: Mode::Lines, line: Some(LineStyle { color, width, dash: Some(dash) }), marker: None }
        },
        LineOrPoints::Points => TraceStyle {
            mode: Mode::Markers,
            line: None,
            marker: Some(MarkerStyle { size, color: Some(color), symbol: MarkerSymbol::Circle }),
        },
        LineOrPoints::LineAndPoints => {
            let dash = plot_par.dashes[l % plot_par.dashes.len()];
            TraceStyle {
                mode: Mode::LinesMarkers,
                line: Some(LineStyle { color, width, dash: Some(dash) }),
                marker: Some(MarkerStyle { size, color: None, symbol: MarkerSymbol::Circle }),
            }
        },
    }
}

/// Two presets never share a place: the place tells which preset it is.
pub proof fn lemma_legend_places_differ(a: LegendAl, b: LegendAl)
    ensures
        legend_place(a) == legend_place(b) <==> a == b,
{
}

/// The place of the legend goes by the preset alone: two charts with the
/// same preset have their legends at the same place, whatever else their
/// parameters hold.
pub proof fn lemma_legend_place_by_preset<T>(a: PlotParView<T>, b: PlotParView<T>)
    requires
        a.legend_al == b.legend_al,
    ensures
        layout_of(a).legend.position == layout_of(b).legend.position,
        layout_of(a).legend.position == legend_place(a.legend_al),
{
}

/// Every preset puts the legend within the plotting area, which reaches
/// from 0 to 1000 both ways, and no nearer than a hundredth to its edges.
pub proof fn lemma_legend_place_bounds(al: LegendAl)
    ensures
        0 <= legend_place(al).x <= 1000,
        0 <= legend_place(al).y <= 1000,
        10 <= legend_place(al).x <= 990,
        10 <= legend_place(al).y <= 990,
{
}

/// The layout of every chart has its legend within the plotting area.
pub proof fn lemma_legend_within_plot<T>(cfg: PlotParView<T>)
    ensures
        layout_of(cfg).legend.position.x <= 1000,
        layout_of(cfg).legend.position.y <= 1000,
{
    lemma_legend_place_bounds(cfg.legend_al);
}

/// At the scale factor one a size is its base; a scale of zero gives zero;
/// a larger factor never gives a smaller size.
pub proof fn lemma_scaled(base: u8, scale: u32, larger: u32)
    requires
        scale <= larger,
    ensures
        scaled(base, 1000) == base,
        scaled(base, 0) == 0,
        scaled(base, scale) <= scaled(base, larger),
{
    assert(base as int * scale as int <= base as int * larger as int) by (nonlinear_arith)
        requires
            scale <= larger,
            0 <= base,
    ;
    assert(base as int * larger as int <= 255 * 4294967295) by (nonlinear_arith)
        requires
            base <= 255,
            larger <= 4294967295,
            0 <= base,
            0 <= larger,
    ;
}

} // verus!
