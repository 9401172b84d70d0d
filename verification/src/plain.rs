//! The plain chart: every series a solid line of one width, sizes and fonts
//! fixed, the legend at the bottom left, up to nine series in nine colours,
//! one PDF file.

use vstd::prelude::*;
use crate::config::LegendAl;
use crate::figure::{
    AxisScale, AxisStyle, Export, Figure, FigureView, Fill, FontStyle, ImageFormat, ItemSizing,
    Layout, LegendStyle, LineStyle, Margins, Mode, Trace, TraceStyle, TraceView,
};
use crate::layout::{
    background, borders_of, foreground, grid_gray, legend_place, legend_position, make_borders,
};
use crate::plot::{copy_samples, PlotError};
use crate::style::{rgb, Rgb};
use crate::views::{nested, texts};

verus! {

/// The texts of a plain chart: the titles of its axes, its title, the path
/// of its image file without the extension, and a legend text per series.
#[derive(Debug, Clone, PartialEq, Eq)]
pub struct PlotPar {
    pub xlab: String,
    pub ylab: String,
    pub title: String,
    pub flnm: String,
    pub legends: Vec<String>,
}

impl PlotPar {
    pub fn new(xlab: &str, ylab: &str, title: &str, flnm: &str, legends: Vec<String>) -> (par:
        PlotPar)
        ensures
            par.xlab@ == xlab@,
            par.ylab@ == ylab@,
            par.title@ == title@,
            par.flnm@ == flnm@,
            par.legends == legends,
    {
        PlotPar {
            xlab: xlab.to_owned(),
            ylab: ylab.to_owned(),
            title: title.to_owned(),
            flnm: flnm.to_owned(),
            legends,
        }
    }
}

/// Number of series that a plain chart has a colour for.
pub const PLAIN_COLORS: usize = 9;

/// Width of the axis lines and the border lines of a plain chart.
pub const PLAIN_THICK_LINE: usize = 3;

/// Width of the strokes, the ticks and the legend's border of a plain chart.
pub const PLAIN_MEDIUM_LINE: usize = 4;

/// Size of the font of the titles and the legend of a plain chart.
pub const PLAIN_TEXT_FONT: usize = 35;

/// Size of the font of the tick labels of a plain chart.
pub const PLAIN_TICK_FONT: usize = 30;

/// The left and the bottom margin of a plain chart.
pub const PLAIN_MARGIN: usize = 105;

/// The colours of a plain chart, in the order of the series: midnight blue,
/// maroon, teal, yellow green, brown, dark green, indigo, olive drab and
/// rebecca purple, each by the red, green and blue of its name in CSS.
pub open spec fn plain_colors() -> Seq<Rgb> {
    seq![
        rgb(25, 25, 112),
        rgb(128, 0, 0),
        rgb(0, 128, 128),
        rgb(154, 205, 50),
        rgb(165, 42, 42),
        rgb(0, 100, 0),
        rgb(75, 0, 130),
        rgb(107, 142, 35),
        rgb(102, 51, 153),
    ]
}

/// The font of the titles and the legend of a plain chart.
pub open spec fn plain_text_font() -> FontStyle {
    FontStyle { size: Some(PLAIN_TEXT_FONT), color: Some(foreground()), family: true }
}

/// An axis of a plain chart: linear, with a free range, and left to the
/// backend in the room it makes for its labels.
pub open spec fn plain_axis<T>(tick_angle: Option<u32>) -> AxisStyle<T> {
    AxisStyle {
        position: 0,
        show_line: true,
        line_color: foreground(),
        line_width: PLAIN_THICK_LINE,
        tick_length: 9,
        tick_width: PLAIN_MEDIUM_LINE,
        tick_color: foreground(),
        tick_font: FontStyle { size: None, color: Some(foreground()), family: false },
        zero_line: false,
        show_grid: true,
        grid_color: grid_gray(),
        auto_margin: false,
        title_font: plain_text_font(),
        tick_angle,
        scale: AxisScale::Linear,
        range: None,
    }
}

/// The layout of every plain chart: 1024 by 768 pixels, the legend at the
/// bottom left, the tick labels of the Y axis upright, no top margin set.
pub open spec fn plain_layout<T>() -> Layout<T> {
    Layout {
        width: 1024,
        height: 768,
        font: FontStyle { size: Some(PLAIN_TICK_FONT), color: None, family: false },
        title_font: plain_text_font(),
        legend: LegendStyle {
            position: legend_place(LegendAl::BottomLeft),
            font: plain_text_font(),
            border_width: PLAIN_MEDIUM_LINE,
            border_color: foreground(),
            background: background(),
            item_width: 52,
            item_sizing: ItemSizing::Trace,
        },
        show_legend: true,
        x_axis: plain_axis(None),
        y_axis: plain_axis(Some(270u32)),
        plot_background: Fill::Transparent,
        paper_background: Fill::Color(background()),
        margin: Margins { left: PLAIN_MARGIN, bottom: PLAIN_MARGIN, top: None },
    }
}

/// The style of the series `l` of a plain chart: a line in the colour `l`,
/// its dash pattern left to the backend.
pub open spec fn plain_style_of(l: int) -> TraceStyle
    recommends
        0 <= l < 9,
{
    TraceStyle {
        mode: Mode::Lines,
        line: Some(LineStyle { color: plain_colors()[l], width: PLAIN_MEDIUM_LINE, dash: None }),
        marker: None,
    }
}

/// The one image file of a plain chart: a PDF of 1280 by 960 pixels at the
/// scale one.
pub open spec fn plain_exports() -> Seq<Export> {
    seq![Export { format: ImageFormat::PDF, width: 1280, height: 960, scale: 1000 }]
}

/// What is wrong with the series `l` of a plain chart, if anything. Of
/// several faults it is the first of these: the two lengths differ, no
/// legend text, no colour.
pub open spec fn plain_series_fault<T>(
    xs: Seq<Seq<T>>,
    ys: Seq<Seq<T>>,
    legends: Seq<Seq<char>>,
    l: int,
) -> Option<PlotError>
    recommends
        0 <= l < xs.len(),
        xs.len() == ys.len(),
{
    if xs[l].len() != ys[l].len() {
        Some(
            PlotError::SeriesLength {
                index: l as usize,
                x_len: xs[l].len() as usize,
                y_len: ys[l].len() as usize,
            },
        )
    } else if l >= legends.len() {
        Some(PlotError::MissingLegend { index: l as usize })
    } else if l >= 9 {
        Some(PlotError::NoColors { index: l as usize })
    } else {
        None
    }
}

/// The series can be plotted as a plain chart: there are as many X as Y
/// series, and none has a fault.
pub open spec fn plain_plottable<T>(
    xs: Seq<Seq<T>>,
    ys: Seq<Seq<T>>,
    legends: Seq<Seq<char>>,
) -> bool {
    &&& xs.len() == ys.len()
    &&& forall|l: int|
        0 <= l < xs.len() ==> (#[trigger] plain_series_fault(xs, ys, legends, l)) is None
}

/// `e` is the fault of the series `l`, and no series before it has one.
pub open spec fn is_first_plain_fault_at<T>(
    xs: Seq<Seq<T>>,
    ys: Seq<Seq<T>>,
    legends: Seq<Seq<char>>,
    l: int,
    e: PlotError,
) -> bool {
    &&& 0 <= l < xs.len()
    &&& plain_series_fault(xs, ys, legends, l) == Some(e)
    &&& forall|k: int| 0 <= k < l ==> (#[trigger] plain_series_fault(xs, ys, legends, k)) is None
}

/// `e` is the fault that is reported of a plain chart: the difference in
/// the number of series, or else the fault of the first series that has one.
pub open spec fn is_first_plain_fault<T>(
    xs: Seq<Seq<T>>,
    ys: Seq<Seq<T>>,
    legends: Seq<Seq<char>>,
    e: PlotError,
) -> bool {
    if xs.len() != ys.len() {
        e == (PlotError::SeriesCount { x_series: xs.len() as usize, y_series: ys.len() as usize })
    } else {
        exists|l: int| #[trigger] is_first_plain_fault_at(xs, ys, legends, l, e)
    }
}

/// The plain chart of the series `xs` and `ys`: one trace per series, in
/// their order, each with its samples, its legend text and its colour; the
/// fixed layout, a serif font, the border, the PDF file.
pub open spec fn plain_chart_of<T>(
    xs: Seq<Seq<T>>,
    ys: Seq<Seq<T>>,
    xlab: Seq<char>,
    ylab: Seq<char>,
    title: Seq<char>,
    flnm: Seq<char>,
    legends: Seq<Seq<char>>,
) -> FigureView<T> {
    FigureView {
        layout: plain_layout(),
        font_family: "Serif"@,
        title,
        x_title: xlab,
        y_title: ylab,
        borders: borders_of(1000),
        traces: Seq::new(
            xs.len(),
            |l: int| TraceView { x: xs[l], y: ys[l], name: legends[l], style: plain_style_of(l) },
        ),
        file_stem: flnm,
        exports: plain_exports(),
    }
}

/// The colour of the series `l` of a plain chart.
pub fn plain_color(l: usize) -> (c: Rgb)
    requires
        l < 9,
    ensures
        c == plain_colors()[l as int],
{
    match l {
        0 => Rgb::new(25, 25, 112),
        1 => Rgb::new(128, 0, 0),
        2 => Rgb::new(0, 128, 128),
        3 => Rgb::new(154, 205, 50),
        4 => Rgb::new(165, 42, 42),
        5 => Rgb::new(0, 100, 0),
        6 => Rgb::new(75, 0, 130),
        7 => Rgb::new(107, 142, 35),
        _ => Rgb::new(102, 51, 153),
    }
}

fn make_plain_axis<T>(tick_angle: Option<u32>) -> (a: AxisStyle<T>)
    ensures
        a == plain_axis::<T>(tick_angle),
{
    let foreground = Rgb::new(0, 0, 0);
    AxisStyle {
        position: 0,
        show_line: true,
        line_color: foreground,
        line_width: PLAIN_THICK_LINE,
        tick_length: 9,
        tick_width: PLAIN_MEDIUM_LINE,
        tick_color: foreground,
        tick_font: FontStyle { size: None, color: Some(foreground), family: false },
        zero_line: false,
        show_grid: true,
        grid_color: Rgb::new(220, 220, 220),
        auto_margin: false,
        title_font: FontStyle { size: Some(PLAIN_TEXT_FONT), color: Some(foreground), family: true },
        tick_angle,
        scale: AxisScale::Linear,
        range: None,
    }
}

/// The layout of a plain chart.
pub fn make_plain_layout<T>() -> (layout: Layout<T>)
    ensures
        layout == plain_layout::<T>(),
{
    let foreground = Rgb::new(0, 0, 0);
    let white = Rgb::new(255, 255, 255);
    let text = FontStyle { size: Some(PLAIN_TEXT_FONT), color: Some(foreground), family: true };
    Layout {
        width: 1024,
        height: 768,
        font: FontStyle { size: Some(PLAIN_TICK_FONT), color: None, family: false },
        title_font: text,
        legend: LegendStyle {
            position: legend_position(LegendAl::BottomLeft),
            font: text,
            border_width: PLAIN_MEDIUM_LINE,
            border_color: foreground,
            background: white,
            item_width: 52,
            item_sizing: ItemSizing::Trace,
        },
        show_legend: true,
        x_axis: make_plain_axis(None),
        y_axis: make_plain_axis(Some(270)),
        plot_background: Fill::Transparent,
        paper_background: Fill::Color(white),
        margin: Margins { left: PLAIN_MARGIN, bottom: PLAIN_MARGIN, top: None },
    }
}

/// The fault of the series `l` of a plain chart, if it has one.
pub fn check_one_plain_series<T>(
    x: &Vec<Vec<T>>,
    y: &Vec<Vec<T>>,
    legends: &Vec<String>,
    l: usize,
) -> (r: Option<PlotError>)
    requires
        l < x.len(),
        x.len() == y.len(),
    ensures
        r == plain_series_fault(nested(x), nested(y), texts(legends@), l as int),
{
    if x[l].len() != y[l].len() {
        Some(PlotError::SeriesLength { index: l, x_len: x[l].len(), y_len: y[l].len() })
    } else if l >= legends.len() {
        Some(PlotError::MissingLegend { index: l })
    } else if l >= PLAIN_COLORS {
        Some(PlotError::NoColors { index: l })
    } else {
        None
    }
}

/// Checks that the series can be plotted as a plain chart, and says what is
/// wrong where they cannot.
pub fn check_plain_series<T>(x: &Vec<Vec<T>>, y: &Vec<Vec<T>>, legends: &Vec<String>) -> (r:
    Result<(), PlotError>)
    ensures
        match r {
            Ok(_) => plain_plottable(nested(x), nested(y), texts(legends@)),
            Err(e) => is_first_plain_fault(nested(x), nested(y), texts(legends@), e),
        },
{
    if x.len() != y.len() {
        return Err(PlotError::SeriesCount { x_series: x.len(), y_series: y.len() });
    }
    let n: usize = x.len();
    let mut l: usize = 0;
    while l < n
        invariant
            l <= n,
            n == x.len(),
            n == y.len(),
            forall|k: int|
                0 <= k < l ==> (#[trigger] plain_series_fault(
                    nested(x),
                    nested(y),
                    texts(legends@),
                    k,
                )) is None,
        decreases n - l,
    {
        match check_one_plain_series(x, y, legends, l) {
            Some(e) => {
                assert(is_first_plain_fault_at(
                    nested(x),
                    nested(y),
                    texts(legends@),
                    l as int,
                    e,
                ));
                return Err(e);
            },
            None => {},
        }
        l += 1;
    }
    Ok(())
}

/// The plain chart of the lines through the points (`x[l][k]`, `y[l][k]`),
/// one line per series `l`, with the given titles and legend texts.
///
/// Nothing is written: the figure lists the image file that is to be written
/// of it. Where the series cannot be plotted there is no figure, and the
/// fault says why.
pub fn plain_line_plot<T: Copy>(
    x: &Vec<Vec<T>>,
    y: &Vec<Vec<T>>,
    xlab: &str,
    ylab: &str,
    title: &str,
    flnm: &str,
    legends: &Vec<String>,
) -> (r: Result<Figure<T>, PlotError>)
    ensures
        match r {
            Ok(figure) => {
                &&& plain_plottable(nested(x), nested(y), texts(legends@))
                &&& figure@ == plain_chart_of(
                    nested(x),
                    nested(y),
                    xlab@,
                    ylab@,
                    title@,
                    flnm@,
                    texts(legends@),
                )
            },
            Err(e) => is_first_plain_fault(nested(x), nested(y), texts(legends@), e),
        },
{
    match check_plain_series(x, y, legends) {
        Err(e) => {
            return Err(e);
        },
        Ok(_) => {},
    }
    let ghost chart = plain_chart_of(
        nested(x),
        nested(y),
        xlab@,
        ylab@,
        title@,
        flnm@,
        texts(legends@),
    );
    let n: usize = x.len();
    let mut traces: Vec<Trace<T>> = Vec::new();
    let mut l: usize = 0;
    while l < n
        invariant
            l <= n,
            n == x.len(),
            plain_plottable(nested(x), nested(y), texts(legends@)),
            chart == plain_chart_of(
                nested(x),
                nested(y),
                xlab@,
                ylab@,
                title@,
                flnm@,
                texts(legends@),
            ),
            traces@.len() == l,
            forall|j: int| 0 <= j < l ==> (#[trigger] traces@[j])@ == chart.traces[j],
        decreases n - l,
    {
        assert(plain_series_fault(nested(x), nested(y), texts(legends@), l as int) is None);
        let style = TraceStyle {
            mode: Mode::Lines,
            line: Some(LineStyle { color: plain_color(l), width: PLAIN_MEDIUM_LINE, dash: None }),
            marker: None,
        };
        let trace = Trace {
            x: copy_samples(&x[l]),
            y: copy_samples(&y[l]),
            name: legends[l].clone(),
            style,
        };
        traces.push(trace);
        l += 1;
    }
    let mut exports: Vec<Export> = Vec::new();
    exports.push(Export { format: ImageFormat::PDF, width: 1280, height: 960, scale: 1000 });
    assert(exports@ =~= plain_exports());
    let figure = Figure {
        layout: make_plain_layout(),
        font_family: "Serif".to_owned(),
        title: title.to_owned(),
        x_title: xlab.to_owned(),
        y_title: ylab.to_owned(),
        borders: make_borders(1000),
        traces,
        file_stem: flnm.to_owned(),
        exports,
    };
    assert(figure@.traces =~= chart.traces);
    Ok(figure)
}

/// Up to nine series that agree in number and, pair by pair, in length can
/// be plotted as a plain chart wherever each has a legend text. Their chart
/// has one trace per series and one image file, a PDF.
pub proof fn lemma_plain_matching_series_plot<T>(
    xs: Seq<Seq<T>>,
    ys: Seq<Seq<T>>,
    xlab: Seq<char>,
    ylab: Seq<char>,
    title: Seq<char>,
    flnm: Seq<char>,
    legends: Seq<Seq<char>>,
)
    requires
        xs.len() == ys.len(),
        forall|l: int| 0 <= l < xs.len() ==> (#[trigger] xs[l]).len() == ys[l].len(),
        xs.len() <= legends.len(),
        xs.len() <= 9,
    ensures
        plain_plottable(xs, ys, legends),
        plain_chart_of(xs, ys, xlab, ylab, title, flnm, legends).traces.len() == xs.len(),
        plain_chart_of(xs, ys, xlab, ylab, title, flnm, legends).exports.len() == 1,
        plain_chart_of(xs, ys, xlab, ylab, title, flnm, legends).exports[0].format
            == ImageFormat::PDF,
{
    assert forall|l: int| 0 <= l < xs.len() implies (#[trigger] plain_series_fault(
        xs,
        ys,
        legends,
        l,
    )) is None by {
        assert(xs[l].len() == ys[l].len());
    }
}

/// More than nine series cannot be plotted as a plain chart, and no two of
/// the nine colours are the same.
pub proof fn lemma_plain_colors<T>(xs: Seq<Seq<T>>, ys: Seq<Seq<T>>, legends: Seq<Seq<char>>)
    ensures
        plain_colors().len() == 9,
        forall|i: int, j: int| 0 <= i < j < 9 ==> plain_colors()[i] != plain_colors()[j],
        xs.len() > 9 ==> !plain_plottable(xs, ys, legends),
{
    if xs.len() > 9 && xs.len() == ys.len() {
        assert(plain_series_fault(xs, ys, legends, 9) is Some);
    }
}

} // verus!
