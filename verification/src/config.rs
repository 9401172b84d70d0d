//! What the caller decides about a chart: its size and texts, where the
//! legend sits, how each series is drawn, the scale and range of the axes.

use vstd::prelude::*;
use crate::style::{default_colors, palette, DashType};
use crate::views::texts;

verus! {

/// Where the legend sits: in a corner of the plotting area or at the middle
/// of one of its edges.
#[derive(Debug, Clone, Copy, PartialEq, Eq, Structural)]
pub enum LegendAl {
    BottomRight,
    TopRight,
    BottomLeft,
    TopLeft,
    CenterRight,
    CenterLeft,
    BottomCenter,
    TopCenter,
}

/// How a series is drawn: as a stroked line, as markers, or as both.
#[derive(Debug, Clone, Copy, PartialEq, Eq, Structural)]
pub enum LineOrPoints {
    Line,
    Points,
    LineAndPoints,
}

/// Number of series that a new [`PlotPar`] has a drawing mode and a dash
/// pattern for.
pub const STYLE_POOL_LEN: usize = 100;

/// The scale factor one, in thousandths.
pub const UNIT_SCALE: u32 = 1000;

/// The parameters of a chart. `T` is the type of the samples.
///
/// `legends`, `line_or_points`, `colors` and `dashes` go by the index of the
/// series. A series needs a legend text and a drawing mode of its own;
/// colours and dash patterns are taken in a cycle.
#[derive(Debug, Clone)]
pub struct PlotPar<T> {
    /// Width and height of the image, in pixels.
    pub width: usize,
    pub height: usize,
    /// Titles of the two axes.
    pub xlab: String,
    pub ylab: String,
    /// Whether an axis is logarithmic.
    pub log_x: bool,
    pub log_y: bool,
    /// The two ends of an axis, where the caller fixes them; `None` leaves
    /// the range to the backend.
    pub range_x: Option<[T; 2]>,
    pub range_y: Option<[T; 2]>,
    pub title: String,
    /// Path of the image files, without the extension.
    pub flnm: String,
    pub show_legend: bool,
    pub legends: Vec<String>,
    pub legend_al: LegendAl,
    pub line_or_points: Vec<LineOrPoints>,
    pub colors: Vec<[u8; 3]>,
    pub dashes: Vec<DashType>,
    /// Factor on all font sizes and margins, in thousandths.
    pub font_scale: u32,
    /// Factor on all line widths and marker sizes, in thousandths.
    pub line_scale: u32,
    pub font_family: String,
}

/// A [`PlotPar`] as a mathematical value: texts are sequences of characters,
/// the per-series arrays sequences.
pub ghost struct PlotParView<T> {
    pub width: usize,
    pub height: usize,
    pub xlab: Seq<char>,
    pub ylab: Seq<char>,
    pub log_x: bool,
    pub log_y: bool,
    pub range_x: Option<[T; 2]>,
    pub range_y: Option<[T; 2]>,
    pub title: Seq<char>,
    pub flnm: Seq<char>,
    pub show_legend: bool,
    pub legends: Seq<Seq<char>>,
    pub legend_al: LegendAl,
    pub line_or_points: Seq<LineOrPoints>,
    pub colors: Seq<[u8; 3]>,
    pub dashes: Seq<DashType>,
    pub font_scale: u32,
    pub line_scale: u32,
    pub font_family: Seq<char>,
}

impl<T> View for PlotPar<T> {
    type V = PlotParView<T>;

    open spec fn view(&self) -> PlotParView<T> {
        PlotParView {
            width: self.width,
            height: self.height,
            xlab: self.xlab@,
            ylab: self.ylab@,
            log_x: self.log_x,
            log_y: self.log_y,
            range_x: self.range_x,
            range_y: self.range_y,
            title: self.title@,
            flnm: self.flnm@,
            show_legend: self.show_legend,
            legends: texts(self.legends@),
            legend_al: self.legend_al,
            line_or_points: self.line_or_points@,
            colors: self.colors@,
            dashes: self.dashes@,
            font_scale: self.font_scale,
            line_scale: self.line_scale,
            font_family: self.font_family@,
        }
    }
}

/// The parameters that [`PlotPar::new`] gives: the legend at the top right,
/// every series a solid line, the whole colour palette, linear axes with a
/// free range, both scale factors one, a serif font.
pub open spec fn default_config<T>(
    width: usize,
    height: usize,
    xlab: Seq<char>,
    ylab: Seq<char>,
    title: Seq<char>,
    flnm: Seq<char>,
    legends: Seq<Seq<char>>,
) -> PlotParView<T> {
    PlotParView {
        width,
        height,
        xlab,
        ylab,
        log_x: false,
        log_y: false,
        range_x: None,
        range_y: None,
        title,
        flnm,
        show_legend: true,
        legends,
        legend_al: LegendAl::TopRight,
        line_or_points: Seq::new(100, |i: int| LineOrPoints::Line),
        colors: palette(),
        dashes: Seq::new(100, |i: int| DashType::Solid),
        font_scale: 1000,
        line_scale: 1000,
        font_family: "Serif"@,
    }
}

impl<T> PlotPar<T> {
    /// The parameters of a chart with the given size, texts and legend
    /// entries, everything else at its default. The caller changes the
    /// fields afterwards as needed.
    pub fn new(
        width: usize,
        height: usize,
        xlab: &str,
        ylab: &str,
        title: &str,
        flnm: &str,
        legends: Vec<String>,
    ) -> (par: PlotPar<T>)
        ensures
            par@ == default_config::<T>(
                width,
                height,
                xlab@,
                ylab@,
                title@,
                flnm@,
                texts(legends@),
            ),
            par.legends == legends,
    {
        let par = PlotPar {
            width,
            height,
            xlab: xlab.to_owned(),
            ylab: ylab.to_owned(),
            log_x: false,
            log_y: false,
            range_x: None,
            range_y: None,
            title: title.to_owned(),
            flnm: flnm.to_owned(),
            show_legend: true,
            legends,
            legend_al: LegendAl::TopRight,
            line_or_points: vec![LineOrPoints::Line; STYLE_POOL_LEN],
            colors: default_colors(),
            dashes: vec![DashType::Solid; STYLE_POOL_LEN],
            font_scale: UNIT_SCALE,
            line_scale: UNIT_SCALE,
            font_family: "Serif".to_owned(),
        };
        assert(par@.line_or_points =~= Seq::new(100, |i: int| LineOrPoints::Line));
        assert(par@.dashes =~= Seq::new(100, |i: int| DashType::Solid));
        par
    }
}

} // verus!
