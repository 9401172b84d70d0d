//! A chart in plain values: what a drawing backend has to be told, and
//! nothing it has to decide.
//!
//! Positions, and the scale of an image, are whole thousandths; widths,
//! lengths and font sizes are pixels; angles are degrees. The two border
//! lines are given in paper coordinates, where the plotting area reaches
//! from 0 to 1000 both ways.

use vstd::prelude::*;
use crate::style::{DashType, Rgb};

verus! {

/// Which channels of a series are drawn.
#[derive(Debug, Clone, Copy, PartialEq, Eq)]
pub enum Mode {
    Lines,
    Markers,
    LinesMarkers,
}

/// The shape of a marker.
#[derive(Debug, Clone, Copy, PartialEq, Eq)]
pub enum MarkerSymbol {
    Circle,
}

/// The stroke of a series. A dash pattern of `None` is left to the backend.
#[derive(Debug, Clone, Copy, PartialEq, Eq)]
pub struct LineStyle {
    pub color: Rgb,
    pub width: usize,
    pub dash: Option<DashType>,
}

/// The markers of a series. A colour of `None` is left to the backend.
#[derive(Debug, Clone, Copy, PartialEq, Eq)]
pub struct MarkerStyle {
    pub size: usize,
    pub color: Option<Rgb>,
    pub symbol: MarkerSymbol,
}

/// How one series is drawn.
#[derive(Debug, Clone, Copy, PartialEq, Eq)]
pub struct TraceStyle {
    pub mode: Mode,
    pub line: Option<LineStyle>,
    pub marker: Option<MarkerStyle>,
}

/// The side or middle of a box that a position refers to.
#[derive(Debug, Clone, Copy, PartialEq, Eq)]
pub enum Anchor {
    Left,
    Center,
    Right,
    Top,
    Bottom,
}

/// Where the legend is put: the point (`x`, `y`) of the plotting area, and
/// which point of the legend's box lies on it.
#[derive(Debug, Clone, Copy, PartialEq, Eq)]
pub struct LegendPosition {
    pub x: u32,
    pub x_anchor: Anchor,
    pub y: u32,
    pub y_anchor: Anchor,
}

/// A font. What is `None` or `false` is left to the backend; `family` says
/// whether the font has the figure's font family.
#[derive(Debug, Clone, Copy, PartialEq, Eq)]
pub struct FontStyle {
    pub size: Option<usize>,
    pub color: Option<Rgb>,
    pub family: bool,
}

/// Whether legend entries follow the size of their trace.
#[derive(Debug, Clone, Copy, PartialEq, Eq)]
pub enum ItemSizing {
    Trace,
    Constant,
}

/// The legend's box.
#[derive(Debug, Clone, Copy, PartialEq, Eq)]
pub struct LegendStyle {
    pub position: LegendPosition,
    pub font: FontStyle,
    pub border_width: usize,
    pub border_color: Rgb,
    pub background: Rgb,
    pub item_width: usize,
    pub item_sizing: ItemSizing,
}

/// The scale of an axis. A logarithmic axis writes its exponents with a
/// small `e`; of a linear one the backend keeps its own settings.
#[derive(Debug, Clone, Copy, PartialEq, Eq)]
pub enum AxisScale {
    Linear,
    Log,
}

/// One axis, but for its title's text. With a `range` the axis shows that
/// range and no other. `auto_margin` says whether the axis is told to make
/// room for its labels; `false` leaves that to the backend.
#[derive(Debug, Clone, Copy, PartialEq)]
pub struct AxisStyle<T> {
    pub position: u32,
    pub show_line: bool,
    pub line_color: Rgb,
    pub line_width: usize,
    pub tick_length: usize,
    pub tick_width: usize,
    pub tick_color: Rgb,
    pub tick_font: FontStyle,
    pub zero_line: bool,
    pub show_grid: bool,
    pub grid_color: Rgb,
    pub auto_margin: bool,
    pub title_font: FontStyle,
    pub tick_angle: Option<u32>,
    pub scale: AxisScale,
    pub range: Option<[T; 2]>,
}

/// A background.
#[derive(Debug, Clone, Copy, PartialEq, Eq)]
pub enum Fill {
    Transparent,
    Color(Rgb),
}

/// The margins that are set. The right one is the backend's, and so is the
/// top one where it is `None`.
#[derive(Debug, Clone, Copy, PartialEq, Eq)]
pub struct Margins {
    pub left: usize,
    pub bottom: usize,
    pub top: Option<usize>,
}

/// A straight line from (`x0`, `y0`) to (`x1`, `y1`), in paper coordinates.
#[derive(Debug, Clone, Copy, PartialEq, Eq)]
pub struct EdgeLine {
    pub x0: u32,
    pub y0: u32,
    pub x1: u32,
    pub y1: u32,
    pub color: Rgb,
    pub width: usize,
}

/// The format of an image file.
#[derive(Debug, Clone, Copy, PartialEq, Eq)]
pub enum ImageFormat {
    PNG,
    JPEG,
    WEBP,
    SVG,
    PDF,
    EPS,
}

/// One image file to write: its format, its size in pixels, its scale.
#[derive(Debug, Clone, Copy, PartialEq, Eq)]
pub struct Export {
    pub format: ImageFormat,
    pub width: usize,
    pub height: usize,
    pub scale: u32,
}

/// Everything of a chart that is neither text nor a list.
#[derive(Debug, Clone, Copy, PartialEq)]
pub struct Layout<T> {
    pub width: usize,
    pub height: usize,
    /// The font of what has no font of its own: the tick labels.
    pub font: FontStyle,
    pub title_font: FontStyle,
    pub legend: LegendStyle,
    pub show_legend: bool,
    pub x_axis: AxisStyle<T>,
    pub y_axis: AxisStyle<T>,
    pub plot_background: Fill,
    pub paper_background: Fill,
    pub margin: Margins,
}

/// One series with its samples, its legend entry and its style.
#[derive(Debug, Clone, PartialEq)]
pub struct Trace<T> {
    pub x: Vec<T>,
    pub y: Vec<T>,
    pub name: String,
    pub style: TraceStyle,
}

/// A whole chart, and the image files to write of it. `file_stem` is the
/// files' path without the extension.
#[derive(Debug, Clone, PartialEq)]
pub struct Figure<T> {
    pub layout: Layout<T>,
    pub font_family: String,
    pub title: String,
    pub x_title: String,
    pub y_title: String,
    pub borders: Vec<EdgeLine>,
    pub traces: Vec<Trace<T>>,
    pub file_stem: String,
    pub exports: Vec<Export>,
}

/// A [`Trace`] as a mathematical value.
pub ghost struct TraceView<T> {
    pub x: Seq<T>,
    pub y: Seq<T>,
    pub name: Seq<char>,
    pub style: TraceStyle,
}

/// A [`Figure`] as a mathematical value.
pub ghost struct FigureView<T> {
    pub layout: Layout<T>,
    pub font_family: Seq<char>,
    pub title: Seq<char>,
    pub x_title: Seq<char>,
    pub y_title: Seq<char>,
    pub borders: Seq<EdgeLine>,
    pub traces: Seq<TraceView<T>>,
    pub file_stem: Seq<char>,
    pub exports: Seq<Export>,
}

impl<T> View for Trace<T> {
    type V = TraceView<T>;

    open spec fn view(&self) -> TraceView<T> {
        TraceView { x: self.x@, y: self.y@, name: self.name@, style: self.style }
    }
}

impl<T> View for Figure<T> {
    type V = FigureView<T>;

    open spec fn view(&self) -> FigureView<T> {
        FigureView {
            layout: self.layout,
            font_family: self.font_family@,
            title: self.title@,
            x_title: self.x_title@,
            y_title: self.y_title@,
            borders: self.borders@,
            traces: self.traces@.map_values(|t: Trace<T>| t@),
            file_stem: self.file_stem@,
            exports: self.exports@,
        }
    }
}

} // verus!
