//! The chart of a set of series: the checks that the series and the
//! parameters have to pass, and the figure that they give.

use vstd::prelude::*;
use crate::config::{default_config, LineOrPoints, PlotPar, PlotParView};
use crate::figure::{Figure, FigureView, ImageFormat, Trace, TraceView};
use crate::layout::{
    borders_of, draws_line, exports_of, layout_of, make_borders, make_exports, make_layout,
    series_style, series_style_of, trace_style_of,
};
use crate::style::{color_cycle, rgb_of, DashType};
use crate::views::nested;

verus! {

/// Why a set of series cannot be plotted. Each fault but the first names
/// the series, by its index, at which it was found.
#[derive(Debug, Clone, Copy, PartialEq, Eq)]
pub enum PlotError {
    /// There are not as many X series as Y series.
    SeriesCount { x_series: usize, y_series: usize },
    /// The parameters have no drawing mode for the series.
    MissingMode { index: usize },
    /// The X and the Y series differ in length.
    SeriesLength { index: usize, x_len: usize, y_len: usize },
    /// The parameters have no legend text for the series.
    MissingLegend { index: usize },
    /// There is no colour for the series.
    NoColors { index: usize },
    /// The series has a stroke, and there is no dash pattern.
    NoDashes { index: usize },
}

/// What is wrong with the series `l`, if anything. Of several faults it is
/// the first of these: no drawing mode, the two lengths differ, no legend
/// text, no colour, no dash pattern for a stroke.
pub open spec fn series_fault<T>(
    xs: Seq<Seq<T>>,
    ys: Seq<Seq<T>>,
    cfg: PlotParView<T>,
    l: int,
) -> Option<PlotError>
    recommends
        0 <= l < xs.len(),
        xs.len() == ys.len(),
{
    if l >= cfg.line_or_points.len() {
        Some(PlotError::MissingMode { index: l as usize })
    } else if xs[l].len() != ys[l].len() {
        Some(
            PlotError::SeriesLength {
                index: l as usize,
                x_len: xs[l].len() as usize,
                y_len: ys[l].len() as usize,
            },
        )
    } else if l >= cfg.legends.len() {
        Some(PlotError::MissingLegend { index: l as usize })
    } else if cfg.colors.len() == 0 {
        Some(PlotError::NoColors { index: l as usize })
    } else if draws_line(cfg.line_or_points[l]) && cfg.dashes.len() == 0 {
        Some(PlotError::NoDashes { index: l as usize })
    } else {
        None
    }
}

/// The series can be plotted: there are as many X as Y series, and none has
/// a fault.
pub open spec fn plottable<T>(xs: Seq<Seq<T>>, ys: Seq<Seq<T>>, cfg: PlotParView<T>) -> bool {
    &&& xs.len() == ys.len()
    &&& forall|l: int| 0 <= l < xs.len() ==> (#[trigger] series_fault(xs, ys, cfg, l)) is None
}

/// `e` is the fault of the series `l`, and no series before it has one.
pub open spec fn is_first_fault_at<T>(
    xs: Seq<Seq<T>>,
    ys: Seq<Seq<T>>,
    cfg: PlotParView<T>,
    l: int,
    e: PlotError,
) -> bool {
    &&& 0 <= l < xs.len()
    &&& series_fault(xs, ys, cfg, l) == Some(e)
    &&& forall|k: int| 0 <= k < l ==> (#[trigger] series_fault(xs, ys, cfg, k)) is None
}

/// `e` is the fault that is reported: the difference in the number of
/// series, or else the fault of the first series that has one.
pub open spec fn is_first_fault<T>(
    xs: Seq<Seq<T>>,
    ys: Seq<Seq<T>>,
    cfg: PlotParView<T>,
    e: PlotError,
) -> bool {
    if xs.len() != ys.len() {
        e == (PlotError::SeriesCount { x_series: xs.len() as usize, y_series: ys.len() as usize })
    } else {
        exists|l: int| #[trigger] is_first_fault_at(xs, ys, cfg, l, e)
    }
}

/// The fault is one of indexing the drawing modes, colours or dash patterns.
pub open spec fn is_style_fault(e: PlotError) -> bool {
    e is MissingMode || e is NoColors || e is NoDashes
}

/// The chart of the series `xs` and `ys` under the parameters `cfg`: one
/// trace per series, in their order, each with its samples, its legend text
/// and its style; the layout, the texts and the border that belong to the
/// parameters; the image files.
pub open spec fn chart_of<T>(xs: Seq<Seq<T>>, ys: Seq<Seq<T>>, cfg: PlotParView<T>) -> FigureView<
    T,
> {
    FigureView {
        layout: layout_of(cfg),
        font_family: cfg.font_family,
        title: cfg.title,
        x_title: cfg.xlab,
        y_title: cfg.ylab,
        borders: borders_of(cfg.line_scale),
        traces: Seq::new(
            xs.len(),
            |l: int|
                TraceView {
                    x: xs[l],
                    y: ys[l],
                    name: cfg.legends[l],
                    style: series_style_of(cfg, l),
                },
        ),
        file_stem: cfg.flnm,
        exports: exports_of(cfg.width, cfg.height),
    }
}

/// The fault of the series `l`, if it has one.
pub fn check_one_series<T>(x: &Vec<Vec<T>>, y: &Vec<Vec<T>>, plot_par: &PlotPar<T>, l: usize) -> (r:
    Option<PlotError>)
    requires
        l < x.len(),
        x.len() == y.len(),
    ensures
        r == series_fault(nested(x), nested(y), plot_par@, l as int),
{
    if l >= plot_par.line_or_points.len() {
        Some(PlotError::MissingMode { index: l })
    } else if x[l].len() != y[l].len() {
        Some(PlotError::SeriesLength { index: l, x_len: x[l].len(), y_len: y[l].len() })
    } else if l >= plot_par.legends.len() {
        Some(PlotError::MissingLegend { index: l })
    } else if plot_par.colors.len() == 0 {
        Some(PlotError::NoColors { index: l })
    } else if plot_par.dashes.len() == 0 && !matches!(
        plot_par.line_or_points[l],
        LineOrPoints::Points
    ) {
        Some(PlotError::NoDashes { index: l })
    } else {
        None
    }
}

/// Checks that the series can be plotted with these parameters, and says
/// what is wrong where they cannot.
pub fn check_series<T>(x: &Vec<Vec<T>>, y: &Vec<Vec<T>>, plot_par: &PlotPar<T>) -> (r: Result<
    (),
    PlotError,
>)
    ensures
        match r {
            Ok(_) => plottable(nested(x), nested(y), plot_par@),
            Err(e) => is_first_fault(nested(x), nested(y), plot_par@, e),
        },
{
    if x.len() != y.len() {
        return Err(PlotError::SeriesCount { x_series: x.len(), y_series: y.len() });
    }
    let n: usize = x.len();
    let mut l: usize = 0;
    while l < n
        invariant
            l <= n,
            n == x.len(),
            n == y.len(),
            forall|k: int|
                0 <= k < l ==> (#[trigger] series_fault(nested(x), nested(y), plot_par@, k))
                    is None,
        decreases n - l,
    {
        match check_one_series(x, y, plot_par, l) {
            Some(e) => {
                assert(is_first_fault_at(nested(x), nested(y), plot_par@, l as int, e));
                return Err(e);
            },
            None => {},
        }
        l += 1;
    }
    Ok(())
}

/// A copy of the samples of one series.
pub(crate) fn copy_samples<T: Copy>(samples: &Vec<T>) -> (copy: Vec<T>)
    ensures
        copy@ == samples@,
{
    let mut copy: Vec<T> = Vec::new();
    let mut k: usize = 0;
    while k < samples.len()
        invariant
            k <= samples.len(),
            copy@ == samples@.subrange(0, k as int),
        decreases samples.len() - k,
    {
        copy.push(samples[k]);
        k += 1;
        assert(copy@ =~= samples@.subrange(0, k as int));
    }
    assert(samples@.subrange(0, samples.len() as int) =~= samples@);
    copy
}

/// The chart of the lines through the points (`x[l][k]`, `y[l][k]`), one
/// line per series `l`, drawn as `plot_par` says.
///
/// Nothing is written: the figure lists the image files that are to be
/// written of it. Where the series cannot be plotted there is no figure,
/// so no file either, and the fault says why.
pub fn line_plot<T: Copy>(x: &Vec<Vec<T>>, y: &Vec<Vec<T>>, plot_par: &PlotPar<T>) -> (r: Result<
    Figure<T>,
    PlotError,
>)
    ensures
        match r {
            Ok(figure) => {
                &&& plottable(nested(x), nested(y), plot_par@)
                &&& figure@ == chart_of(nested(x), nested(y), plot_par@)
            },
            Err(e) => is_first_fault(nested(x), nested(y), plot_par@, e),
        },
{
    match check_series(x, y, plot_par) {
        Err(e) => {
            return Err(e);
        },
        Ok(_) => {},
    }
    let n: usize = x.len();
    let mut traces: Vec<Trace<T>> = Vec::new();
    let mut l: usize = 0;
    while l < n
        invariant
            l <= n,
            n == x.len(),
            plottable(nested(x), nested(y), plot_par@),
            traces@.len() == l,
            forall|j: int|
                0 <= j < l ==> (#[trigger] traces@[j])@ == chart_of(
                    nested(x),
                    nested(y),
                    plot_par@,
                ).traces[j],
        decreases n - l,
    {
        assert(series_fault(nested(x), nested(y), plot_par@, l as int) is None);
        let trace = Trace {
            x: copy_samples(&x[l]),
            y: copy_samples(&y[l]),
            name: plot_par.legends[l].clone(),
            style: series_style(plot_par, l),
        };
        traces.push(trace);
        l += 1;
    }
    let figure = Figure {
        layout: make_layout(plot_par),
        font_family: plot_par.font_family.clone(),
        title: plot_par.title.clone(),
        x_title: plot_par.xlab.clone(),
        y_title: plot_par.ylab.clone(),
        borders: make_borders(plot_par.line_scale),
        traces,
        file_stem: plot_par.flnm.clone(),
        exports: make_exports(plot_par.width, plot_par.height),
    };
    assert(figure@.traces =~= chart_of(nested(x), nested(y), plot_par@).traces);
    Ok(figure)
}

/// Series that agree in number and, pair by pair, in length can be plotted
/// wherever each of them has a legend text and a drawing mode and there is a
/// colour and a dash pattern to start from. Their chart has one trace per
/// series and one image file per format, a PDF and a PNG.
pub proof fn lemma_matching_series_plot<T>(
    xs: Seq<Seq<T>>,
    ys: Seq<Seq<T>>,
    cfg: PlotParView<T>,
)
    requires
        xs.len() == ys.len(),
        forall|l: int| 0 <= l < xs.len() ==> (#[trigger] xs[l]).len() == ys[l].len(),
        xs.len() <= cfg.legends.len(),
        xs.len() <= cfg.line_or_points.len(),
        cfg.colors.len() > 0,
        cfg.dashes.len() > 0,
    ensures
        plottable(xs, ys, cfg),
        chart_of(xs, ys, cfg).traces.len() == xs.len(),
        chart_of(xs, ys, cfg).exports.len() == 2,
        chart_of(xs, ys, cfg).exports[0].format == ImageFormat::PDF,
        chart_of(xs, ys, cfg).exports[1].format == ImageFormat::PNG,
{
    assert forall|l: int| 0 <= l < xs.len() implies (#[trigger] series_fault(xs, ys, cfg, l))
        is None by {
        assert(xs[l].len() == ys[l].len());
    }
}

/// With a drawing mode, a colour and a dash pattern for each of the series,
/// however many they are, none of them has a fault of style, and no such
/// fault is reported.
pub proof fn lemma_style_pools_suffice<T>(xs: Seq<Seq<T>>, ys: Seq<Seq<T>>, cfg: PlotParView<T>)
    requires
        xs.len() <= cfg.line_or_points.len(),
        xs.len() <= cfg.colors.len(),
        xs.len() <= cfg.dashes.len(),
    ensures
        forall|l: int|
            0 <= l < xs.len() ==> match #[trigger] series_fault(xs, ys, cfg, l) {
                Some(e) => !is_style_fault(e),
                None => true,
            },
        forall|e: PlotError| #[trigger] is_first_fault(xs, ys, cfg, e) ==> !is_style_fault(e),
{
    assert forall|e: PlotError| #[trigger] is_first_fault(xs, ys, cfg, e) implies !is_style_fault(
        e,
    ) by {
        if xs.len() == ys.len() {
            let l = choose|l: int| #[trigger] is_first_fault_at(xs, ys, cfg, l, e);
            assert(series_fault(xs, ys, cfg, l) == Some(e));
        }
    }
}

/// Series that can be plotted have one fault only where they cannot: no
/// fault is reported of them, and of others exactly one.
pub proof fn lemma_first_fault_unique<T>(
    xs: Seq<Seq<T>>,
    ys: Seq<Seq<T>>,
    cfg: PlotParView<T>,
    e1: PlotError,
    e2: PlotError,
)
    requires
        is_first_fault(xs, ys, cfg, e1),
    ensures
        !plottable(xs, ys, cfg),
        is_first_fault(xs, ys, cfg, e2) ==> e1 == e2,
{
    if xs.len() == ys.len() {
        let l1 = choose|l: int| #[trigger] is_first_fault_at(xs, ys, cfg, l, e1);
        assert(series_fault(xs, ys, cfg, l1) == Some(e1));
        if is_first_fault(xs, ys, cfg, e2) {
            let l2 = choose|l: int| #[trigger] is_first_fault_at(xs, ys, cfg, l, e2);
            assert(series_fault(xs, ys, cfg, l2) == Some(e2));
            if l1 < l2 {
                assert(series_fault(xs, ys, cfg, l1) is None);
            }
            if l2 < l1 {
                assert(series_fault(xs, ys, cfg, l2) is None);
            }
        }
    }
}

/// Under the parameters that [`PlotPar::new`] gives, each of the first
/// hundred series is a solid line in its colour of the palette's cycle.
pub proof fn lemma_default_styles<T>(
    width: usize,
    height: usize,
    xlab: Seq<char>,
    ylab: Seq<char>,
    title: Seq<char>,
    flnm: Seq<char>,
    legends: Seq<Seq<char>>,
    l: int,
)
    requires
        0 <= l < 100,
    ensures
        series_style_of(
            default_config::<T>(width, height, xlab, ylab, title, flnm, legends),
            l,
        ) == trace_style_of(
            LineOrPoints::Line,
            rgb_of(color_cycle(l as nat)),
            DashType::Solid,
            1000,
        ),
{
    let cfg = default_config::<T>(width, height, xlab, ylab, title, flnm, legends);
    assert(cfg.colors.len() == 48);
    assert(cfg.dashes.len() == 100);
    assert(l % 100 == l);
}

} // verus!
