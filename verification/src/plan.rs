//! From a configured view and the samples at hand to a chart that can be drawn.

use vstd::prelude::*;
use crate::bar_chart::{
    extent_of,
    geometry_of,
    is_bar_order,
    rect_of,
    row_fits,
    row_length,
    Bar,
    BarChart,
    BarChartView,
    Orientation,
    SortMethod,
};
use crate::color::{resolved, Palette, Rgba};
use crate::config::{CpuView, IoView, PercentView};
use crate::history::{max_of, SampleHistory};
use crate::measure::{scaled, shrunk, Fixed};
use crate::run_chart::{
    area_of,
    line_of,
    ChartError,
    ChartView,
    HistoryChart,
    Layer,
    LayerView,
    SuperimposedHistoryChart,
};

verus! {

/// The end of the scale of a share given in percent.
pub const PERCENT_MAX: u64 = 100;

/// A chart that is ready to be drawn: the samples it shows, the end of each
/// scale, the colours resolved, and its proportions.
#[derive(Debug)]
pub enum RenderPlan<'a> {
    /// One history as an area under a line.
    Run { chart: HistoryChart<'a>, aspect_ratio: Fixed },
    /// Two histories in one plot area.
    Superimposed { charts: SuperimposedHistoryChart<'a>, aspect_ratio: Fixed },
    /// A row of bars.
    Bars { bars: BarChart },
}

/// A plan with its samples as sequences.
#[verifier::ext_equal]
pub enum PlanView {
    Run { chart: ChartView, aspect_ratio: Fixed },
    Superimposed { back: ChartView, front: ChartView, aspect_ratio: Fixed },
    Bars { bars: BarChartView },
}

impl<'a> View for RenderPlan<'a> {
    type V = PlanView;

    open spec fn view(&self) -> PlanView {
        match self {
            RenderPlan::Run { chart, aspect_ratio } => PlanView::Run {
                chart: chart@,
                aspect_ratio: *aspect_ratio,
            },
            RenderPlan::Superimposed { charts, aspect_ratio } => PlanView::Superimposed {
                back: charts.back@,
                front: charts.front@,
                aspect_ratio: *aspect_ratio,
            },
            RenderPlan::Bars { bars } => PlanView::Bars { bars: bars@ },
        }
    }
}

/// The extent of a chart on the surface, in pixels.
#[derive(Clone, Copy, Debug, PartialEq, Eq, Structural)]
pub struct Size {
    pub width: u64,
    pub height: u64,
}

/// The newest of the samples, and zero where there is none.
pub open spec fn last_or_zero(samples: Seq<u64>) -> u64 {
    if samples.len() > 0 {
        samples.last()
    } else {
        0
    }
}

/// A history on the scale of a share in percent.
pub open spec fn percent_chart(samples: Seq<u64>, color: Rgba) -> ChartView {
    ChartView { samples, max: PERCENT_MAX, color }
}

/// A history on a scale that ends at its largest sample.
pub open spec fn rate_chart(samples: Seq<u64>, color: Rgba) -> ChartView {
    ChartView { samples, max: max_of(samples), color }
}

/// One bar for the newest of the samples, on the scale of a share in percent.
pub open spec fn level_bar(samples: Seq<u64>, color: Rgba, aspect_ratio: Fixed) -> BarChartView {
    BarChartView {
        values: seq![last_or_zero(samples)],
        max: PERCENT_MAX,
        colors: seq![color],
        sorting: SortMethod::Unsorted,
        spacing: Fixed { millis: 0 },
        bar_aspect_ratio: aspect_ratio,
    }
}

/// The chart that a view of the processor's load asks for, given the history
/// of the whole load and the present load of each core, both in percent.
pub open spec fn cpu_plan(view: CpuView, usage: Seq<u64>, cores: Seq<u64>, palette: Palette) -> PlanView {
    match view {
        CpuView::GlobalRun { color, aspect_ratio } => PlanView::Run {
            chart: percent_chart(usage, resolved(color, palette)),
            aspect_ratio,
        },
        CpuView::PerCoreBar { color, spacing, bar_aspect_ratio, sorting } => PlanView::Bars {
            bars: BarChartView {
                values: cores,
                max: PERCENT_MAX,
                colors: Seq::new(cores.len(), |i: int| resolved(color, palette)),
                sorting,
                spacing,
                bar_aspect_ratio,
            },
        },
        CpuView::GlobalBar { color, aspect_ratio } => PlanView::Bars {
            bars: level_bar(usage, resolved(color, palette), aspect_ratio),
        },
    }
}

/// The chart that a view of two fill levels asks for, given the histories of
/// both in percent. Superimposed histories of different lengths give none.
pub open spec fn percent_plan(
    view: PercentView,
    first: Seq<u64>,
    second: Seq<u64>,
    palette: Palette,
) -> Result<PlanView, ChartError> {
    match view {
        PercentView::Run { color_back, color_front, aspect_ratio } => if first.len()
            == second.len() {
            Ok(
                PlanView::Superimposed {
                    back: percent_chart(first, resolved(color_back, palette)),
                    front: percent_chart(second, resolved(color_front, palette)),
                    aspect_ratio,
                },
            )
        } else {
            Err(
                ChartError::LengthMismatch {
                    back: first.len() as usize,
                    front: second.len() as usize,
                },
            )
        },
        PercentView::RunA { color, aspect_ratio } => Ok(
            PlanView::Run { chart: percent_chart(first, resolved(color, palette)), aspect_ratio },
        ),
        PercentView::RunB { color, aspect_ratio } => Ok(
            PlanView::Run { chart: percent_chart(second, resolved(color, palette)), aspect_ratio },
        ),
        PercentView::Bar { color_back, color_front, spacing, bar_aspect_ratio } => Ok(
            PlanView::Bars {
                bars: BarChartView {
                    values: seq![last_or_zero(first), last_or_zero(second)],
                    max: PERCENT_MAX,
                    colors: seq![resolved(color_back, palette), resolved(color_front, palette)],
                    sorting: SortMethod::Unsorted,
                    spacing,
                    bar_aspect_ratio,
                },
            },
        ),
        PercentView::BarA { color, aspect_ratio } => Ok(
            PlanView::Bars { bars: level_bar(first, resolved(color, palette), aspect_ratio) },
        ),
        PercentView::BarB { color, aspect_ratio } => Ok(
            PlanView::Bars { bars: level_bar(second, resolved(color, palette), aspect_ratio) },
        ),
    }
}

/// The chart that a view of two rates asks for, given the histories of both.
/// Each history is drawn on a scale of its own that ends at its largest
/// sample. Superimposed histories of different lengths give none.
pub open spec fn io_plan(view: IoView, incoming: Seq<u64>, outgoing: Seq<u64>, palette: Palette) -> Result<
    PlanView,
    ChartError,
> {
    match view {
        IoView::Run { color_back, color_front, aspect_ratio } => if incoming.len()
            == outgoing.len() {
            Ok(
                PlanView::Superimposed {
                    back: rate_chart(incoming, resolved(color_back, palette)),
                    front: rate_chart(outgoing, resolved(color_front, palette)),
                    aspect_ratio,
                },
            )
        } else {
            Err(
                ChartError::LengthMismatch {
                    back: incoming.len() as usize,
                    front: outgoing.len() as usize,
                },
            )
        },
        IoView::RunA { color, aspect_ratio } => Ok(
            PlanView::Run { chart: rate_chart(incoming, resolved(color, palette)), aspect_ratio },
        ),
        IoView::RunB { color, aspect_ratio } => Ok(
            PlanView::Run { chart: rate_chart(outgoing, resolved(color, palette)), aspect_ratio },
        ),
    }
}

/// Whether an outcome is the one described: the same plan, or the same error.
pub open spec fn plan_is(made: Result<RenderPlan, ChartError>, described: Result<PlanView, ChartError>) -> bool {
    match (made, described) {
        (Ok(plan), Ok(view)) => plan@ == view,
        (Err(error), Err(expected)) => error == expected,
        _ => false,
    }
}

/// The extent of a chart in a panel whose short side is `cross` pixels.
///
/// A run chart spans the short side and keeps its ratio of width to height.
/// A row of bars spans the short side with each bar and runs along the panel.
pub open spec fn plan_size(plan: PlanView, cross: u32, orientation: Orientation) -> Result<
    Size,
    ChartError,
> {
    match plan {
        PlanView::Run { aspect_ratio, .. } => Ok(run_size(aspect_ratio, cross, orientation)),
        PlanView::Superimposed { aspect_ratio, .. } => Ok(
            run_size(aspect_ratio, cross, orientation),
        ),
        PlanView::Bars { bars } => {
            let geometry = geometry_of(bars.spacing, bars.bar_aspect_ratio, cross, orientation);
            if row_fits(bars.values.len(), geometry) {
                let along = row_length(bars.values.len(), geometry) as u64;
                Ok(
                    match orientation {
                        Orientation::Horizontal => Size { width: along, height: cross as u64 },
                        Orientation::Vertical => Size { width: cross as u64, height: along },
                    },
                )
            } else {
                Err(ChartError::RowTooLong)
            }
        },
    }
}

/// The extent of a run chart in a panel whose short side is `cross` pixels.
pub open spec fn run_size(aspect_ratio: Fixed, cross: u32, orientation: Orientation) -> Size {
    match orientation {
        Orientation::Horizontal => Size {
            width: scaled(cross, aspect_ratio) as u64,
            height: cross as u64,
        },
        Orientation::Vertical => Size {
            width: cross as u64,
            height: shrunk(cross, aspect_ratio) as u64,
        },
    }
}

/// The newest sample of a history, and zero where it holds none.
fn newest_or_zero(history: &SampleHistory<u64>) -> (level: u64)
    ensures
        level == last_or_zero(history@),
{
    match history.latest() {
        Some(sample) => *sample,
        None => 0,
    }
}

/// One bar for the newest sample of a history.
fn bar_of_level(history: &SampleHistory<u64>, color: Rgba, aspect_ratio: Fixed) -> (chart: BarChart)
    ensures
        chart@ == level_bar(history@, color, aspect_ratio),
{
    let mut values: Vec<u64> = Vec::with_capacity(1);
    values.push(newest_or_zero(history));
    let mut colors: Vec<Rgba> = Vec::with_capacity(1);
    colors.push(color);
    let chart = BarChart {
        values,
        max: PERCENT_MAX,
        colors,
        sorting: SortMethod::Unsorted,
        spacing: Fixed { millis: 0 },
        bar_aspect_ratio: aspect_ratio,
    };
    assert(chart@ =~= level_bar(history@, color, aspect_ratio));
    chart
}

/// The chart that a view of the processor's load asks for.
///
/// `usage` is the history of the load over all cores and `cores` the present
/// load of each core, both in percent.
pub fn resolve_cpu<'a>(
    view: &CpuView,
    usage: &'a SampleHistory<u64>,
    cores: &Vec<u64>,
    palette: &Palette,
) -> (plan: RenderPlan<'a>)
    ensures
        plan@ == cpu_plan(*view, usage@, cores@, *palette),
{
    match view {
        CpuView::GlobalRun { color, aspect_ratio } => {
            let chart = HistoryChart::fixed_max(usage, PERCENT_MAX, color.as_srgba(palette));
            RenderPlan::Run { chart, aspect_ratio: *aspect_ratio }
        },
        CpuView::PerCoreBar { color, spacing, bar_aspect_ratio, sorting } => {
            let resolved_color = color.as_srgba(palette);
            let mut values: Vec<u64> = Vec::with_capacity(cores.len());
            let mut colors: Vec<Rgba> = Vec::with_capacity(cores.len());
            let mut at: usize = 0;
            while at < cores.len()
                invariant
                    at <= cores@.len(),
                    values@ == cores@.subrange(0, at as int),
                    colors@ == Seq::new(at as nat, |i: int| resolved_color),
                decreases cores@.len() - at,
            {
                values.push(cores[at]);
                colors.push(resolved_color);
                at += 1;
            }
            assert(values@ =~= cores@);
            let chart = BarChart {
                values,
                max: PERCENT_MAX,
                colors,
                sorting: *sorting,
                spacing: *spacing,
                bar_aspect_ratio: *bar_aspect_ratio,
            };
            let plan = RenderPlan::Bars { bars: chart };
            assert(plan@ =~= cpu_plan(*view, usage@, cores@, *palette));
            plan
        },
        CpuView::GlobalBar { color, aspect_ratio } => RenderPlan::Bars {
            bars: bar_of_level(usage, color.as_srgba(palette), *aspect_ratio),
        },
    }
}

/// The chart that a view of two fill levels asks for, given the histories of
/// both in percent; an error where it superimposes histories of different
/// lengths.
pub fn resolve_percent<'a>(
    view: &PercentView,
    first: &'a SampleHistory<u64>,
    second: &'a SampleHistory<u64>,
    palette: &Palette,
) -> (plan: Result<RenderPlan<'a>, ChartError>)
    ensures
        plan_is(plan, percent_plan(*view, first@, second@, *palette)),
{
    match view {
        PercentView::Run { color_back, color_front, aspect_ratio } => {
            let back = HistoryChart::fixed_max(first, PERCENT_MAX, color_back.as_srgba(palette));
            let front = HistoryChart::fixed_max(second, PERCENT_MAX, color_front.as_srgba(palette));
            match SuperimposedHistoryChart::new(back, front) {
                Ok(charts) => Ok(RenderPlan::Superimposed { charts, aspect_ratio: *aspect_ratio }),
                Err(error) => Err(error),
            }
        },
        PercentView::RunA { color, aspect_ratio } => {
            let chart = HistoryChart::fixed_max(first, PERCENT_MAX, color.as_srgba(palette));
            Ok(RenderPlan::Run { chart, aspect_ratio: *aspect_ratio })
        },
        PercentView::RunB { color, aspect_ratio } => {
            let chart = HistoryChart::fixed_max(second, PERCENT_MAX, color.as_srgba(palette));
            Ok(RenderPlan::Run { chart, aspect_ratio: *aspect_ratio })
        },
        PercentView::Bar { color_back, color_front, spacing, bar_aspect_ratio } => {
            let mut values: Vec<u64> = Vec::with_capacity(2);
            values.push(newest_or_zero(first));
            values.push(newest_or_zero(second));
            let mut colors: Vec<Rgba> = Vec::with_capacity(2);
            colors.push(color_back.as_srgba(palette));
            colors.push(color_front.as_srgba(palette));
            let chart = BarChart {
                values,
                max: PERCENT_MAX,
                colors,
                sorting: SortMethod::Unsorted,
                spacing: *spacing,
                bar_aspect_ratio: *bar_aspect_ratio,
            };
            assert(chart.values@ =~= seq![last_or_zero(first@), last_or_zero(second@)]);
            assert(chart.colors@ =~= seq![
                resolved(*color_back, *palette),
                resolved(*color_front, *palette),
            ]);
            Ok(RenderPlan::Bars { bars: chart })
        },
        PercentView::BarA { color, aspect_ratio } => Ok(
            RenderPlan::Bars { bars: bar_of_level(first, color.as_srgba(palette), *aspect_ratio) },
        ),
        PercentView::BarB { color, aspect_ratio } => Ok(
            RenderPlan::Bars {
                bars: bar_of_level(second, color.as_srgba(palette), *aspect_ratio),
            },
        ),
    }
}

/// The chart that a view of two rates asks for, given the histories of both;
/// an error where it superimposes histories of different lengths.
pub fn resolve_io<'a>(
    view: &IoView,
    incoming: &'a SampleHistory<u64>,
    outgoing: &'a SampleHistory<u64>,
    palette: &Palette,
) -> (plan: Result<RenderPlan<'a>, ChartError>)
    ensures
        plan_is(plan, io_plan(*view, incoming@, outgoing@, *palette)),
{
    match view {
        IoView::Run { color_back, color_front, aspect_ratio } => {
            let back = HistoryChart::auto_max(incoming, color_back.as_srgba(palette));
            let front = HistoryChart::auto_max(outgoing, color_front.as_srgba(palette));
            match SuperimposedHistoryChart::new(back, front) {
                Ok(charts) => Ok(RenderPlan::Superimposed { charts, aspect_ratio: *aspect_ratio }),
                Err(error) => Err(error),
            }
        },
        IoView::RunA { color, aspect_ratio } => {
            let chart = HistoryChart::auto_max(incoming, color.as_srgba(palette));
            Ok(RenderPlan::Run { chart, aspect_ratio: *aspect_ratio })
        },
        IoView::RunB { color, aspect_ratio } => {
            let chart = HistoryChart::auto_max(outgoing, color.as_srgba(palette));
            Ok(RenderPlan::Run { chart, aspect_ratio: *aspect_ratio })
        },
    }
}

impl<'a> RenderPlan<'a> {
    /// The extent of the chart in a panel whose short side is `cross` pixels;
    /// an error for a row of bars too long to measure.
    pub fn size(&self, cross: u32, orientation: Orientation) -> (size: Result<Size, ChartError>)
        ensures
            size == plan_size(self@, cross, orientation),
    {
        match self {
            RenderPlan::Run { aspect_ratio, .. } => Ok(
                size_of_run(*aspect_ratio, cross, orientation),
            ),
            RenderPlan::Superimposed { aspect_ratio, .. } => Ok(
                size_of_run(*aspect_ratio, cross, orientation),
            ),
            RenderPlan::Bars { bars } => match bars.row_length(cross, orientation) {
                Ok(along) => Ok(
                    match orientation {
                        Orientation::Horizontal => Size { width: along, height: cross as u64 },
                        Orientation::Vertical => Size { width: cross as u64, height: along },
                    },
                ),
                Err(error) => Err(error),
            },
        }
    }
}

/// The extent of a run chart in a panel whose short side is `cross` pixels.
fn size_of_run(aspect_ratio: Fixed, cross: u32, orientation: Orientation) -> (size: Size)
    ensures
        size == run_size(aspect_ratio, cross, orientation),
{
    match orientation {
        Orientation::Horizontal => Size {
            width: aspect_ratio.scale(cross) as u64,
            height: cross as u64,
        },
        Orientation::Vertical => Size {
            width: cross as u64,
            height: aspect_ratio.shrink(cross) as u64,
        },
    }
}

/// What is to be drawn for a chart, and on how large a surface.
#[derive(Debug)]
pub enum Drawing {
    /// Layers to be drawn one over the other, the first at the bottom.
    Layers { size: Size, layers: Vec<Layer> },
    /// Bars, each to be filled with the colour that the chart has for its index.
    Bars { size: Size, bars: Vec<Bar> },
}

/// The layers of a run chart, bottom first: the area and then the line of a
/// single history; of two histories, both areas and then both lines, the back
/// before the front.
pub open spec fn plan_layers(plan: PlanView) -> Seq<LayerView> {
    match plan {
        PlanView::Run { chart, .. } => seq![
            area_of(chart.samples, chart.max, chart.color),
            line_of(chart.samples, chart.max, chart.color),
        ],
        PlanView::Superimposed { back, front, .. } => seq![
            area_of(back.samples, back.max, back.color),
            area_of(front.samples, front.max, front.color),
            line_of(back.samples, back.max, back.color),
            line_of(front.samples, front.max, front.color),
        ],
        PlanView::Bars { .. } => Seq::empty(),
    }
}

/// Why a chart cannot be drawn in a panel whose short side is `cross` pixels,
/// if it cannot: superimposed histories of different lengths, a row of bars
/// too long to measure, or a surface without width or height, in that order.
pub open spec fn plan_error(plan: PlanView, cross: u32, orientation: Orientation) -> Option<
    ChartError,
> {
    match plan {
        PlanView::Superimposed { back, front, .. } if back.samples.len() != front.samples.len() => {
            Some(
                ChartError::LengthMismatch {
                    back: back.samples.len() as usize,
                    front: front.samples.len() as usize,
                },
            )
        },
        _ => match plan_size(plan, cross, orientation) {
            Err(error) => Some(error),
            Ok(size) => if size.width == 0 || size.height == 0 {
                Some(ChartError::EmptySurface)
            } else {
                None
            },
        },
    }
}

/// Whether `drawing` is what the plan asks for in a panel whose short side is
/// `cross` pixels.
pub open spec fn is_drawing_of(
    drawing: Drawing,
    plan: PlanView,
    cross: u32,
    orientation: Orientation,
) -> bool {
    match plan {
        PlanView::Bars { bars: chart } => {
            let geometry = geometry_of(chart.spacing, chart.bar_aspect_ratio, cross, orientation);
            &&& drawing matches Drawing::Bars { size, bars }
            &&& Ok::<Size, ChartError>(size) == plan_size(plan, cross, orientation)
            &&& is_bar_order(bars@.map_values(|bar: Bar| bar.index), chart.values, chart.sorting)
            &&& forall|k: int|
                0 <= k < bars@.len() ==> (#[trigger] bars@[k]).rect == rect_of(
                    k,
                    extent_of(cross, chart.values[bars@[k].index as int], chart.max),
                    geometry,
                )
        },
        _ => {
            &&& drawing matches Drawing::Layers { size, layers }
            &&& Ok::<Size, ChartError>(size) == plan_size(plan, cross, orientation)
            &&& layers@.map_values(|layer: Layer| layer@) == plan_layers(plan)
        },
    }
}

impl<'a> RenderPlan<'a> {
    /// What is to be drawn for the chart in a panel whose short side is
    /// `cross` pixels, or why nothing is.
    pub fn draw(&self, cross: u32, orientation: Orientation) -> (drawn: Result<Drawing, ChartError>)
        ensures
            match drawn {
                Ok(drawing) => plan_error(self@, cross, orientation).is_none() && is_drawing_of(
                    drawing,
                    self@,
                    cross,
                    orientation,
                ),
                Err(error) => plan_error(self@, cross, orientation) == Some(error),
            },
    {
        match self {
            RenderPlan::Run { chart, aspect_ratio } => {
                let size = size_of_run(*aspect_ratio, cross, orientation);
                match chart.build_chart(size.width, size.height) {
                    Ok(layers) => {
                        assert(layers@.map_values(|layer: Layer| layer@) =~= plan_layers(self@));
                        Ok(Drawing::Layers { size, layers })
                    },
                    Err(error) => Err(error),
                }
            },
            RenderPlan::Superimposed { charts, aspect_ratio } => {
                let size = size_of_run(*aspect_ratio, cross, orientation);
                match charts.build_chart(size.width, size.height) {
                    Ok(layers) => {
                        assert(layers@.map_values(|layer: Layer| layer@) =~= plan_layers(self@));
                        Ok(Drawing::Layers { size, layers })
                    },
                    Err(error) => Err(error),
                }
            },
            RenderPlan::Bars { bars: chart } => {
                let size = match self.size(cross, orientation) {
                    Ok(size) => size,
                    Err(error) => {
                        return Err(error);
                    },
                };
                if size.width == 0 || size.height == 0 {
                    return Err(ChartError::EmptySurface);
                }
                match chart.build_chart(cross, orientation) {
                    Ok(bars) => Ok(Drawing::Bars { size, bars }),
                    Err(error) => Err(error),
                }
            },
        }
    }
}

} // verus!
