//! Run charts: one history, or two superimposed, as layers for a drawing surface.

use vstd::prelude::*;
use crate::color::Rgba;
use crate::history::{max_of, SampleHistory};

verus! {

/// The share of a colour's own opacity with which an area is filled, in percent.
pub const AREA_OPACITY_PERCENT: u8 = 50;

/// The width of a stroked line, in pixels.
pub const LINE_STROKE_WIDTH: u32 = 1;

/// How a layer covers its points.
#[derive(Clone, Copy, Debug, PartialEq, Eq, Structural)]
pub enum LayerKind {
    /// The region between the points and the horizontal axis, filled.
    Area,
    /// The path through the points, stroked.
    Line,
}

/// One drawing step: a series of points in data coordinates, the domain that
/// maps them onto the surface, and the style to draw them in.
///
/// The horizontal domain is `0..x_end` and the vertical one `0..y_end`.
#[derive(Clone, Debug, PartialEq, Eq)]
pub struct Layer {
    pub kind: LayerKind,
    pub color: Rgba,
    pub opacity_percent: u8,
    pub stroke_width: u32,
    pub x_end: u64,
    pub y_end: u64,
    pub points: Vec<(u64, u64)>,
}

/// A layer with its points as a sequence.
#[verifier::ext_equal]
pub struct LayerView {
    pub kind: LayerKind,
    pub color: Rgba,
    pub opacity_percent: u8,
    pub stroke_width: u32,
    pub x_end: u64,
    pub y_end: u64,
    pub points: Seq<(u64, u64)>,
}

impl View for Layer {
    type V = LayerView;

    open spec fn view(&self) -> LayerView {
        LayerView {
            kind: self.kind,
            color: self.color,
            opacity_percent: self.opacity_percent,
            stroke_width: self.stroke_width,
            x_end: self.x_end,
            y_end: self.y_end,
            points: self.points@,
        }
    }
}

/// Why a chart cannot be drawn.
#[derive(Clone, Copy, Debug, PartialEq, Eq, Structural)]
pub enum ChartError {
    /// The two histories of a superimposed chart hold different numbers of samples.
    LengthMismatch { back: usize, front: usize },
    /// The surface has no width or no height.
    EmptySurface,
    /// A row of bars is too long to measure.
    RowTooLong,
}

/// The samples paired with their positions: the sample at position `i`
/// becomes the point `(i, sample)`.
pub open spec fn plotted(samples: Seq<u64>) -> Seq<(u64, u64)> {
    Seq::new(samples.len(), |i: int| (i as u64, samples[i]))
}

/// The filled area under `samples` on a vertical domain that ends at `max`.
pub open spec fn area_of(samples: Seq<u64>, max: u64, color: Rgba) -> LayerView {
    LayerView {
        kind: LayerKind::Area,
        color,
        opacity_percent: AREA_OPACITY_PERCENT,
        stroke_width: 0,
        x_end: samples.len() as u64,
        y_end: max,
        points: plotted(samples),
    }
}

/// The stroked line through `samples` on a vertical domain that ends at `max`.
pub open spec fn line_of(samples: Seq<u64>, max: u64, color: Rgba) -> LayerView {
    LayerView {
        kind: LayerKind::Line,
        color,
        opacity_percent: 100,
        stroke_width: LINE_STROKE_WIDTH,
        x_end: samples.len() as u64,
        y_end: max,
        points: plotted(samples),
    }
}

/// A chart of one history: its samples against their positions, on a
/// vertical domain from zero to `max`, in one colour.
#[derive(Debug)]
pub struct HistoryChart<'a> {
    pub history: &'a SampleHistory<u64>,
    pub max: u64,
    pub color: Rgba,
}

/// A chart with its samples as a sequence, oldest first.
#[verifier::ext_equal]
pub struct ChartView {
    pub samples: Seq<u64>,
    pub max: u64,
    pub color: Rgba,
}

impl<'a> View for HistoryChart<'a> {
    type V = ChartView;

    open spec fn view(&self) -> ChartView {
        ChartView { samples: self.history@, max: self.max, color: self.color }
    }
}

impl<'a> HistoryChart<'a> {
    /// A chart whose vertical domain ends at the largest sample held.
    pub fn auto_max(history: &'a SampleHistory<u64>, color: Rgba) -> (chart: HistoryChart<'a>)
        ensures
            chart.history == history,
            chart.max == max_of(history@),
            chart.color == color,
    {
        HistoryChart { history, max: history.max(), color }
    }

    /// A chart whose vertical domain ends at `max`, whatever the samples are.
    pub fn fixed_max(history: &'a SampleHistory<u64>, max: u64, color: Rgba) -> (chart:
        HistoryChart<'a>)
        ensures
            chart.history == history,
            chart.max == max,
            chart.color == color,
    {
        HistoryChart { history, max, color }
    }

    /// The points of the chart, oldest sample first.
    pub fn points(&self) -> (points: Vec<(u64, u64)>)
        ensures
            points@ == plotted(self.history@),
    {
        let samples = self.history.ascending_iter();
        let mut points: Vec<(u64, u64)> = Vec::with_capacity(samples.len());
        let mut at: usize = 0;
        while at < samples.len()
            invariant
                at <= samples.len(),
                points@.len() == at,
                forall|i: int| 0 <= i < at ==> points@[i] == (i as u64, samples@[i]),
            decreases samples.len() - at,
        {
            points.push((at as u64, samples[at]));
            at += 1;
        }
        assert(points@ =~= plotted(self.history@));
        points
    }

    /// The filled area under the chart's samples.
    pub fn area(&self) -> (layer: Layer)
        ensures
            layer@ == area_of(self.history@, self.max, self.color),
    {
        Layer {
            kind: LayerKind::Area,
            color: self.color,
            opacity_percent: AREA_OPACITY_PERCENT,
            stroke_width: 0,
            x_end: self.history.len() as u64,
            y_end: self.max,
            points: self.points(),
        }
    }

    /// The stroked line through the chart's samples.
    pub fn line(&self) -> (layer: Layer)
        ensures
            layer@ == line_of(self.history@, self.max, self.color),
    {
        Layer {
            kind: LayerKind::Line,
            color: self.color,
            opacity_percent: 100,
            stroke_width: LINE_STROKE_WIDTH,
            x_end: self.history.len() as u64,
            y_end: self.max,
            points: self.points(),
        }
    }

    /// The layers that draw the chart on a surface of the given size: the
    /// area, then the line over it. A surface without extent gets none.
    pub fn build_chart(&self, width: u64, height: u64) -> (drawn: Result<Vec<Layer>, ChartError>)
        ensures
            (width == 0 || height == 0) <==> drawn == Err::<Vec<Layer>, ChartError>(
                ChartError::EmptySurface,
            ),
            width > 0 && height > 0 <==> drawn.is_ok(),
            drawn matches Ok(layers) ==> {
                &&& layers@.len() == 2
                &&& layers@[0]@ == area_of(self.history@, self.max, self.color)
                &&& layers@[1]@ == line_of(self.history@, self.max, self.color)
            },
    {
        if width == 0 || height == 0 {
            return Err(ChartError::EmptySurface);
        }
        let mut layers: Vec<Layer> = Vec::with_capacity(2);
        layers.push(self.area());
        layers.push(self.line());
        Ok(layers)
    }
}

/// Two charts in one plot area: the same horizontal domain, and a vertical
/// domain of its own for each.
#[derive(Debug)]
pub struct SuperimposedHistoryChart<'a> {
    pub back: HistoryChart<'a>,
    pub front: HistoryChart<'a>,
}

impl<'a> SuperimposedHistoryChart<'a> {
    /// Pairs two charts, provided that their histories hold equally many samples.
    pub fn new(back: HistoryChart<'a>, front: HistoryChart<'a>) -> (paired: Result<
        SuperimposedHistoryChart<'a>,
        ChartError,
    >)
        ensures
            match paired {
                Ok(chart) => {
                    &&& back.history@.len() == front.history@.len()
                    &&& chart.back == back
                    &&& chart.front == front
                },
                Err(error) => {
                    &&& back.history@.len() != front.history@.len()
                    &&& error == (ChartError::LengthMismatch {
                        back: back.history@.len() as usize,
                        front: front.history@.len() as usize,
                    })
                },
            },
    {
        let back_len: usize = back.history.len();
        let front_len: usize = front.history.len();
        if back_len != front_len {
            Err(ChartError::LengthMismatch { back: back_len, front: front_len })
        } else {
            Ok(SuperimposedHistoryChart { back, front })
        }
    }

    /// Whether both histories are full, so that the chart spans its whole window.
    pub fn is_warmed_up(&self) -> (warm: bool)
        ensures
            warm == (self.back.history@.len() == self.back.history.capacity()
                && self.front.history@.len() == self.front.history.capacity()),
    {
        self.back.history.is_full() && self.front.history.is_full()
    }

    /// The layers that draw both charts on a surface of the given size, in
    /// the order back area, front area, back line, front line: areas below
    /// lines, back below front.
    ///
    /// Histories of different lengths are refused first, then a surface
    /// without extent; neither yields any layer.
    pub fn build_chart(&self, width: u64, height: u64) -> (drawn: Result<Vec<Layer>, ChartError>)
        ensures
            self.back.history@.len() != self.front.history@.len() <==> drawn == Err::<
                Vec<Layer>,
                ChartError,
            >(
                ChartError::LengthMismatch {
                    back: self.back.history@.len() as usize,
                    front: self.front.history@.len() as usize,
                },
            ),
            self.back.history@.len() == self.front.history@.len() && (width == 0 || height == 0)
                <==> drawn == Err::<Vec<Layer>, ChartError>(ChartError::EmptySurface),
            self.back.history@.len() == self.front.history@.len() && width > 0 && height > 0
                <==> drawn.is_ok(),
            drawn matches Ok(layers) ==> {
                &&& layers@.len() == 4
                &&& layers@[0]@ == area_of(self.back.history@, self.back.max, self.back.color)
                &&& layers@[1]@ == area_of(self.front.history@, self.front.max, self.front.color)
                &&& layers@[2]@ == line_of(self.back.history@, self.back.max, self.back.color)
                &&& layers@[3]@ == line_of(self.front.history@, self.front.max, self.front.color)
            },
    {
        let back_len: usize = self.back.history.len();
        let front_len: usize = self.front.history.len();
        if back_len != front_len {
            return Err(ChartError::LengthMismatch { back: back_len, front: front_len });
        }
        if width == 0 || height == 0 {
            return Err(ChartError::EmptySurface);
        }
        let mut layers: Vec<Layer> = Vec::with_capacity(4);
        layers.push(self.back.area());
        layers.push(self.front.area());
        layers.push(self.back.line());
        layers.push(self.front.line());
        Ok(layers)
    }
}

} // verus!
