//! Bar charts: the order of the bars, their extents and their places.

use vstd::prelude::*;
use crate::color::Rgba;
use crate::measure::{scaled, rounded, Fixed};
use crate::run_chart::ChartError;

verus! {

/// How the bars of a chart are ordered.
#[derive(Clone, Copy, Debug, PartialEq, Eq, Structural)]
pub enum SortMethod {
    /// In the order of their indices.
    Unsorted,
    /// By rising value; equal values in the order of their indices.
    Ascending,
    /// By falling value; equal values in the order of their indices.
    Descending,
}

/// The direction of the panel's long axis.
#[derive(Clone, Copy, Debug, PartialEq, Eq, Structural)]
pub enum Orientation {
    /// Bars stand side by side and grow upward.
    Horizontal,
    /// Bars lie one under the other and grow to the right.
    Vertical,
}

/// The measures of a row of bars, in pixels: how thick each bar is, how far
/// apart two neighbours are, and how long a bar of full value is.
#[derive(Clone, Copy, Debug, PartialEq, Eq, Structural)]
pub struct BarGeometry {
    pub thickness: u64,
    pub spacing: u64,
    pub length: u32,
    pub orientation: Orientation,
}

/// A rectangle on the surface, from its top left corner.
#[derive(Clone, Copy, Debug, PartialEq, Eq, Structural)]
pub struct Rect {
    pub x: u64,
    pub y: u64,
    pub width: u64,
    pub height: u64,
}

/// One bar of a chart: the index of the value it shows, and its place.
#[derive(Clone, Copy, Debug, PartialEq, Eq, Structural)]
pub struct Bar {
    pub index: usize,
    pub rect: Rect,
}

/// Whether the bar of index `a` stands before the bar of index `b`.
pub open spec fn precedes(values: Seq<u64>, method: SortMethod, a: int, b: int) -> bool {
    match method {
        SortMethod::Unsorted => a < b,
        SortMethod::Ascending => values[a] < values[b] || (values[a] == values[b] && a < b),
        SortMethod::Descending => values[a] > values[b] || (values[a] == values[b] && a < b),
    }
}

/// Whether `order` lists indices of `values`, each before all that it precedes.
pub open spec fn is_ordered(order: Seq<usize>, values: Seq<u64>, method: SortMethod) -> bool {
    &&& forall|k: int| 0 <= k < order.len() ==> (#[trigger] order[k]) < values.len()
    &&& forall|j: int, k: int|
        0 <= j < k < order.len() ==> precedes(
            values,
            method,
            #[trigger] order[j] as int,
            #[trigger] order[k] as int,
        )
}

/// Whether `order` is the order of the bars of `values`: every index once,
/// arranged as `method` asks.
pub open spec fn is_bar_order(order: Seq<usize>, values: Seq<u64>, method: SortMethod) -> bool {
    &&& order.len() == values.len()
    &&& is_ordered(order, values, method)
    &&& forall|index: usize| index < values.len() ==> #[trigger] order.contains(index)
}

/// The length of a bar that shows `value` on a scale up to `max`, where a bar
/// of full value is `length` long: the share `value / max` of `length`,
/// rounded down, and the whole of `length` for a value beyond the scale.
pub open spec fn extent_of(length: u32, value: u64, max: u64) -> u32 {
    if max == 0 {
        0
    } else if value >= max {
        length
    } else {
        ((length as int * value as int) / (max as int)) as u32
    }
}

/// The distance from the start of the row to the bar at `position`.
pub open spec fn offset_of(position: int, geometry: BarGeometry) -> int {
    position * (geometry.thickness + geometry.spacing)
}

/// The place of the bar at `position` in its row, `extent` pixels long and
/// no longer than a full bar. In a horizontal panel the bar stands on the
/// lower edge of a strip as high as a full bar; in a vertical panel it starts
/// at the left edge.
pub open spec fn rect_of(position: int, extent: u32, geometry: BarGeometry) -> Rect {
    let shown = if extent > geometry.length {
        geometry.length
    } else {
        extent
    };
    match geometry.orientation {
        Orientation::Horizontal => Rect {
            x: offset_of(position, geometry) as u64,
            y: (geometry.length - shown) as u64,
            width: geometry.thickness,
            height: shown as u64,
        },
        Orientation::Vertical => Rect {
            x: 0,
            y: offset_of(position, geometry) as u64,
            width: shown as u64,
            height: geometry.thickness,
        },
    }
}

/// Whether a row of `count` bars can be measured in 64 bits.
pub open spec fn row_fits(count: nat, geometry: BarGeometry) -> bool {
    count * (geometry.thickness + geometry.spacing) <= u64::MAX
}

/// Two orders of the same bars are the same order.
pub proof fn lemma_bar_order_unique(
    first: Seq<usize>,
    second: Seq<usize>,
    values: Seq<u64>,
    method: SortMethod,
)
    requires
        is_bar_order(first, values, method),
        is_bar_order(second, values, method),
    ensures
        first == second,
{
    assert forall|k: int| 0 <= k < first.len() implies first[k] == second[k] by {
        lemma_same_position(first, second, values, method, k);
    }
    assert(first =~= second);
}

/// Two orders of the same bars hold the same index at every position.
proof fn lemma_same_position(
    first: Seq<usize>,
    second: Seq<usize>,
    values: Seq<u64>,
    method: SortMethod,
    k: int,
)
    requires
        is_bar_order(first, values, method),
        is_bar_order(second, values, method),
        0 <= k < first.len(),
    ensures
        first[k] == second[k],
    decreases k,
{
    // Every entry of `second` before position `k` equals the entry of `first`
    // at its position, by induction; so `first[k]` stands in `second` at `k`
    // or later, and `second[k]` stands in `first` at `k` or later.
    assert forall|j: int| 0 <= j < k implies first[j] == second[j] by {
        lemma_same_position(first, second, values, method, j);
    }
    let a = first[k] as int;
    let b = second[k] as int;
    assert(second.contains(first[k]));
    assert(first.contains(second[k]));
    let at_second = choose|p: int| 0 <= p < second.len() && second[p] == first[k];
    let at_first = choose|p: int| 0 <= p < first.len() && first[p] == second[k];
    if at_second < k {
        assert(first[at_second] == second[at_second]);
        assert(precedes(values, method, first[at_second] as int, first[k] as int));
    }
    if at_first < k {
        assert(second[at_first] == first[at_first]);
        assert(precedes(values, method, second[at_first] as int, second[k] as int));
    }
    if a != b {
        assert(at_second > k);
        assert(at_first > k);
        assert(precedes(values, method, second[k] as int, second[at_second] as int));
        assert(precedes(values, method, first[k] as int, first[at_first] as int));
    }
}

/// Whether the bar of index `a` stands before the bar of index `b`.
fn stands_before(values: &Vec<u64>, method: SortMethod, a: usize, b: usize) -> (before: bool)
    requires
        a < values@.len(),
        b < values@.len(),
    ensures
        before == precedes(values@, method, a as int, b as int),
{
    match method {
        SortMethod::Unsorted => a < b,
        SortMethod::Ascending => values[a] < values[b] || (values[a] == values[b] && a < b),
        SortMethod::Descending => values[a] > values[b] || (values[a] == values[b] && a < b),
    }
}

/// The order in which the bars of `values` stand: every index once, arranged
/// as `method` asks, with equal values left in the order of their indices.
pub fn sorted_order(values: &Vec<u64>, method: SortMethod) -> (order: Vec<usize>)
    ensures
        is_bar_order(order@, values@, method),
{
    let count: usize = values.len();
    let mut order: Vec<usize> = Vec::with_capacity(count);
    let mut next: usize = 0;
    while next < count
        invariant
            next <= count,
            count == values@.len(),
            order@.len() == next,
            is_ordered(order@, values@, method),
            forall|k: int| 0 <= k < order@.len() ==> (#[trigger] order@[k]) < next,
            forall|index: usize| index < next ==> #[trigger] order@.contains(index),
        decreases count - next,
    {
        let mut place: usize = next;
        while place > 0 && stands_before(values, method, next, order[place - 1])
            invariant
                place <= next,
                next < count,
                count == values@.len(),
                order@.len() == next,
                forall|k: int| 0 <= k < order@.len() ==> (#[trigger] order@[k]) < next,
                forall|k: int|
                    place <= k < order@.len() ==> precedes(
                        values@,
                        method,
                        next as int,
                        #[trigger] order@[k] as int,
                    ),
            decreases place,
        {
            place -= 1;
        }
        let ghost before = order@;
        order.insert(place, next);
        proof {
            let after = order@;
            assert forall|k: int| 0 <= k < after.len() implies (#[trigger] after[k]) < next + 1 by {
                if k < place {
                    assert(after[k] == before[k]);
                } else if k > place {
                    assert(after[k] == before[k - 1]);
                }
            }
            assert forall|j: int, k: int| 0 <= j < k < after.len() implies precedes(
                values@,
                method,
                #[trigger] after[j] as int,
                #[trigger] after[k] as int,
            ) by {
                if k < place {
                    assert(after[j] == before[j] && after[k] == before[k]);
                } else if k == place {
                    assert(after[j] == before[j]);
                    assert(before[j] < next);
                    if j < place - 1 {
                        assert(precedes(
                            values@,
                            method,
                            before[j] as int,
                            before[place - 1] as int,
                        ));
                    }
                    assert(before[place - 1] < next);
                    assert(!precedes(values@, method, next as int, before[place - 1] as int));
                } else if j < place {
                    assert(after[j] == before[j] && after[k] == before[k - 1]);
                } else if j == place {
                    assert(after[k] == before[k - 1]);
                } else {
                    assert(after[j] == before[j - 1] && after[k] == before[k - 1]);
                }
            }
            assert forall|index: usize| index < next + 1 implies #[trigger] after.contains(
                index,
            ) by {
                if index == next {
                    assert(after[place as int] == index);
                } else {
                    assert(before.contains(index));
                    let k = choose|k: int| 0 <= k < before.len() && before[k] == index;
                    if k < place {
                        assert(after[k] == index);
                    } else {
                        assert(after[k + 1] == index);
                    }
                }
            }
        }
        next += 1;
    }
    order
}

/// The length of a bar that shows `value` on a scale up to `max`.
pub fn bar_extent(length: u32, value: u64, max: u64) -> (extent: u32)
    ensures
        extent == extent_of(length, value, max),
        extent <= length,
{
    if max == 0 {
        0
    } else if value >= max {
        length
    } else {
        assert(length as int * value as int <= 0xffff_ffff * 0xffff_ffff_ffff_ffff)
            by (nonlinear_arith)
            requires
                0 <= length as int <= 0xffff_ffff,
                0 <= value as int <= 0xffff_ffff_ffff_ffff,
        ;
        assert((length as int * value as int) / (max as int) <= length as int)
            by (nonlinear_arith)
            requires
                0 <= value as int,
                value as int <= max as int,
                0 < max as int,
                0 <= length as int,
        ;
        assert(0 <= (length as int * value as int) / (max as int)) by (nonlinear_arith)
            requires
                0 <= value as int,
                0 < max as int,
                0 <= length as int,
        ;
        let scaled: u128 = (length as u128 * value as u128) / (max as u128);
        scaled as u32
    }
}

/// The distance from the start of one bar to the start of the next in a row
/// of `count` bars, if the row can be measured in 64 bits. A row without bars
/// has a distance of zero.
fn row_pitch(count: usize, geometry: BarGeometry) -> (pitch: Option<u64>)
    ensures
        pitch.is_some() == row_fits(count as nat, geometry),
        pitch matches Some(pitch) ==> count * pitch <= u64::MAX && (count > 0 ==> pitch
            == geometry.thickness + geometry.spacing),
{
    if count == 0 {
        return Some(0);
    }
    let pitch: u64 = match geometry.thickness.checked_add(geometry.spacing) {
        Some(pitch) => pitch,
        None => {
            assert(count * (geometry.thickness + geometry.spacing) > u64::MAX)
                by (nonlinear_arith)
                requires
                    count >= 1,
                    geometry.thickness + geometry.spacing > u64::MAX,
            ;
            return None;
        },
    };
    match (count as u64).checked_mul(pitch) {
        Some(_) => Some(pitch),
        None => None,
    }
}

/// The places of a row of bars, the bar at position `k` being `extents[k]`
/// pixels long, or as long as a full bar where that is less. A row too long
/// to measure in 64 bits is refused.
pub fn place_bars(extents: &Vec<u32>, geometry: BarGeometry) -> (placed: Result<
    Vec<Rect>,
    ChartError,
>)
    ensures
        match placed {
            Ok(rects) => {
                &&& row_fits(extents@.len(), geometry)
                &&& rects@.len() == extents@.len()
                &&& forall|k: int|
                    0 <= k < rects@.len() ==> (#[trigger] rects@[k]) == rect_of(
                        k,
                        extents@[k],
                        geometry,
                    )
            },
            Err(error) => !row_fits(extents@.len(), geometry) && error == ChartError::RowTooLong,
        },
{
    let count: usize = extents.len();
    let pitch: u64 = match row_pitch(count, geometry) {
        Some(pitch) => pitch,
        None => {
            return Err(ChartError::RowTooLong);
        },
    };
    let mut rects: Vec<Rect> = Vec::with_capacity(count);
    let mut position: usize = 0;
    while position < count
        invariant
            position <= count,
            count == extents@.len(),
            count > 0 ==> pitch == geometry.thickness + geometry.spacing,
            count * pitch <= u64::MAX,
            rects@.len() == position,
            forall|k: int|
                0 <= k < rects@.len() ==> (#[trigger] rects@[k]) == rect_of(
                    k,
                    extents@[k],
                    geometry,
                ),
        decreases count - position,
    {
        assert(position * pitch <= count * pitch) by (nonlinear_arith)
            requires
                0 <= position <= count,
                0 <= pitch,
        ;
        let offset: u64 = position as u64 * pitch;
        let extent: u32 = if extents[position] > geometry.length {
            geometry.length
        } else {
            extents[position]
        };
        let rect = match geometry.orientation {
            Orientation::Horizontal => Rect {
                x: offset,
                y: (geometry.length - extent) as u64,
                width: geometry.thickness,
                height: extent as u64,
            },
            Orientation::Vertical => Rect {
                x: 0,
                y: offset,
                width: extent as u64,
                height: geometry.thickness,
            },
        };
        rects.push(rect);
        position += 1;
    }
    Ok(rects)
}

/// The bars of a chart with one bar per value, each on the scale up to `max`:
/// ordered as `method` asks and placed one after the other.
pub fn layout_bars(values: &Vec<u64>, max: u64, method: SortMethod, geometry: BarGeometry) -> (laid:
    Result<Vec<Bar>, ChartError>)
    ensures
        match laid {
            Ok(bars) => {
                &&& row_fits(values@.len(), geometry)
                &&& is_bar_order(bars@.map_values(|bar: Bar| bar.index), values@, method)
                &&& forall|k: int|
                    0 <= k < bars@.len() ==> (#[trigger] bars@[k]).rect == rect_of(
                        k,
                        extent_of(geometry.length, values@[bars@[k].index as int], max),
                        geometry,
                    )
            },
            Err(error) => !row_fits(values@.len(), geometry) && error == ChartError::RowTooLong,
        },
{
    let order = sorted_order(values, method);
    let count: usize = order.len();
    let mut extents: Vec<u32> = Vec::with_capacity(count);
    let mut position: usize = 0;
    while position < count
        invariant
            position <= count,
            count == order@.len(),
            count == values@.len(),
            is_bar_order(order@, values@, method),
            extents@.len() == position,
            forall|k: int|
                0 <= k < extents@.len() ==> (#[trigger] extents@[k]) == extent_of(
                    geometry.length,
                    values@[order@[k] as int],
                    max,
                ),
        decreases count - position,
    {
        extents.push(bar_extent(geometry.length, values[order[position]], max));
        position += 1;
    }
    let rects = match place_bars(&extents, geometry) {
        Ok(rects) => rects,
        Err(error) => {
            return Err(error);
        },
    };
    let mut bars: Vec<Bar> = Vec::with_capacity(count);
    position = 0;
    while position < count
        invariant
            position <= count,
            count == order@.len(),
            count == rects@.len(),
            bars@.len() == position,
            forall|k: int|
                0 <= k < bars@.len() ==> (#[trigger] bars@[k]) == (Bar {
                    index: order@[k],
                    rect: rects@[k],
                }),
        decreases count - position,
    {
        bars.push(Bar { index: order[position], rect: rects[position] });
        position += 1;
    }
    assert(bars@.map_values(|bar: Bar| bar.index) =~= order@);
    Ok(bars)
}

/// A chart of one bar per value: the values on a common scale up to `max`,
/// the colour of each bar by the index of its value, and how the bars are
/// ordered, spaced and proportioned.
#[derive(Clone, Debug, PartialEq, Eq)]
pub struct BarChart {
    pub values: Vec<u64>,
    pub max: u64,
    pub colors: Vec<Rgba>,
    pub sorting: SortMethod,
    /// The distance between two neighbouring bars, in pixels.
    pub spacing: Fixed,
    /// The thickness of a bar as a share of the length of a full bar.
    pub bar_aspect_ratio: Fixed,
}

/// A bar chart with its values and colours as sequences.
#[verifier::ext_equal]
pub struct BarChartView {
    pub values: Seq<u64>,
    pub max: u64,
    pub colors: Seq<Rgba>,
    pub sorting: SortMethod,
    pub spacing: Fixed,
    pub bar_aspect_ratio: Fixed,
}

impl View for BarChart {
    type V = BarChartView;

    open spec fn view(&self) -> BarChartView {
        BarChartView {
            values: self.values@,
            max: self.max,
            colors: self.colors@,
            sorting: self.sorting,
            spacing: self.spacing,
            bar_aspect_ratio: self.bar_aspect_ratio,
        }
    }
}

/// The measures of the bars of a chart in a panel whose short side is `cross`
/// pixels: a full bar spans the short side, is as thick as the chart's ratio
/// makes it, and stands the chart's spacing, rounded to whole pixels, from
/// the next.
pub open spec fn geometry_of(
    spacing: Fixed,
    bar_aspect_ratio: Fixed,
    cross: u32,
    orientation: Orientation,
) -> BarGeometry {
    BarGeometry {
        thickness: scaled(cross, bar_aspect_ratio) as u64,
        spacing: rounded(spacing) as u64,
        length: cross,
        orientation,
    }
}

/// The length of a row of `count` bars: the bars and the gaps between them.
pub open spec fn row_length(count: nat, geometry: BarGeometry) -> int {
    if count == 0 {
        0
    } else {
        count * (geometry.thickness + geometry.spacing) - geometry.spacing
    }
}

impl BarChart {
    /// The measures of the chart's bars in a panel whose short side is `cross` pixels.
    pub fn geometry(&self, cross: u32, orientation: Orientation) -> (geometry: BarGeometry)
        ensures
            geometry == geometry_of(self.spacing, self.bar_aspect_ratio, cross, orientation),
    {
        BarGeometry {
            thickness: self.bar_aspect_ratio.scale(cross) as u64,
            spacing: self.spacing.round() as u64,
            length: cross,
            orientation,
        }
    }

    /// The bars of the chart in a panel whose short side is `cross` pixels.
    pub fn build_chart(&self, cross: u32, orientation: Orientation) -> (laid: Result<
        Vec<Bar>,
        ChartError,
    >)
        ensures
            match laid {
                Ok(bars) => {
                    let geometry = geometry_of(
                        self.spacing,
                        self.bar_aspect_ratio,
                        cross,
                        orientation,
                    );
                    &&& row_fits(self.values@.len(), geometry)
                    &&& is_bar_order(
                        bars@.map_values(|bar: Bar| bar.index),
                        self.values@,
                        self.sorting,
                    )
                    &&& forall|k: int|
                        0 <= k < bars@.len() ==> (#[trigger] bars@[k]).rect == rect_of(
                            k,
                            extent_of(cross, self.values@[bars@[k].index as int], self.max),
                            geometry,
                        )
                },
                Err(error) => {
                    &&& !row_fits(
                        self.values@.len(),
                        geometry_of(self.spacing, self.bar_aspect_ratio, cross, orientation),
                    )
                    &&& error == ChartError::RowTooLong
                },
            },
    {
        layout_bars(&self.values, self.max, self.sorting, self.geometry(cross, orientation))
    }

    /// The length of the chart's row of bars in a panel whose short side is
    /// `cross` pixels, if it can be measured in 64 bits.
    pub fn row_length(&self, cross: u32, orientation: Orientation) -> (length: Result<
        u64,
        ChartError,
    >)
        ensures
            match length {
                Ok(length) => {
                    let geometry = geometry_of(
                        self.spacing,
                        self.bar_aspect_ratio,
                        cross,
                        orientation,
                    );
                    row_fits(self.values@.len(), geometry) && length == row_length(
                        self.values@.len(),
                        geometry,
                    )
                },
                Err(error) => {
                    &&& !row_fits(
                        self.values@.len(),
                        geometry_of(self.spacing, self.bar_aspect_ratio, cross, orientation),
                    )
                    &&& error == ChartError::RowTooLong
                },
            },
    {
        let geometry = self.geometry(cross, orientation);
        let count: usize = self.values.len();
        match row_pitch(count, geometry) {
            None => Err(ChartError::RowTooLong),
            Some(pitch) => {
                if count == 0 {
                    Ok(0)
                } else {
                    assert(count * pitch >= pitch) by (nonlinear_arith)
                        requires
                            count >= 1,
                            pitch >= 0,
                    ;
                    Ok(count as u64 * pitch - geometry.spacing)
                }
            },
        }
    }
}

} // verus!
