use monitor_charts::bar_chart::{
    bar_extent, layout_bars, place_bars, sorted_order, Bar, BarChart, BarGeometry, Orientation,
    Rect, SortMethod,
};
use monitor_charts::color::Rgba;
use monitor_charts::measure::Fixed;
use monitor_charts::run_chart::ChartError;

const GREY: Rgba = Rgba { red: 9, green: 9, blue: 9, alpha: 255 };

fn geometry(thickness: u64, spacing: u64, length: u32, orientation: Orientation) -> BarGeometry {
    BarGeometry { thickness, spacing, length, orientation }
}

fn rect(x: u64, y: u64, width: u64, height: u64) -> Rect {
    Rect { x, y, width, height }
}

#[test]
fn unsorted_bars_keep_the_order_of_their_indices() {
    assert_eq!(sorted_order(&vec![50, 30, 50, 10], SortMethod::Unsorted), vec![0, 1, 2, 3]);
}

#[test]
fn ascending_sort_is_stable() {
    assert_eq!(sorted_order(&vec![50, 30, 50, 10], SortMethod::Ascending), vec![3, 1, 0, 2]);
    assert_eq!(sorted_order(&vec![5, 5, 5], SortMethod::Ascending), vec![0, 1, 2]);
    assert_eq!(sorted_order(&vec![2, 1, 2, 1, 2], SortMethod::Ascending), vec![1, 3, 0, 2, 4]);
}

#[test]
fn descending_sort_is_stable() {
    assert_eq!(sorted_order(&vec![50, 30, 50, 10], SortMethod::Descending), vec![0, 2, 1, 3]);
    assert_eq!(sorted_order(&vec![5, 5, 5], SortMethod::Descending), vec![0, 1, 2]);
    assert_eq!(sorted_order(&vec![1, 2, 1, 2, 1], SortMethod::Descending), vec![1, 3, 0, 2, 4]);
}

#[test]
fn order_of_few_bars() {
    for method in [SortMethod::Unsorted, SortMethod::Ascending, SortMethod::Descending] {
        assert_eq!(sorted_order(&vec![], method), Vec::<usize>::new());
        assert_eq!(sorted_order(&vec![7], method), vec![0]);
    }
    assert_eq!(sorted_order(&vec![u64::MAX, 0], SortMethod::Ascending), vec![1, 0]);
    assert_eq!(sorted_order(&vec![0, u64::MAX], SortMethod::Descending), vec![1, 0]);
}

#[test]
fn sorting_every_arrangement_of_small_values() {
    for a in 0..3u64 {
        for b in 0..3u64 {
            for c in 0..3u64 {
                for d in 0..3u64 {
                    let values = vec![a, b, c, d];
                    let mut rising: Vec<usize> = vec![0, 1, 2, 3];
                    rising.sort_by_key(|index| values[*index]);
                    assert_eq!(sorted_order(&values, SortMethod::Ascending), rising);
                    let mut falling: Vec<usize> = vec![0, 1, 2, 3];
                    falling.sort_by_key(|index| u64::MAX - values[*index]);
                    assert_eq!(sorted_order(&values, SortMethod::Descending), falling);
                }
            }
        }
    }
}

#[test]
fn extent_is_the_share_of_the_length() {
    assert_eq!(bar_extent(100, 50, 100), 50);
    assert_eq!(bar_extent(30, 1, 3), 10);
    assert_eq!(bar_extent(7, 2, 3), 4);
    assert_eq!(bar_extent(200, 0, 100), 0);
    assert_eq!(bar_extent(200, 100, 100), 200);
    assert_eq!(bar_extent(200, 99, 100), 198);
    assert_eq!(bar_extent(0, 50, 100), 0);
}

#[test]
fn extent_beyond_the_scale_is_the_whole_length() {
    assert_eq!(bar_extent(200, 101, 100), 200);
    assert_eq!(bar_extent(200, u64::MAX, 100), 200);
}

#[test]
fn extent_on_a_scale_of_zero_is_zero() {
    assert_eq!(bar_extent(200, 0, 0), 0);
    assert_eq!(bar_extent(200, 50, 0), 0);
}

#[test]
fn extent_of_large_numbers() {
    assert_eq!(bar_extent(u32::MAX, u64::MAX - 1, u64::MAX), u32::MAX - 1);
    assert_eq!(bar_extent(u32::MAX, u64::MAX / 2, u64::MAX), u32::MAX / 2);
    assert_eq!(bar_extent(u32::MAX, 1, u64::MAX), 0);
}

#[test]
fn bars_of_a_horizontal_panel_grow_upward() {
    let placed = place_bars(&vec![100, 50, 0], geometry(10, 3, 100, Orientation::Horizontal));
    assert_eq!(
        placed,
        Ok(vec![rect(0, 0, 10, 100), rect(13, 50, 10, 50), rect(26, 100, 10, 0)])
    );
}

#[test]
fn bars_of_a_vertical_panel_grow_to_the_right() {
    let placed = place_bars(&vec![100, 50, 0], geometry(10, 3, 100, Orientation::Vertical));
    assert_eq!(
        placed,
        Ok(vec![rect(0, 0, 100, 10), rect(0, 13, 50, 10), rect(0, 26, 0, 10)])
    );
}

#[test]
fn a_row_without_bars() {
    assert_eq!(place_bars(&vec![], geometry(10, 3, 100, Orientation::Horizontal)), Ok(vec![]));
    assert_eq!(
        place_bars(&vec![], geometry(u64::MAX, u64::MAX, 100, Orientation::Horizontal)),
        Ok(vec![])
    );
}

#[test]
fn a_row_too_long_to_measure_is_refused() {
    assert_eq!(
        place_bars(&vec![0, 0], geometry(u64::MAX, 0, 10, Orientation::Horizontal)),
        Err(ChartError::RowTooLong)
    );
    assert_eq!(
        place_bars(&vec![0], geometry(u64::MAX, 1, 10, Orientation::Vertical)),
        Err(ChartError::RowTooLong)
    );
    assert_eq!(
        place_bars(&vec![0, 0, 0], geometry(u64::MAX / 2, 0, 10, Orientation::Vertical)),
        Err(ChartError::RowTooLong)
    );
    assert_eq!(
        layout_bars(
            &vec![1, 2],
            100,
            SortMethod::Unsorted,
            geometry(u64::MAX, 0, 10, Orientation::Horizontal)
        ),
        Err(ChartError::RowTooLong)
    );
}

#[test]
fn the_longest_row_that_can_be_measured() {
    assert_eq!(
        place_bars(&vec![4], geometry(u64::MAX, 0, 10, Orientation::Horizontal)),
        Ok(vec![rect(0, 6, u64::MAX, 4)])
    );
    assert_eq!(
        place_bars(&vec![0, 10], geometry(u64::MAX / 2, 0, 10, Orientation::Vertical)),
        Ok(vec![rect(0, 0, 0, u64::MAX / 2), rect(0, u64::MAX / 2, 10, u64::MAX / 2)])
    );
}

#[test]
fn bars_are_laid_out_in_their_order() {
    let laid = layout_bars(
        &vec![50, 30, 50, 10],
        100,
        SortMethod::Ascending,
        geometry(10, 3, 200, Orientation::Horizontal),
    );
    assert_eq!(
        laid,
        Ok(vec![
            Bar { index: 3, rect: rect(0, 180, 10, 20) },
            Bar { index: 1, rect: rect(13, 140, 10, 60) },
            Bar { index: 0, rect: rect(26, 100, 10, 100) },
            Bar { index: 2, rect: rect(39, 100, 10, 100) },
        ])
    );
}

#[test]
fn bars_laid_out_without_sorting_in_a_vertical_panel() {
    let laid = layout_bars(
        &vec![50, 30, 150],
        100,
        SortMethod::Unsorted,
        geometry(4, 0, 40, Orientation::Vertical),
    );
    assert_eq!(
        laid,
        Ok(vec![
            Bar { index: 0, rect: rect(0, 0, 20, 4) },
            Bar { index: 1, rect: rect(0, 4, 12, 4) },
            Bar { index: 2, rect: rect(0, 8, 40, 4) },
        ])
    );
}

fn chart(values: Vec<u64>, sorting: SortMethod) -> BarChart {
    let colors = vec![GREY; values.len()];
    BarChart {
        values,
        max: 100,
        colors,
        sorting,
        spacing: Fixed { millis: 3000 },
        bar_aspect_ratio: Fixed { millis: 250 },
    }
}

#[test]
fn chart_geometry_follows_the_short_side_of_the_panel() {
    let bars = chart(vec![50, 100], SortMethod::Unsorted);
    assert_eq!(
        bars.geometry(40, Orientation::Horizontal),
        geometry(10, 3, 40, Orientation::Horizontal)
    );
    assert_eq!(
        bars.geometry(10, Orientation::Vertical),
        geometry(2, 3, 10, Orientation::Vertical)
    );
    let mut wide = chart(vec![1], SortMethod::Unsorted);
    wide.spacing = Fixed { millis: 2500 };
    wide.bar_aspect_ratio = Fixed { millis: 1500 };
    assert_eq!(
        wide.geometry(7, Orientation::Horizontal),
        geometry(10, 3, 7, Orientation::Horizontal)
    );
}

#[test]
fn chart_builds_its_bars() {
    let bars = chart(vec![50, 100], SortMethod::Unsorted);
    assert_eq!(
        bars.build_chart(40, Orientation::Horizontal),
        Ok(vec![
            Bar { index: 0, rect: rect(0, 20, 10, 20) },
            Bar { index: 1, rect: rect(13, 0, 10, 40) },
        ])
    );
    let sorted = chart(vec![50, 100], SortMethod::Descending);
    assert_eq!(
        sorted.build_chart(40, Orientation::Horizontal),
        Ok(vec![
            Bar { index: 1, rect: rect(0, 0, 10, 40) },
            Bar { index: 0, rect: rect(13, 20, 10, 20) },
        ])
    );
}

#[test]
fn row_length_counts_bars_and_gaps() {
    assert_eq!(chart(vec![50, 100], SortMethod::Unsorted).row_length(40, Orientation::Horizontal), Ok(23));
    assert_eq!(chart(vec![50], SortMethod::Unsorted).row_length(40, Orientation::Horizontal), Ok(10));
    assert_eq!(chart(vec![], SortMethod::Unsorted).row_length(40, Orientation::Horizontal), Ok(0));
    assert_eq!(
        chart(vec![1, 2, 3, 4], SortMethod::Ascending).row_length(8, Orientation::Vertical),
        Ok(17)
    );
}

#[test]
fn a_bar_is_no_longer_than_a_full_bar() {
    assert_eq!(
        place_bars(&vec![150, 100], geometry(10, 0, 100, Orientation::Horizontal)),
        Ok(vec![rect(0, 0, 10, 100), rect(10, 0, 10, 100)])
    );
    assert_eq!(
        place_bars(&vec![u32::MAX], geometry(10, 0, 7, Orientation::Vertical)),
        Ok(vec![rect(0, 0, 7, 10)])
    );
}
