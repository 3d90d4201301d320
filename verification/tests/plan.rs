use monitor_charts::bar_chart::{Bar, Orientation, Rect, SortMethod};
use monitor_charts::color::{Color, Palette, Rgba};
use monitor_charts::config::{CpuView, IoView, PercentView};
use monitor_charts::history::SampleHistory;
use monitor_charts::measure::Fixed;
use monitor_charts::plan::{
    resolve_cpu, resolve_io, resolve_percent, Drawing, RenderPlan, Size, PERCENT_MAX,
};
use monitor_charts::run_chart::{ChartError, LayerKind};

const BASE: Rgba = Rgba { red: 1, green: 2, blue: 3, alpha: 255 };
const ACCENT: Rgba = Rgba { red: 99, green: 208, blue: 223, alpha: 255 };
const GREEN: Rgba = Rgba { red: 0, green: 200, blue: 0, alpha: 255 };
const PURPLE: Rgba = Rgba { red: 150, green: 0, blue: 150, alpha: 255 };

fn theme() -> Palette {
    let mut palette = Palette::uniform(BASE);
    palette.accent = ACCENT;
    palette.accent_green = GREEN;
    palette.accent_purple = PURPLE;
    palette
}

fn filled(capacity: usize, values: &[u64]) -> SampleHistory<u64> {
    let mut history = SampleHistory::new(capacity);
    history.extend(values);
    history
}

fn fixed(millis: u32) -> Fixed {
    Fixed { millis }
}

#[test]
fn percent_scale_ends_at_a_hundred() {
    assert_eq!(PERCENT_MAX, 100);
}

#[test]
fn cpu_run_is_drawn_on_the_percent_scale() {
    let usage = filled(4, &[10, 250, 30]);
    let view = CpuView::GlobalRun { color: Color::accent_green, aspect_ratio: fixed(3000) };
    match resolve_cpu(&view, &usage, &vec![1, 2], &theme()) {
        RenderPlan::Run { chart, aspect_ratio } => {
            assert_eq!(chart.max, 100);
            assert_eq!(chart.color, GREEN);
            assert_eq!(chart.history.ascending_iter(), vec![10, 250, 30]);
            assert_eq!(aspect_ratio, fixed(3000));
        }
        other => panic!("unexpected plan {:?}", other),
    }
}

#[test]
fn per_core_bars_take_the_present_loads() {
    let usage = filled(4, &[10]);
    let view = CpuView::PerCoreBar {
        color: Color::rgb(String::from("#10203040")),
        spacing: fixed(3000),
        bar_aspect_ratio: fixed(250),
        sorting: SortMethod::Descending,
    };
    match resolve_cpu(&view, &usage, &vec![50, 30, 50, 10], &theme()) {
        RenderPlan::Bars { bars } => {
            assert_eq!(bars.values, vec![50, 30, 50, 10]);
            assert_eq!(bars.max, 100);
            assert_eq!(bars.colors, vec![Rgba { red: 16, green: 32, blue: 48, alpha: 64 }; 4]);
            assert_eq!(bars.sorting, SortMethod::Descending);
            assert_eq!(bars.spacing, fixed(3000));
            assert_eq!(bars.bar_aspect_ratio, fixed(250));
        }
        other => panic!("unexpected plan {:?}", other),
    }
}

#[test]
fn per_core_bars_without_cores() {
    let usage = filled(4, &[10]);
    let view = CpuView::PerCoreBar {
        color: Color::accent_green,
        spacing: fixed(3000),
        bar_aspect_ratio: fixed(250),
        sorting: SortMethod::Unsorted,
    };
    match resolve_cpu(&view, &usage, &vec![], &theme()) {
        RenderPlan::Bars { bars } => {
            assert_eq!(bars.values, Vec::<u64>::new());
            assert_eq!(bars.colors, Vec::<Rgba>::new());
        }
        other => panic!("unexpected plan {:?}", other),
    }
}

#[test]
fn global_bar_shows_the_newest_load() {
    let view = CpuView::GlobalBar { color: Color::rgb(String::from("bad")), aspect_ratio: fixed(500) };
    let usage = filled(2, &[10, 20, 35]);
    match resolve_cpu(&view, &usage, &vec![1, 2], &theme()) {
        RenderPlan::Bars { bars } => {
            assert_eq!(bars.values, vec![35]);
            assert_eq!(bars.max, 100);
            assert_eq!(bars.colors, vec![ACCENT]);
            assert_eq!(bars.sorting, SortMethod::Unsorted);
            assert_eq!(bars.spacing, fixed(0));
            assert_eq!(bars.bar_aspect_ratio, fixed(500));
        }
        other => panic!("unexpected plan {:?}", other),
    }
    let none = filled(2, &[]);
    match resolve_cpu(&view, &none, &vec![1, 2], &theme()) {
        RenderPlan::Bars { bars } => assert_eq!(bars.values, vec![0]),
        other => panic!("unexpected plan {:?}", other),
    }
}

#[test]
fn percent_run_superimposes_both_histories() {
    let ram = filled(3, &[40, 50, 60]);
    let swap = filled(3, &[1, 2, 3]);
    let view = PercentView::Run {
        color_back: Color::accent_green,
        color_front: Color::accent_purple,
        aspect_ratio: fixed(2000),
    };
    match resolve_percent(&view, &ram, &swap, &theme()) {
        Ok(RenderPlan::Superimposed { charts, aspect_ratio }) => {
            assert_eq!(charts.back.history.ascending_iter(), vec![40, 50, 60]);
            assert_eq!(charts.back.max, 100);
            assert_eq!(charts.back.color, GREEN);
            assert_eq!(charts.front.history.ascending_iter(), vec![1, 2, 3]);
            assert_eq!(charts.front.max, 100);
            assert_eq!(charts.front.color, PURPLE);
            assert_eq!(aspect_ratio, fixed(2000));
        }
        other => panic!("unexpected plan {:?}", other),
    }
}

#[test]
fn overlay_of_unequal_histories_is_refused_when_planned() {
    let ram = filled(3, &[40, 50]);
    let swap = filled(3, &[1]);
    let percent = PercentView::Run {
        color_back: Color::accent_green,
        color_front: Color::accent_purple,
        aspect_ratio: fixed(2000),
    };
    assert!(matches!(
        resolve_percent(&percent, &ram, &swap, &theme()),
        Err(ChartError::LengthMismatch { back: 2, front: 1 })
    ));
    let io = IoView::Run {
        color_back: Color::accent_green,
        color_front: Color::accent_purple,
        aspect_ratio: fixed(2000),
    };
    assert!(matches!(
        resolve_io(&io, &swap, &ram, &theme()),
        Err(ChartError::LengthMismatch { back: 1, front: 2 })
    ));
}

#[test]
fn single_views_do_not_need_equal_histories() {
    let ram = filled(3, &[40, 50]);
    let swap = filled(3, &[1]);
    let first = PercentView::RunA { color: Color::accent_green, aspect_ratio: fixed(2000) };
    let second = PercentView::RunB { color: Color::accent_purple, aspect_ratio: fixed(1000) };
    match resolve_percent(&first, &ram, &swap, &theme()) {
        Ok(RenderPlan::Run { chart, aspect_ratio }) => {
            assert_eq!(chart.history.ascending_iter(), vec![40, 50]);
            assert_eq!(chart.max, 100);
            assert_eq!(chart.color, GREEN);
            assert_eq!(aspect_ratio, fixed(2000));
        }
        other => panic!("unexpected plan {:?}", other),
    }
    match resolve_percent(&second, &ram, &swap, &theme()) {
        Ok(RenderPlan::Run { chart, aspect_ratio }) => {
            assert_eq!(chart.history.ascending_iter(), vec![1]);
            assert_eq!(chart.color, PURPLE);
            assert_eq!(aspect_ratio, fixed(1000));
        }
        other => panic!("unexpected plan {:?}", other),
    }
}

#[test]
fn percent_bars_show_the_newest_levels() {
    let ram = filled(3, &[40, 50]);
    let swap = filled(3, &[]);
    let pair = PercentView::Bar {
        color_back: Color::accent_green,
        color_front: Color::accent_purple,
        spacing: fixed(3000),
        bar_aspect_ratio: fixed(500),
    };
    match resolve_percent(&pair, &ram, &swap, &theme()) {
        Ok(RenderPlan::Bars { bars }) => {
            assert_eq!(bars.values, vec![50, 0]);
            assert_eq!(bars.max, 100);
            assert_eq!(bars.colors, vec![GREEN, PURPLE]);
            assert_eq!(bars.sorting, SortMethod::Unsorted);
            assert_eq!(bars.spacing, fixed(3000));
            assert_eq!(bars.bar_aspect_ratio, fixed(500));
        }
        other => panic!("unexpected plan {:?}", other),
    }
    let first = PercentView::BarA { color: Color::accent_green, aspect_ratio: fixed(700) };
    match resolve_percent(&first, &ram, &swap, &theme()) {
        Ok(RenderPlan::Bars { bars }) => {
            assert_eq!(bars.values, vec![50]);
            assert_eq!(bars.colors, vec![GREEN]);
            assert_eq!(bars.bar_aspect_ratio, fixed(700));
            assert_eq!(bars.spacing, fixed(0));
        }
        other => panic!("unexpected plan {:?}", other),
    }
    let second = PercentView::BarB { color: Color::accent_purple, aspect_ratio: fixed(700) };
    match resolve_percent(&second, &ram, &swap, &theme()) {
        Ok(RenderPlan::Bars { bars }) => {
            assert_eq!(bars.values, vec![0]);
            assert_eq!(bars.colors, vec![PURPLE]);
        }
        other => panic!("unexpected plan {:?}", other),
    }
}

#[test]
fn rates_are_drawn_on_scales_of_their_own() {
    let received = filled(3, &[4000, 9000, 100]);
    let sent = filled(3, &[7, 3, 5]);
    let view = IoView::Run {
        color_back: Color::accent_green,
        color_front: Color::accent_purple,
        aspect_ratio: fixed(1500),
    };
    match resolve_io(&view, &received, &sent, &theme()) {
        Ok(RenderPlan::Superimposed { charts, aspect_ratio }) => {
            assert_eq!(charts.back.max, 9000);
            assert_eq!(charts.back.color, GREEN);
            assert_eq!(charts.front.max, 7);
            assert_eq!(charts.front.color, PURPLE);
            assert_eq!(aspect_ratio, fixed(1500));
        }
        other => panic!("unexpected plan {:?}", other),
    }
    let incoming = IoView::RunA { color: Color::accent_green, aspect_ratio: fixed(1500) };
    match resolve_io(&incoming, &received, &sent, &theme()) {
        Ok(RenderPlan::Run { chart, .. }) => {
            assert_eq!(chart.max, 9000);
            assert_eq!(chart.history.ascending_iter(), vec![4000, 9000, 100]);
        }
        other => panic!("unexpected plan {:?}", other),
    }
    let outgoing = IoView::RunB { color: Color::accent_purple, aspect_ratio: fixed(1500) };
    match resolve_io(&outgoing, &received, &sent, &theme()) {
        Ok(RenderPlan::Run { chart, .. }) => {
            assert_eq!(chart.max, 7);
            assert_eq!(chart.color, PURPLE);
        }
        other => panic!("unexpected plan {:?}", other),
    }
}

#[test]
fn run_chart_keeps_its_ratio() {
    let usage = filled(4, &[10]);
    let view = CpuView::GlobalRun { color: Color::accent_green, aspect_ratio: fixed(3000) };
    let plan = resolve_cpu(&view, &usage, &vec![], &theme());
    assert_eq!(plan.size(20, Orientation::Horizontal), Ok(Size { width: 60, height: 20 }));
    assert_eq!(plan.size(20, Orientation::Vertical), Ok(Size { width: 20, height: 6 }));
    assert_eq!(plan.size(0, Orientation::Horizontal), Ok(Size { width: 0, height: 0 }));
}

#[test]
fn row_of_bars_runs_along_the_panel() {
    let usage = filled(4, &[10]);
    let view = CpuView::PerCoreBar {
        color: Color::accent_green,
        spacing: fixed(3000),
        bar_aspect_ratio: fixed(250),
        sorting: SortMethod::Unsorted,
    };
    let plan = resolve_cpu(&view, &usage, &vec![50, 100], &theme());
    assert_eq!(plan.size(40, Orientation::Horizontal), Ok(Size { width: 23, height: 40 }));
    assert_eq!(plan.size(40, Orientation::Vertical), Ok(Size { width: 40, height: 23 }));
}

#[test]
fn drawing_of_a_run_chart() {
    let usage = filled(4, &[10, 20]);
    let view = CpuView::GlobalRun { color: Color::accent_green, aspect_ratio: fixed(3000) };
    let plan = resolve_cpu(&view, &usage, &vec![], &theme());
    match plan.draw(20, Orientation::Horizontal) {
        Ok(Drawing::Layers { size, layers }) => {
            assert_eq!(size, Size { width: 60, height: 20 });
            assert_eq!(layers.len(), 2);
            assert_eq!(layers[0].kind, LayerKind::Area);
            assert_eq!(layers[0].opacity_percent, 50);
            assert_eq!(layers[1].kind, LayerKind::Line);
            assert_eq!(layers[1].stroke_width, 1);
            assert_eq!(layers[1].points, vec![(0, 10), (1, 20)]);
            assert_eq!(layers[1].y_end, 100);
            assert_eq!(layers[1].x_end, 2);
        }
        other => panic!("unexpected drawing {:?}", other),
    }
    assert!(matches!(plan.draw(0, Orientation::Horizontal), Err(ChartError::EmptySurface)));
}

#[test]
fn drawing_of_superimposed_charts() {
    let ram = filled(3, &[40, 50, 60]);
    let swap = filled(3, &[1, 2, 3]);
    let view = PercentView::Run {
        color_back: Color::accent_green,
        color_front: Color::accent_purple,
        aspect_ratio: fixed(2000),
    };
    let plan = resolve_percent(&view, &ram, &swap, &theme()).unwrap();
    match plan.draw(10, Orientation::Vertical) {
        Ok(Drawing::Layers { size, layers }) => {
            assert_eq!(size, Size { width: 10, height: 5 });
            let kinds: Vec<LayerKind> = layers.iter().map(|layer| layer.kind).collect();
            assert_eq!(
                kinds,
                vec![LayerKind::Area, LayerKind::Area, LayerKind::Line, LayerKind::Line]
            );
            let colors: Vec<Rgba> = layers.iter().map(|layer| layer.color).collect();
            assert_eq!(colors, vec![GREEN, PURPLE, GREEN, PURPLE]);
        }
        other => panic!("unexpected drawing {:?}", other),
    }
}

#[test]
fn drawing_of_bars() {
    let usage = filled(4, &[10]);
    let view = CpuView::PerCoreBar {
        color: Color::accent_green,
        spacing: fixed(3000),
        bar_aspect_ratio: fixed(250),
        sorting: SortMethod::Ascending,
    };
    let plan = resolve_cpu(&view, &usage, &vec![100, 50], &theme());
    match plan.draw(40, Orientation::Horizontal) {
        Ok(Drawing::Bars { size, bars }) => {
            assert_eq!(size, Size { width: 23, height: 40 });
            assert_eq!(
                bars,
                vec![
                    Bar { index: 1, rect: Rect { x: 0, y: 20, width: 10, height: 20 } },
                    Bar { index: 0, rect: Rect { x: 13, y: 0, width: 10, height: 40 } },
                ]
            );
        }
        other => panic!("unexpected drawing {:?}", other),
    }
    assert!(matches!(plan.draw(0, Orientation::Horizontal), Err(ChartError::EmptySurface)));
    let empty = resolve_cpu(&view, &usage, &vec![], &theme());
    assert!(matches!(empty.draw(40, Orientation::Horizontal), Err(ChartError::EmptySurface)));
}

#[test]
fn drawing_of_a_hand_made_overlay_checks_the_lengths() {
    let ram = filled(3, &[40, 50, 60]);
    let swap = filled(3, &[1]);
    let plan = RenderPlan::Superimposed {
        charts: monitor_charts::run_chart::SuperimposedHistoryChart {
            back: monitor_charts::run_chart::HistoryChart::auto_max(&ram, GREEN),
            front: monitor_charts::run_chart::HistoryChart::auto_max(&swap, PURPLE),
        },
        aspect_ratio: fixed(2000),
    };
    assert!(matches!(
        plan.draw(10, Orientation::Horizontal),
        Err(ChartError::LengthMismatch { back: 3, front: 1 })
    ));
    assert!(matches!(
        plan.draw(0, Orientation::Horizontal),
        Err(ChartError::LengthMismatch { back: 3, front: 1 })
    ));
}
