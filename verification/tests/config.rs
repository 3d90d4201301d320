use monitor_charts::bar_chart::SortMethod;
use monitor_charts::color::Color;
use monitor_charts::config::{
    ComponentConfig, Config, CpuView, Family, IoView, PaddingOption, PercentView, CONFIG_VERSION,
};
use monitor_charts::measure::Fixed;

fn fixed(millis: u32) -> Fixed {
    Fixed { millis }
}

#[test]
fn stored_layout_version() {
    assert_eq!(CONFIG_VERSION, 2);
}

#[test]
fn default_cpu_component() {
    let expected = ComponentConfig::Cpu {
        update_interval: 1000,
        sampling_window: 60,
        vis: vec![
            CpuView::GlobalRun { color: Color::accent_blue, aspect_ratio: fixed(3000) },
            CpuView::PerCoreBar {
                color: Color::accent_blue,
                spacing: fixed(3000),
                bar_aspect_ratio: fixed(250),
                sorting: SortMethod::Unsorted,
            },
            CpuView::GlobalBar { color: Color::accent_blue, aspect_ratio: fixed(500) },
        ],
    };
    assert_eq!(ComponentConfig::default_cpu(), expected);
}

#[test]
fn default_mem_component() {
    let expected = ComponentConfig::Mem {
        update_interval: 2000,
        sampling_window: 30,
        vis: vec![
            PercentView::Run {
                color_back: Color::accent_green,
                color_front: Color::accent_purple,
                aspect_ratio: fixed(2000),
            },
            PercentView::Bar {
                color_back: Color::accent_green,
                color_front: Color::accent_purple,
                spacing: fixed(3000),
                bar_aspect_ratio: fixed(500),
            },
        ],
    };
    assert_eq!(ComponentConfig::default_mem(), expected);
}

#[test]
fn default_net_and_disk_components() {
    let net = ComponentConfig::Net {
        update_interval: 1000,
        sampling_window: 60,
        vis: vec![IoView::Run {
            color_back: Color::accent_red,
            color_front: Color::accent_yellow,
            aspect_ratio: fixed(1500),
        }],
    };
    let disk = ComponentConfig::Disk {
        update_interval: 2000,
        sampling_window: 30,
        vis: vec![IoView::Run {
            color_back: Color::accent_pink,
            color_front: Color::accent_orange,
            aspect_ratio: fixed(1500),
        }],
    };
    assert_eq!(ComponentConfig::default_net(), net);
    assert_eq!(ComponentConfig::default_disk(), disk);
    assert_ne!(ComponentConfig::default_net(), ComponentConfig::default_disk());
}

#[test]
fn default_config() {
    let config = Config::default();
    assert_eq!(config.padding, PaddingOption::Suggested);
    assert_eq!(config.component_spacing, fixed(10000));
    assert_eq!(config.component_inner_spacing, fixed(2500));
    assert_eq!(
        config.components,
        vec![
            ComponentConfig::default_cpu(),
            ComponentConfig::default_mem(),
            ComponentConfig::default_disk(),
            ComponentConfig::default_net(),
        ]
    );
    assert_eq!(config, Config::default());
}

#[test]
fn component_accessors() {
    let cpu = ComponentConfig::default_cpu();
    assert_eq!(cpu.family(), Family::Cpu);
    assert_eq!(cpu.sampling_window(), 60);
    assert_eq!(cpu.update_interval(), 1000);
    assert_eq!(cpu.view_count(), 3);
    let mem = ComponentConfig::default_mem();
    assert_eq!(mem.family(), Family::Mem);
    assert_eq!(mem.sampling_window(), 30);
    assert_eq!(mem.update_interval(), 2000);
    assert_eq!(mem.view_count(), 2);
    assert_eq!(ComponentConfig::default_net().family(), Family::Net);
    assert_eq!(ComponentConfig::default_net().view_count(), 1);
    assert_eq!(ComponentConfig::default_disk().family(), Family::Disk);
    assert_eq!(ComponentConfig::default_disk().sampling_window(), 30);
}

#[test]
fn colours_are_equal_by_name_or_text() {
    assert_eq!(Color::gray_1, Color::gray_1);
    assert_ne!(Color::gray_1, Color::gray_2);
    assert_ne!(Color::accent_blue, Color::ext_blue);
    assert_eq!(Color::rgb(String::from("#fff")), Color::rgb(String::from("#fff")));
    assert_ne!(Color::rgb(String::from("#fff")), Color::rgb(String::from("#FFF")));
    assert_ne!(Color::rgb(String::from("gray_1")), Color::gray_1);
    assert_ne!(Color::accent_indigo, Color::rgb(String::new()));
}

#[test]
fn views_are_equal_field_by_field() {
    let run = IoView::Run {
        color_back: Color::accent_red,
        color_front: Color::rgb(String::from("#11223344")),
        aspect_ratio: fixed(1500),
    };
    assert_eq!(run, run.clone());
    assert_ne!(
        run,
        IoView::Run {
            color_back: Color::accent_red,
            color_front: Color::rgb(String::from("#11223345")),
            aspect_ratio: fixed(1500),
        }
    );
    assert_ne!(
        run,
        IoView::Run {
            color_back: Color::accent_red,
            color_front: Color::rgb(String::from("#11223344")),
            aspect_ratio: fixed(1501),
        }
    );
    assert_ne!(
        IoView::RunA { color: Color::accent_red, aspect_ratio: fixed(1500) },
        IoView::RunB { color: Color::accent_red, aspect_ratio: fixed(1500) }
    );
    assert_ne!(
        CpuView::GlobalRun { color: Color::accent_red, aspect_ratio: fixed(1500) },
        CpuView::GlobalBar { color: Color::accent_red, aspect_ratio: fixed(1500) }
    );
    let per_core = CpuView::PerCoreBar {
        color: Color::neutral_5,
        spacing: fixed(1000),
        bar_aspect_ratio: fixed(250),
        sorting: SortMethod::Ascending,
    };
    assert_eq!(per_core, per_core.clone());
    assert_ne!(
        per_core,
        CpuView::PerCoreBar {
            color: Color::neutral_5,
            spacing: fixed(1000),
            bar_aspect_ratio: fixed(250),
            sorting: SortMethod::Descending,
        }
    );
    assert_ne!(
        PercentView::BarA { color: Color::neutral_5, aspect_ratio: fixed(1) },
        PercentView::BarB { color: Color::neutral_5, aspect_ratio: fixed(1) }
    );
    assert_ne!(
        PercentView::RunA { color: Color::neutral_5, aspect_ratio: fixed(1) },
        PercentView::RunA { color: Color::neutral_6, aspect_ratio: fixed(1) }
    );
    let bar = PercentView::Bar {
        color_back: Color::neutral_5,
        color_front: Color::neutral_6,
        spacing: fixed(3),
        bar_aspect_ratio: fixed(4),
    };
    assert_eq!(bar, bar.clone());
    assert_ne!(
        bar,
        PercentView::Bar {
            color_back: Color::neutral_5,
            color_front: Color::neutral_6,
            spacing: fixed(4),
            bar_aspect_ratio: fixed(4),
        }
    );
}

#[test]
fn components_differ_by_family_sampling_or_views() {
    let net = ComponentConfig::default_net();
    let as_disk = ComponentConfig::Disk {
        update_interval: 1000,
        sampling_window: 60,
        vis: vec![IoView::Run {
            color_back: Color::accent_red,
            color_front: Color::accent_yellow,
            aspect_ratio: fixed(1500),
        }],
    };
    assert_ne!(net, as_disk);
    let slower = ComponentConfig::Net {
        update_interval: 1001,
        sampling_window: 60,
        vis: vec![IoView::Run {
            color_back: Color::accent_red,
            color_front: Color::accent_yellow,
            aspect_ratio: fixed(1500),
        }],
    };
    assert_ne!(net, slower);
    let fewer = ComponentConfig::Net { update_interval: 1000, sampling_window: 60, vis: vec![] };
    assert_ne!(net, fewer);
    let reordered = ComponentConfig::Mem {
        update_interval: 2000,
        sampling_window: 30,
        vis: vec![
            PercentView::Bar {
                color_back: Color::accent_green,
                color_front: Color::accent_purple,
                spacing: fixed(3000),
                bar_aspect_ratio: fixed(500),
            },
            PercentView::Run {
                color_back: Color::accent_green,
                color_front: Color::accent_purple,
                aspect_ratio: fixed(2000),
            },
        ],
    };
    assert_ne!(ComponentConfig::default_mem(), reordered);
}

#[test]
fn configs_differ_by_any_field() {
    let base = Config::default();
    let mut padded = Config::default();
    padded.padding = PaddingOption::Custom(fixed(4000));
    assert_ne!(base, padded);
    let mut spaced = Config::default();
    spaced.component_spacing = fixed(10001);
    assert_ne!(base, spaced);
    let mut inner = Config::default();
    inner.component_inner_spacing = fixed(0);
    assert_ne!(base, inner);
    let mut shorter = Config::default();
    shorter.components.pop();
    assert_ne!(base, shorter);
    let mut swapped = Config::default();
    swapped.components.swap(2, 3);
    assert_ne!(base, swapped);
    assert_eq!(base, base.clone());
}
