//! What the panel shows: the components, their sampling, and their views.

use vstd::prelude::*;
use crate::bar_chart::SortMethod;
use crate::color::Color;
use crate::equal::{equal_elements, same_elements};
use crate::measure::Fixed;

verus! {

/// The version of the stored layout of a `Config`.
pub const CONFIG_VERSION: u64 = 2;

/// The room left around the charts.
#[derive(Clone, Copy, Debug, PartialEq, Eq, Structural)]
pub enum PaddingOption {
    /// As much as the panel suggests.
    Suggested,
    /// So many pixels.
    Custom(Fixed),
}

/// A view of a pair of rates, one coming in and one going out.
#[derive(Clone, Debug)]
pub enum IoView {
    /// Both rates superimposed: the incoming one at the back.
    Run { color_back: Color, color_front: Color, aspect_ratio: Fixed },
    /// The incoming rate alone.
    RunA { color: Color, aspect_ratio: Fixed },
    /// The outgoing rate alone.
    RunB { color: Color, aspect_ratio: Fixed },
}

/// A view of the processor's load.
#[derive(Clone, Debug)]
pub enum CpuView {
    /// The history of the load over all cores.
    GlobalRun { color: Color, aspect_ratio: Fixed },
    /// One bar per core.
    PerCoreBar { color: Color, spacing: Fixed, bar_aspect_ratio: Fixed, sorting: SortMethod },
    /// One bar for the load over all cores.
    GlobalBar { color: Color, aspect_ratio: Fixed },
}

/// A view of a pair of fill levels, such as memory and swap.
#[derive(Clone, Debug)]
pub enum PercentView {
    /// Both histories superimposed: the first at the back.
    Run { color_back: Color, color_front: Color, aspect_ratio: Fixed },
    /// The history of the first level alone.
    RunA { color: Color, aspect_ratio: Fixed },
    /// The history of the second level alone.
    RunB { color: Color, aspect_ratio: Fixed },
    /// One bar for each level.
    Bar { color_back: Color, color_front: Color, spacing: Fixed, bar_aspect_ratio: Fixed },
    /// A bar for the first level alone.
    BarA { color: Color, aspect_ratio: Fixed },
    /// A bar for the second level alone.
    BarB { color: Color, aspect_ratio: Fixed },
}

/// One component of the panel: what it samples, how often, how many samples
/// it retains, and the views that show them, in the order in which they stand.
#[derive(Clone, Debug)]
pub enum ComponentConfig {
    Cpu {
        /// The time between two samples, in milliseconds.
        update_interval: u64,
        /// The number of samples retained and shown.
        sampling_window: usize,
        vis: Vec<CpuView>,
    },
    Mem {
        /// The time between two samples, in milliseconds.
        update_interval: u64,
        /// The number of samples retained and shown.
        sampling_window: usize,
        vis: Vec<PercentView>,
    },
    Net {
        /// The time between two samples, in milliseconds.
        update_interval: u64,
        /// The number of samples retained and shown.
        sampling_window: usize,
        vis: Vec<IoView>,
    },
    Disk {
        /// The time between two samples, in milliseconds.
        update_interval: u64,
        /// The number of samples retained and shown.
        sampling_window: usize,
        vis: Vec<IoView>,
    },
}

/// The whole configuration: the components in the order in which they stand,
/// and the room around and between them, in pixels.
#[derive(Clone, Debug)]
pub struct Config {
    pub padding: PaddingOption,
    pub components: Vec<ComponentConfig>,
    pub component_spacing: Fixed,
    pub component_inner_spacing: Fixed,
}

/// What a component samples.
#[derive(Clone, Copy, Debug, PartialEq, Eq, Structural)]
pub enum Family {
    Cpu,
    Mem,
    Net,
    Disk,
}

impl PartialEq for IoView {
    fn eq(&self, other: &IoView) -> (same: bool) {
        match (self, other) {
            (
                IoView::Run { color_back, color_front, aspect_ratio },
                IoView::Run { color_back: back, color_front: front, aspect_ratio: ratio },
            ) => color_back.eq(back) && color_front.eq(front) && *aspect_ratio == *ratio,
            (
                IoView::RunA { color, aspect_ratio },
                IoView::RunA { color: other_color, aspect_ratio: ratio },
            ) => color.eq(other_color) && *aspect_ratio == *ratio,
            (
                IoView::RunB { color, aspect_ratio },
                IoView::RunB { color: other_color, aspect_ratio: ratio },
            ) => color.eq(other_color) && *aspect_ratio == *ratio,
            _ => false,
        }
    }
}

impl Eq for IoView {

}

impl IoView {
    /// Whether two views are of the same kind with equal fields.
    pub open spec fn same_as(&self, other: &IoView) -> bool {
        match (*self, *other) {
            (
                IoView::Run { color_back, color_front, aspect_ratio },
                IoView::Run { color_back: back, color_front: front, aspect_ratio: ratio },
            ) => color_back.same_as(&back) && color_front.same_as(&front) && aspect_ratio == ratio,
            (
                IoView::RunA { color, aspect_ratio },
                IoView::RunA { color: other_color, aspect_ratio: ratio },
            ) => color.same_as(&other_color) && aspect_ratio == ratio,
            (
                IoView::RunB { color, aspect_ratio },
                IoView::RunB { color: other_color, aspect_ratio: ratio },
            ) => color.same_as(&other_color) && aspect_ratio == ratio,
            _ => false,
        }
    }
}

impl vstd::std_specs::cmp::PartialEqSpecImpl for IoView {
    open spec fn obeys_eq_spec() -> bool {
        true
    }

    open spec fn eq_spec(&self, other: &IoView) -> bool {
        self.same_as(other)
    }
}

impl PartialEq for CpuView {
    fn eq(&self, other: &CpuView) -> (same: bool) {
        match (self, other) {
            (
                CpuView::GlobalRun { color, aspect_ratio },
                CpuView::GlobalRun { color: other_color, aspect_ratio: ratio },
            ) => color.eq(other_color) && *aspect_ratio == *ratio,
            (
                CpuView::PerCoreBar { color, spacing, bar_aspect_ratio, sorting },
                CpuView::PerCoreBar {
                    color: other_color,
                    spacing: other_spacing,
                    bar_aspect_ratio: ratio,
                    sorting: other_sorting,
                },
            ) => color.eq(other_color) && *spacing == *other_spacing && *bar_aspect_ratio == *ratio
                && *sorting == *other_sorting,
            (
                CpuView::GlobalBar { color, aspect_ratio },
                CpuView::GlobalBar { color: other_color, aspect_ratio: ratio },
            ) => color.eq(other_color) && *aspect_ratio == *ratio,
            _ => false,
        }
    }
}

impl Eq for CpuView {

}

impl CpuView {
    /// Whether two views are of the same kind with equal fields.
    pub open spec fn same_as(&self, other: &CpuView) -> bool {
        match (*self, *other) {
            (
                CpuView::GlobalRun { color, aspect_ratio },
                CpuView::GlobalRun { color: other_color, aspect_ratio: ratio },
            ) => color.same_as(&other_color) && aspect_ratio == ratio,
            (
                CpuView::PerCoreBar { color, spacing, bar_aspect_ratio, sorting },
                CpuView::PerCoreBar {
                    color: other_color,
                    spacing: other_spacing,
                    bar_aspect_ratio: ratio,
                    sorting: other_sorting,
                },
            ) => color.same_as(&other_color) && spacing == other_spacing && bar_aspect_ratio
                == ratio && sorting == other_sorting,
            (
                CpuView::GlobalBar { color, aspect_ratio },
                CpuView::GlobalBar { color: other_color, aspect_ratio: ratio },
            ) => color.same_as(&other_color) && aspect_ratio == ratio,
            _ => false,
        }
    }
}

impl vstd::std_specs::cmp::PartialEqSpecImpl for CpuView {
    open spec fn obeys_eq_spec() -> bool {
        true
    }

    open spec fn eq_spec(&self, other: &CpuView) -> bool {
        self.same_as(other)
    }
}

impl PartialEq for PercentView {
    fn eq(&self, other: &PercentView) -> (same: bool) {
        match (self, other) {
            (
                PercentView::Run { color_back, color_front, aspect_ratio },
                PercentView::Run { color_back: back, color_front: front, aspect_ratio: ratio },
            ) => color_back.eq(back) && color_front.eq(front) && *aspect_ratio == *ratio,
            (
                PercentView::RunA { color, aspect_ratio },
                PercentView::RunA { color: other_color, aspect_ratio: ratio },
            ) => color.eq(other_color) && *aspect_ratio == *ratio,
            (
                PercentView::RunB { color, aspect_ratio },
                PercentView::RunB { color: other_color, aspect_ratio: ratio },
            ) => color.eq(other_color) && *aspect_ratio == *ratio,
            (
                PercentView::Bar { color_back, color_front, spacing, bar_aspect_ratio },
                PercentView::Bar {
                    color_back: back,
                    color_front: front,
                    spacing: other_spacing,
                    bar_aspect_ratio: ratio,
                },
            ) => color_back.eq(back) && color_front.eq(front) && *spacing == *other_spacing
                && *bar_aspect_ratio == *ratio,
            (
                PercentView::BarA { color, aspect_ratio },
                PercentView::BarA { color: other_color, aspect_ratio: ratio },
            ) => color.eq(other_color) && *aspect_ratio == *ratio,
            (
                PercentView::BarB { color, aspect_ratio },
                PercentView::BarB { color: other_color, aspect_ratio: ratio },
            ) => color.eq(other_color) && *aspect_ratio == *ratio,
            _ => false,
        }
    }
}

impl Eq for PercentView {

}

impl PercentView {
    /// Whether two views are of the same kind with equal fields.
    pub open spec fn same_as(&self, other: &PercentView) -> bool {
        match (*self, *other) {
            (
                PercentView::Run { color_back, color_front, aspect_ratio },
                PercentView::Run { color_back: back, color_front: front, aspect_ratio: ratio },
            ) => color_back.same_as(&back) && color_front.same_as(&front) && aspect_ratio == ratio,
            (
                PercentView::RunA { color, aspect_ratio },
                PercentView::RunA { color: other_color, aspect_ratio: ratio },
            ) => color.same_as(&other_color) && aspect_ratio == ratio,
            (
                PercentView::RunB { color, aspect_ratio },
                PercentView::RunB { color: other_color, aspect_ratio: ratio },
            ) => color.same_as(&other_color) && aspect_ratio == ratio,
            (
                PercentView::Bar { color_back, color_front, spacing, bar_aspect_ratio },
                PercentView::Bar {
                    color_back: back,
                    color_front: front,
                    spacing: other_spacing,
                    bar_aspect_ratio: ratio,
                },
            ) => color_back.same_as(&back) && color_front.same_as(&front) && spacing
                == other_spacing && bar_aspect_ratio == ratio,
            (
                PercentView::BarA { color, aspect_ratio },
                PercentView::BarA { color: other_color, aspect_ratio: ratio },
            ) => color.same_as(&other_color) && aspect_ratio == ratio,
            (
                PercentView::BarB { color, aspect_ratio },
                PercentView::BarB { color: other_color, aspect_ratio: ratio },
            ) => color.same_as(&other_color) && aspect_ratio == ratio,
            _ => false,
        }
    }
}

impl vstd::std_specs::cmp::PartialEqSpecImpl for PercentView {
    open spec fn obeys_eq_spec() -> bool {
        true
    }

    open spec fn eq_spec(&self, other: &PercentView) -> bool {
        self.same_as(other)
    }
}

impl PartialEq for ComponentConfig {
    fn eq(&self, other: &ComponentConfig) -> (same: bool) {
        match (self, other) {
            (
                ComponentConfig::Cpu { update_interval, sampling_window, vis },
                ComponentConfig::Cpu {
                    update_interval: interval,
                    sampling_window: window,
                    vis: views,
                },
            ) => *update_interval == *interval && *sampling_window == *window && same_elements(
                vis,
                views,
            ),
            (
                ComponentConfig::Mem { update_interval, sampling_window, vis },
                ComponentConfig::Mem {
                    update_interval: interval,
                    sampling_window: window,
                    vis: views,
                },
            ) => *update_interval == *interval && *sampling_window == *window && same_elements(
                vis,
                views,
            ),
            (
                ComponentConfig::Net { update_interval, sampling_window, vis },
                ComponentConfig::Net {
                    update_interval: interval,
                    sampling_window: window,
                    vis: views,
                },
            ) => *update_interval == *interval && *sampling_window == *window && same_elements(
                vis,
                views,
            ),
            (
                ComponentConfig::Disk { update_interval, sampling_window, vis },
                ComponentConfig::Disk {
                    update_interval: interval,
                    sampling_window: window,
                    vis: views,
                },
            ) => *update_interval == *interval && *sampling_window == *window && same_elements(
                vis,
                views,
            ),
            _ => false,
        }
    }
}

impl Eq for ComponentConfig {

}

impl ComponentConfig {
    /// Whether two components sample the same, equally often and long, and have equal views in the same order.
    pub open spec fn same_as(&self, other: &ComponentConfig) -> bool {
        match (*self, *other) {
            (
                ComponentConfig::Cpu { update_interval, sampling_window, vis },
                ComponentConfig::Cpu {
                    update_interval: interval,
                    sampling_window: window,
                    vis: views,
                },
            ) => update_interval == interval && sampling_window == window && equal_elements(
                vis@,
                views@,
            ),
            (
                ComponentConfig::Mem { update_interval, sampling_window, vis },
                ComponentConfig::Mem {
                    update_interval: interval,
                    sampling_window: window,
                    vis: views,
                },
            ) => update_interval == interval && sampling_window == window && equal_elements(
                vis@,
                views@,
            ),
            (
                ComponentConfig::Net { update_interval, sampling_window, vis },
                ComponentConfig::Net {
                    update_interval: interval,
                    sampling_window: window,
                    vis: views,
                },
            ) => update_interval == interval && sampling_window == window && equal_elements(
                vis@,
                views@,
            ),
            (
                ComponentConfig::Disk { update_interval, sampling_window, vis },
                ComponentConfig::Disk {
                    update_interval: interval,
                    sampling_window: window,
                    vis: views,
                },
            ) => update_interval == interval && sampling_window == window && equal_elements(
                vis@,
                views@,
            ),
            _ => false,
        }
    }
}

impl vstd::std_specs::cmp::PartialEqSpecImpl for ComponentConfig {
    open spec fn obeys_eq_spec() -> bool {
        true
    }

    open spec fn eq_spec(&self, other: &ComponentConfig) -> bool {
        self.same_as(other)
    }
}

impl PartialEq for Config {
    fn eq(&self, other: &Config) -> (same: bool) {
        self.padding == other.padding && self.component_spacing == other.component_spacing
            && self.component_inner_spacing == other.component_inner_spacing && same_elements(
            &self.components,
            &other.components,
        )
    }
}

impl Eq for Config {

}

impl Config {
    /// Whether two configurations have equal fields, the components equal one by one.
    pub open spec fn same_as(&self, other: &Config) -> bool {
        &&& self.padding == other.padding
        &&& self.component_spacing == other.component_spacing
        &&& self.component_inner_spacing == other.component_inner_spacing
        &&& equal_elements(self.components@, other.components@)
    }
}

impl vstd::std_specs::cmp::PartialEqSpecImpl for Config {
    open spec fn obeys_eq_spec() -> bool {
        true
    }

    open spec fn eq_spec(&self, other: &Config) -> bool {
        self.same_as(other)
    }
}

impl ComponentConfig {
    /// What the component samples.
    pub open spec fn spec_family(&self) -> Family {
        match self {
            ComponentConfig::Cpu { .. } => Family::Cpu,
            ComponentConfig::Mem { .. } => Family::Mem,
            ComponentConfig::Net { .. } => Family::Net,
            ComponentConfig::Disk { .. } => Family::Disk,
        }
    }

    /// The number of samples that the component retains.
    pub open spec fn spec_sampling_window(&self) -> usize {
        match self {
            ComponentConfig::Cpu { sampling_window, .. } => *sampling_window,
            ComponentConfig::Mem { sampling_window, .. } => *sampling_window,
            ComponentConfig::Net { sampling_window, .. } => *sampling_window,
            ComponentConfig::Disk { sampling_window, .. } => *sampling_window,
        }
    }

    /// The time between two samples, in milliseconds.
    pub open spec fn spec_update_interval(&self) -> u64 {
        match self {
            ComponentConfig::Cpu { update_interval, .. } => *update_interval,
            ComponentConfig::Mem { update_interval, .. } => *update_interval,
            ComponentConfig::Net { update_interval, .. } => *update_interval,
            ComponentConfig::Disk { update_interval, .. } => *update_interval,
        }
    }

    /// The number of views of the component.
    pub open spec fn spec_view_count(&self) -> usize {
        match self {
            ComponentConfig::Cpu { vis, .. } => vis.len(),
            ComponentConfig::Mem { vis, .. } => vis.len(),
            ComponentConfig::Net { vis, .. } => vis.len(),
            ComponentConfig::Disk { vis, .. } => vis.len(),
        }
    }

    /// What the component samples.
    #[verifier::when_used_as_spec(spec_family)]
    pub fn family(&self) -> (family: Family)
        ensures
            family == self.family(),
    {
        match self {
            ComponentConfig::Cpu { .. } => Family::Cpu,
            ComponentConfig::Mem { .. } => Family::Mem,
            ComponentConfig::Net { .. } => Family::Net,
            ComponentConfig::Disk { .. } => Family::Disk,
        }
    }

    /// The number of samples that the component retains.
    #[verifier::when_used_as_spec(spec_sampling_window)]
    pub fn sampling_window(&self) -> (window: usize)
        ensures
            window == self.sampling_window(),
    {
        match self {
            ComponentConfig::Cpu { sampling_window, .. } => *sampling_window,
            ComponentConfig::Mem { sampling_window, .. } => *sampling_window,
            ComponentConfig::Net { sampling_window, .. } => *sampling_window,
            ComponentConfig::Disk { sampling_window, .. } => *sampling_window,
        }
    }

    /// The time between two samples, in milliseconds.
    #[verifier::when_used_as_spec(spec_update_interval)]
    pub fn update_interval(&self) -> (interval: u64)
        ensures
            interval == self.update_interval(),
    {
        match self {
            ComponentConfig::Cpu { update_interval, .. } => *update_interval,
            ComponentConfig::Mem { update_interval, .. } => *update_interval,
            ComponentConfig::Net { update_interval, .. } => *update_interval,
            ComponentConfig::Disk { update_interval, .. } => *update_interval,
        }
    }

    /// The number of views of the component.
    #[verifier::when_used_as_spec(spec_view_count)]
    pub fn view_count(&self) -> (count: usize)
        ensures
            count == self.view_count(),
    {
        match self {
            ComponentConfig::Cpu { vis, .. } => vis.len(),
            ComponentConfig::Mem { vis, .. } => vis.len(),
            ComponentConfig::Net { vis, .. } => vis.len(),
            ComponentConfig::Disk { vis, .. } => vis.len(),
        }
    }
}

/// Whether `component` is the processor component that a fresh configuration
/// holds: a sample each second, sixty retained, shown as the history of the
/// whole load, a bar per core and a bar for the whole load, all in accent blue.
pub open spec fn is_default_cpu(component: ComponentConfig) -> bool {
    &&& component matches ComponentConfig::Cpu { update_interval, sampling_window, vis }
    &&& update_interval == 1000
    &&& sampling_window == 60
    &&& vis@ == seq![
        CpuView::GlobalRun { color: Color::accent_blue, aspect_ratio: Fixed { millis: 3000 } },
        CpuView::PerCoreBar {
            color: Color::accent_blue,
            spacing: Fixed { millis: 3000 },
            bar_aspect_ratio: Fixed { millis: 250 },
            sorting: SortMethod::Unsorted,
        },
        CpuView::GlobalBar { color: Color::accent_blue, aspect_ratio: Fixed { millis: 500 } },
    ]
}

/// Whether `component` is the memory component that a fresh configuration
/// holds: a sample every two seconds, thirty retained, shown as superimposed
/// histories and as a pair of bars, memory in accent green at the back and
/// swap in accent purple at the front.
pub open spec fn is_default_mem(component: ComponentConfig) -> bool {
    &&& component matches ComponentConfig::Mem { update_interval, sampling_window, vis }
    &&& update_interval == 2000
    &&& sampling_window == 30
    &&& vis@ == seq![
        PercentView::Run {
            color_back: Color::accent_green,
            color_front: Color::accent_purple,
            aspect_ratio: Fixed { millis: 2000 },
        },
        PercentView::Bar {
            color_back: Color::accent_green,
            color_front: Color::accent_purple,
            spacing: Fixed { millis: 3000 },
            bar_aspect_ratio: Fixed { millis: 500 },
        },
    ]
}

/// Whether `component` is the network component that a fresh configuration
/// holds: a sample each second, sixty retained, shown as superimposed
/// histories, accent red at the back and accent yellow at the front.
pub open spec fn is_default_net(component: ComponentConfig) -> bool {
    &&& component matches ComponentConfig::Net { update_interval, sampling_window, vis }
    &&& update_interval == 1000
    &&& sampling_window == 60
    &&& vis@ == seq![
        IoView::Run {
            color_back: Color::accent_red,
            color_front: Color::accent_yellow,
            aspect_ratio: Fixed { millis: 1500 },
        },
    ]
}

/// Whether `component` is the disk component that a fresh configuration
/// holds: a sample every two seconds, thirty retained, shown as superimposed
/// histories, accent pink at the back and accent orange at the front.
pub open spec fn is_default_disk(component: ComponentConfig) -> bool {
    &&& component matches ComponentConfig::Disk { update_interval, sampling_window, vis }
    &&& update_interval == 2000
    &&& sampling_window == 30
    &&& vis@ == seq![
        IoView::Run {
            color_back: Color::accent_pink,
            color_front: Color::accent_orange,
            aspect_ratio: Fixed { millis: 1500 },
        },
    ]
}

impl Default for Config {
    /// The configuration of a fresh installation: processor, memory, disk and
    /// network in that order, ten pixels apart, with two and a half pixels
    /// between the views of a component and the padding that the panel suggests.
    fn default() -> (config: Config)
        ensures
            config.padding == PaddingOption::Suggested,
            config.component_spacing == (Fixed { millis: 10000 }),
            config.component_inner_spacing == (Fixed { millis: 2500 }),
            config.components@.len() == 4,
            is_default_cpu(config.components@[0]),
            is_default_mem(config.components@[1]),
            is_default_disk(config.components@[2]),
            is_default_net(config.components@[3]),
    {
        let mut components: Vec<ComponentConfig> = Vec::with_capacity(4);
        components.push(ComponentConfig::default_cpu());
        components.push(ComponentConfig::default_mem());
        components.push(ComponentConfig::default_disk());
        components.push(ComponentConfig::default_net());
        Config {
            padding: PaddingOption::Suggested,
            component_spacing: Fixed { millis: 10000 },
            component_inner_spacing: Fixed { millis: 2500 },
            components,
        }
    }
}

impl ComponentConfig {
    /// The processor component of a fresh configuration.
    pub fn default_cpu() -> (component: ComponentConfig)
        ensures
            is_default_cpu(component),
    {
        let mut vis: Vec<CpuView> = Vec::with_capacity(3);
        vis.push(
            CpuView::GlobalRun { aspect_ratio: Fixed { millis: 3000 }, color: Color::accent_blue },
        );
        vis.push(
            CpuView::PerCoreBar {
                bar_aspect_ratio: Fixed { millis: 250 },
                color: Color::accent_blue,
                spacing: Fixed { millis: 3000 },
                sorting: SortMethod::Unsorted,
            },
        );
        vis.push(
            CpuView::GlobalBar { aspect_ratio: Fixed { millis: 500 }, color: Color::accent_blue },
        );
        let component = ComponentConfig::Cpu { update_interval: 1000, sampling_window: 60, vis };
        assert(is_default_cpu(component)) by {
            assert(vis@ =~= seq![
                CpuView::GlobalRun {
                    color: Color::accent_blue,
                    aspect_ratio: Fixed { millis: 3000 },
                },
                CpuView::PerCoreBar {
                    color: Color::accent_blue,
                    spacing: Fixed { millis: 3000 },
                    bar_aspect_ratio: Fixed { millis: 250 },
                    sorting: SortMethod::Unsorted,
                },
                CpuView::GlobalBar {
                    color: Color::accent_blue,
                    aspect_ratio: Fixed { millis: 500 },
                },
            ]);
        }
        component
    }

    /// The memory component of a fresh configuration.
    pub fn default_mem() -> (component: ComponentConfig)
        ensures
            is_default_mem(component),
    {
        let mut vis: Vec<PercentView> = Vec::with_capacity(2);
        vis.push(
            PercentView::Run {
                color_back: Color::accent_green,
                color_front: Color::accent_purple,
                aspect_ratio: Fixed { millis: 2000 },
            },
        );
        vis.push(
            PercentView::Bar {
                color_back: Color::accent_green,
                color_front: Color::accent_purple,
                bar_aspect_ratio: Fixed { millis: 500 },
                spacing: Fixed { millis: 3000 },
            },
        );
        let component = ComponentConfig::Mem { update_interval: 2000, sampling_window: 30, vis };
        assert(is_default_mem(component)) by {
            assert(vis@ =~= seq![
                PercentView::Run {
                    color_back: Color::accent_green,
                    color_front: Color::accent_purple,
                    aspect_ratio: Fixed { millis: 2000 },
                },
                PercentView::Bar {
                    color_back: Color::accent_green,
                    color_front: Color::accent_purple,
                    spacing: Fixed { millis: 3000 },
                    bar_aspect_ratio: Fixed { millis: 500 },
                },
            ]);
        }
        component
    }

    /// The network component of a fresh configuration.
    pub fn default_net() -> (component: ComponentConfig)
        ensures
            is_default_net(component),
    {
        let mut vis: Vec<IoView> = Vec::with_capacity(1);
        vis.push(
            IoView::Run {
                color_front: Color::accent_yellow,
                color_back: Color::accent_red,
                aspect_ratio: Fixed { millis: 1500 },
            },
        );
        let component = ComponentConfig::Net { update_interval: 1000, sampling_window: 60, vis };
        assert(is_default_net(component)) by {
            assert(vis@ =~= seq![
                IoView::Run {
                    color_back: Color::accent_red,
                    color_front: Color::accent_yellow,
                    aspect_ratio: Fixed { millis: 1500 },
                },
            ]);
        }
        component
    }

    /// The disk component of a fresh configuration.
    pub fn default_disk() -> (component: ComponentConfig)
        ensures
            is_default_disk(component),
    {
        let mut vis: Vec<IoView> = Vec::with_capacity(1);
        vis.push(
            IoView::Run {
                color_front: Color::accent_orange,
                color_back: Color::accent_pink,
                aspect_ratio: Fixed { millis: 1500 },
            },
        );
        let component = ComponentConfig::Disk { update_interval: 2000, sampling_window: 30, vis };
        assert(is_default_disk(component)) by {
            assert(vis@ =~= seq![
                IoView::Run {
                    color_back: Color::accent_pink,
                    color_front: Color::accent_orange,
                    aspect_ratio: Fixed { millis: 1500 },
                },
            ]);
        }
        component
    }
}

} // verus!
