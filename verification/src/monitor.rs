//! The samples behind the panel: what each tick records, and what a change
//! of configuration keeps.

use vstd::prelude::*;
use crate::color::Palette;
use crate::config::{ComponentConfig, Config, Family};
use crate::history::{pushed, SampleHistory};
use crate::plan::{
    cpu_plan,
    io_plan,
    percent_plan,
    plan_is,
    resolve_cpu,
    resolve_io,
    resolve_percent,
    PlanView,
    RenderPlan,
    PERCENT_MAX,
};
use crate::run_chart::ChartError;

verus! {

/// What reaches the monitor: a configuration as it was loaded or changed, or
/// the tick of one of the timers.
#[derive(Clone, Debug)]
pub enum Message {
    Config(Config),
    TickCpu,
    TickRam,
    TickSwap,
    TickNet,
    TickDisk,
}

/// What a tick asks to be measured.
#[derive(Clone, Copy, Debug, PartialEq, Eq, Structural)]
pub enum Metric {
    Cpu,
    Ram,
    Swap,
    Net,
    Disk,
}

/// A timer that the panel runs: every `interval` milliseconds it asks for
/// `metric` to be measured.
#[derive(Clone, Copy, Debug, PartialEq, Eq, Structural)]
pub struct Timer {
    pub interval: u64,
    pub metric: Metric,
}

/// What is to be done after a message.
#[derive(Clone, Copy, Debug, PartialEq, Eq, Structural)]
pub enum Action {
    /// Nothing: the configuration received is the one in force.
    Idle,
    /// The configuration was replaced; what was built from the old one is stale.
    Reconfigured,
    /// The metric is to be measured and the measurement handed to the monitor.
    Poll(Metric),
}

/// The samples of one component.
///
/// A processor component keeps the history of the whole load in `first` and
/// the present load of each core in `levels`. The others keep a pair of
/// histories: memory and swap, received and sent, read and written.
#[derive(Debug)]
pub struct Series {
    pub family: Family,
    pub first: SampleHistory<u64>,
    pub second: SampleHistory<u64>,
    pub levels: Vec<u64>,
}

/// The samples of one component as sequences, with the capacities of its histories.
#[verifier::ext_equal]
pub struct SeriesView {
    pub family: Family,
    pub first: Seq<u64>,
    pub first_capacity: usize,
    pub second: Seq<u64>,
    pub second_capacity: usize,
    pub levels: Seq<u64>,
}

impl View for Series {
    type V = SeriesView;

    open spec fn view(&self) -> SeriesView {
        SeriesView {
            family: self.family,
            first: self.first@,
            first_capacity: self.first.capacity(),
            second: self.second@,
            second_capacity: self.second.capacity(),
            levels: self.levels@,
        }
    }
}

/// A measurement, as the metric source gave it.
#[derive(Clone, Debug, PartialEq, Eq)]
pub enum Reading {
    /// The load over all cores and of each core, in percent.
    Cpu { usage: u64, cores: Vec<u64> },
    /// Memory in use and in all, in bytes.
    Ram { used: u64, total: u64 },
    /// Swap in use and in all, in bytes.
    Swap { used: u64, total: u64 },
    /// Bytes received and sent since the last measurement.
    Net { received: u64, sent: u64 },
    /// Bytes read and written since the last measurement.
    Disk { read: u64, written: u64 },
}

/// The number of samples that a history retains for a configured window: the
/// window, and one where the window is zero.
pub open spec fn window_capacity(window: usize) -> usize {
    if window == 0 {
        1
    } else {
        window
    }
}

/// The samples of a component that has not been sampled yet.
pub open spec fn fresh_series(component: ComponentConfig) -> SeriesView {
    SeriesView {
        family: component.family(),
        first: Seq::empty(),
        first_capacity: window_capacity(component.sampling_window()),
        second: Seq::empty(),
        second_capacity: window_capacity(component.sampling_window()),
        levels: Seq::empty(),
    }
}

/// Whether samples were taken for a component of this family and window.
pub open spec fn fits(series: SeriesView, component: ComponentConfig) -> bool {
    &&& series.family == component.family()
    &&& series.first_capacity == window_capacity(component.sampling_window())
    &&& series.second_capacity == window_capacity(component.sampling_window())
}

/// Whether the component at `place` of `config` retains as many samples as
/// the configuration before it asked for at that place: `before` has a
/// component there, and its window is the same number. Windows of zero and of
/// one are different windows, though both retain one sample.
pub open spec fn same_window(before: Config, config: Config, place: int) -> bool {
    &&& 0 <= place < before.components@.len()
    &&& before.components@[place].sampling_window()
        == config.components@[place].sampling_window()
}

/// The samples of a component after `config` takes the place of `before`:
/// unchanged where the configured window at its place is unchanged and the
/// samples held there were taken for a component of the same family and
/// window, and fresh otherwise.
pub open spec fn reloaded(
    held: Seq<SeriesView>,
    before: Config,
    config: Config,
    place: int,
) -> SeriesView {
    if place < held.len() && same_window(before, config, place) && fits(
        held[place],
        config.components@[place],
    ) {
        held[place]
    } else {
        fresh_series(config.components@[place])
    }
}

/// A change of configuration keeps the samples of a component whose window
/// is unchanged, where they were taken for its family and window. It gives
/// every component whose window has changed an empty history of the capacity
/// that its new window asks for, whatever the two windows are.
pub proof fn lemma_reload_keeps_or_resets(
    held: Seq<SeriesView>,
    before: Config,
    config: Config,
    place: int,
)
    requires
        0 <= place < config.components@.len(),
    ensures
        place < held.len() && same_window(before, config, place) && fits(
            held[place],
            config.components@[place],
        ) ==> reloaded(held, before, config, place) == held[place],
        !same_window(before, config, place) ==> {
            let after = reloaded(held, before, config, place);
            &&& after == fresh_series(config.components@[place])
            &&& after.first.len() == 0
            &&& after.second.len() == 0
            &&& after.levels.len() == 0
            &&& after.first_capacity == window_capacity(
                config.components@[place].sampling_window(),
            )
            &&& after.second_capacity == after.first_capacity
        },
{
}

/// A change to a configuration whose components sample as before resets
/// nothing: where every component keeps its family and its window, samples
/// that are in step with the old components keep every history.
pub proof fn lemma_reload_in_step_keeps_all(held: Seq<SeriesView>, before: Config, config: Config)
    requires
        held.len() == before.components@.len(),
        held.len() == config.components@.len(),
        forall|place: int|
            0 <= place < held.len() ==> fits(#[trigger] held[place], before.components@[place]),
        forall|place: int|
            #![trigger config.components@[place]]
            0 <= place < held.len() ==> before.components@[place].family()
                == config.components@[place].family() && same_window(before, config, place),
    ensures
        forall|place: int|
            0 <= place < held.len() ==> reloaded(held, before, config, place)
                == #[trigger] held[place],
{
    assert forall|place: int| 0 <= place < held.len() implies reloaded(
        held,
        before,
        config,
        place,
    ) == #[trigger] held[place] by {
        let component = config.components@[place];
        assert(fits(held[place], before.components@[place]));
        assert(fits(held[place], component));
    }
}

/// `used` as a share of `total` in percent, rounded down: zero of nothing,
/// and a hundred where more is in use than there is.
pub open spec fn percent_of(used: u64, total: u64) -> u64 {
    if total == 0 {
        0
    } else if used >= total {
        PERCENT_MAX
    } else {
        ((used as int * 100) / (total as int)) as u64
    }
}

/// What a reading adds to the first history of a component of its family.
pub open spec fn first_sample(reading: Reading) -> Option<u64> {
    match reading {
        Reading::Cpu { usage, .. } => Some(usage),
        Reading::Ram { used, total } => Some(percent_of(used, total)),
        Reading::Swap { .. } => None,
        Reading::Net { received, .. } => Some(received),
        Reading::Disk { read, .. } => Some(read),
    }
}

/// What a reading adds to the second history of a component of its family.
pub open spec fn second_sample(reading: Reading) -> Option<u64> {
    match reading {
        Reading::Cpu { .. } => None,
        Reading::Ram { .. } => None,
        Reading::Swap { used, total } => Some(percent_of(used, total)),
        Reading::Net { sent, .. } => Some(sent),
        Reading::Disk { written, .. } => Some(written),
    }
}

/// The family of the components that a reading is for.
pub open spec fn family_of(reading: Reading) -> Family {
    match reading {
        Reading::Cpu { .. } => Family::Cpu,
        Reading::Ram { .. } => Family::Mem,
        Reading::Swap { .. } => Family::Mem,
        Reading::Net { .. } => Family::Net,
        Reading::Disk { .. } => Family::Disk,
    }
}

/// The samples of a component after a reading: those of another family are
/// unchanged; those of the reading's family have its samples pushed, and the
/// levels replaced where the reading brings levels.
pub open spec fn recorded(before: SeriesView, reading: Reading) -> SeriesView {
    if before.family != family_of(reading) {
        before
    } else {
        SeriesView {
            family: before.family,
            first: match first_sample(reading) {
                Some(sample) => pushed(before.first, before.first_capacity as nat, sample),
                None => before.first,
            },
            first_capacity: before.first_capacity,
            second: match second_sample(reading) {
                Some(sample) => pushed(before.second, before.second_capacity as nat, sample),
                None => before.second,
            },
            second_capacity: before.second_capacity,
            levels: match reading {
                Reading::Cpu { cores, .. } => cores@,
                _ => before.levels,
            },
        }
    }
}

/// The metric that a tick asks for, if the message is a tick.
pub open spec fn metric_of(message: Message) -> Option<Metric> {
    match message {
        Message::Config(_) => None,
        Message::TickCpu => Some(Metric::Cpu),
        Message::TickRam => Some(Metric::Ram),
        Message::TickSwap => Some(Metric::Swap),
        Message::TickNet => Some(Metric::Net),
        Message::TickDisk => Some(Metric::Disk),
    }
}

/// The timers of one component: one for each metric that it samples, all at
/// the interval of the component. Memory and swap are sampled apart.
pub open spec fn component_timers(component: ComponentConfig) -> Seq<Timer> {
    let interval = component.update_interval();
    match component.family() {
        Family::Cpu => seq![Timer { interval, metric: Metric::Cpu }],
        Family::Mem => seq![
            Timer { interval, metric: Metric::Ram },
            Timer { interval, metric: Metric::Swap },
        ],
        Family::Net => seq![Timer { interval, metric: Metric::Net }],
        Family::Disk => seq![Timer { interval, metric: Metric::Disk }],
    }
}

/// The timers of the first `count` components of `config`, component after component.
pub open spec fn timers_of(config: Config, count: nat) -> Seq<Timer>
    decreases count,
{
    if count == 0 {
        Seq::empty()
    } else {
        timers_of(config, (count - 1) as nat) + component_timers(config.components@[count - 1])
    }
}

/// The timers that `config` asks for, in the order of its components.
pub fn subscription(config: &Config) -> (timers: Vec<Timer>)
    ensures
        timers@ == timers_of(*config, config.components@.len()),
{
    let mut timers: Vec<Timer> = Vec::new();
    let mut place: usize = 0;
    while place < config.components.len()
        invariant
            place <= config.components@.len(),
            timers@ == timers_of(*config, place as nat),
        decreases config.components@.len() - place,
    {
        let component = &config.components[place];
        let interval: u64 = component.update_interval();
        let ghost before = timers@;
        match component.family() {
            Family::Cpu => {
                timers.push(Timer { interval, metric: Metric::Cpu });
            },
            Family::Mem => {
                timers.push(Timer { interval, metric: Metric::Ram });
                timers.push(Timer { interval, metric: Metric::Swap });
            },
            Family::Net => {
                timers.push(Timer { interval, metric: Metric::Net });
            },
            Family::Disk => {
                timers.push(Timer { interval, metric: Metric::Disk });
            },
        }
        assert(timers@ =~= before + component_timers(*component));
        place += 1;
    }
    timers
}

impl Metric {
    /// The message that the tick of a timer for this metric sends.
    pub fn tick(self) -> (message: Message)
        ensures
            metric_of(message) == Some(self),
    {
        match self {
            Metric::Cpu => Message::TickCpu,
            Metric::Ram => Message::TickRam,
            Metric::Swap => Message::TickSwap,
            Metric::Net => Message::TickNet,
            Metric::Disk => Message::TickDisk,
        }
    }
}

/// `used` as a share of `total` in percent.
pub fn percent(used: u64, total: u64) -> (share: u64)
    ensures
        share == percent_of(used, total),
        share <= PERCENT_MAX,
{
    if total == 0 {
        0
    } else if used >= total {
        PERCENT_MAX
    } else {
        assert((used as int * 100) / (total as int) < 100) by (nonlinear_arith)
            requires
                0 <= used as int,
                (used as int) < (total as int),
        ;
        assert(0 <= (used as int * 100) / (total as int)) by (nonlinear_arith)
            requires
                0 <= used as int,
                0 < total as int,
        ;
        ((used as u128 * 100) / (total as u128)) as u64
    }
}

impl Series {
    /// No samples yet, for a component of this family and window.
    pub fn fresh(component: &ComponentConfig) -> (series: Series)
        ensures
            series@ == fresh_series(*component),
    {
        let window: usize = component.sampling_window();
        Series {
            family: component.family(),
            first: SampleHistory::new(window),
            second: SampleHistory::new(window),
            levels: Vec::new(),
        }
    }

    /// Whether the samples were taken for a component of this family and window.
    pub fn fits(&self, component: &ComponentConfig) -> (fitting: bool)
        ensures
            fitting == fits(self@, *component),
    {
        let window: usize = component.sampling_window();
        let capacity: usize = if window == 0 {
            1
        } else {
            window
        };
        self.family == component.family() && self.first.capacity() == capacity
            && self.second.capacity() == capacity
    }

    /// A copy that holds the same samples.
    pub fn duplicate(&self) -> (copy: Series)
        ensures
            copy@ == self@,
    {
        let mut levels: Vec<u64> = Vec::with_capacity(self.levels.len());
        let mut at: usize = 0;
        while at < self.levels.len()
            invariant
                at <= self.levels@.len(),
                levels@ == self.levels@.subrange(0, at as int),
            decreases self.levels@.len() - at,
        {
            levels.push(self.levels[at]);
            at += 1;
        }
        assert(levels@ =~= self.levels@);
        Series {
            family: self.family,
            first: self.first.clone(),
            second: self.second.clone(),
            levels,
        }
    }

    /// Takes a reading in, if it is for a component of this family.
    pub fn record(&mut self, reading: &Reading)
        ensures
            final(self)@ == recorded(old(self)@, *reading),
    {
        match reading {
            Reading::Cpu { usage, cores } => {
                if self.family == Family::Cpu {
                    self.first.push(*usage);
                    let mut levels: Vec<u64> = Vec::with_capacity(cores.len());
                    let mut at: usize = 0;
                    while at < cores.len()
                        invariant
                            at <= cores@.len(),
                            levels@ == cores@.subrange(0, at as int),
                        decreases cores@.len() - at,
                    {
                        levels.push(cores[at]);
                        at += 1;
                    }
                    assert(levels@ =~= cores@);
                    self.levels = levels;
                }
            },
            Reading::Ram { used, total } => {
                if self.family == Family::Mem {
                    self.first.push(percent(*used, *total));
                }
            },
            Reading::Swap { used, total } => {
                if self.family == Family::Mem {
                    self.second.push(percent(*used, *total));
                }
            },
            Reading::Net { received, sent } => {
                if self.family == Family::Net {
                    self.first.push(*received);
                    self.second.push(*sent);
                }
            },
            Reading::Disk { read, written } => {
                if self.family == Family::Disk {
                    self.first.push(*read);
                    self.second.push(*written);
                }
            },
        }
    }
}

/// The configuration in force and the samples of each of its components.
#[derive(Debug)]
pub struct SystemMonitor {
    config: Config,
    series: Vec<Series>,
}

impl SystemMonitor {
    /// The configuration in force.
    pub closed spec fn spec_config(&self) -> &Config {
        &self.config
    }

    /// The samples of the components, in the order of the configuration.
    pub closed spec fn spec_series(&self) -> &Vec<Series> {
        &self.series
    }

    /// The samples of the components as sequences.
    pub open spec fn samples(&self) -> Seq<SeriesView> {
        self.series()@.map_values(|series: Series| series@)
    }

    /// Whether there are samples for every component of the configuration,
    /// taken for its family and window. A monitor is made so, and stays so.
    pub open spec fn in_step(&self) -> bool {
        &&& self.samples().len() == self.config().components@.len()
        &&& forall|place: int|
            0 <= place < self.samples().len() ==> fits(
                #[trigger] self.samples()[place],
                self.config().components@[place],
            )
    }

    /// A monitor for `config` that has not sampled yet.
    pub fn new(config: Config) -> (monitor: SystemMonitor)
        ensures
            *monitor.config() == config,
            monitor.samples().len() == config.components@.len(),
            forall|place: int|
                0 <= place < monitor.samples().len() ==> #[trigger] monitor.samples()[place]
                    == fresh_series(config.components@[place]),
            monitor.in_step(),
    {
        let mut series: Vec<Series> = Vec::with_capacity(config.components.len());
        let mut place: usize = 0;
        while place < config.components.len()
            invariant
                place <= config.components@.len(),
                series@.len() == place,
                forall|at: int|
                    0 <= at < place ==> (#[trigger] series@[at])@ == fresh_series(
                        config.components@[at],
                    ),
            decreases config.components@.len() - place,
        {
            series.push(Series::fresh(&config.components[place]));
            place += 1;
        }
        SystemMonitor { config, series }
    }

    /// The configuration in force.
    #[verifier::when_used_as_spec(spec_config)]
    pub fn config(&self) -> (config: &Config)
        ensures
            config == self.config(),
    {
        &self.config
    }

    /// The samples of the components, in the order of the configuration.
    #[verifier::when_used_as_spec(spec_series)]
    pub fn series(&self) -> (series: &Vec<Series>)
        ensures
            series == self.series(),
    {
        &self.series
    }

    /// Puts `config` in force. A component keeps its samples where the
    /// configuration in force had a component at its place with the same
    /// window, and the samples held there were taken for the same family and
    /// window. Every other component starts with an empty history of the
    /// capacity that its window asks for: a changed window always resets.
    pub fn update_config(&mut self, config: Config)
        ensures
            *final(self).config() == config,
            final(self).samples().len() == config.components@.len(),
            forall|place: int|
                0 <= place < final(self).samples().len() ==> #[trigger] final(self).samples()[place]
                    == reloaded(old(self).samples(), *old(self).config(), config, place),
            final(self).in_step(),
    {
        let count: usize = config.components.len();
        let mut series: Vec<Series> = Vec::with_capacity(count);
        let mut place: usize = 0;
        while place < count
            invariant
                place <= count,
                count == config.components@.len(),
                series@.len() == place,
                *self == *old(self),
                forall|at: int|
                    0 <= at < place ==> (#[trigger] series@[at])@ == reloaded(
                        old(self).samples(),
                        *old(self).config(),
                        config,
                        at,
                    ),
            decreases count - place,
        {
            let component = &config.components[place];
            let same_window: bool = place < self.config.components.len()
                && self.config.components[place].sampling_window() == component.sampling_window();
            let kept: bool = same_window && place < self.series.len()
                && self.series[place].fits(component);
            if kept {
                series.push(self.series[place].duplicate());
            } else {
                series.push(Series::fresh(component));
            }
            place += 1;
        }
        self.config = config;
        self.series = series;
    }

    /// Takes a reading in: every component of the reading's family records
    /// it, and nothing else changes.
    pub fn record(&mut self, reading: &Reading)
        ensures
            final(self).config() == old(self).config(),
            final(self).samples().len() == old(self).samples().len(),
            forall|place: int|
                0 <= place < final(self).samples().len() ==> #[trigger] final(self).samples()[place]
                    == recorded(old(self).samples()[place], *reading),
            old(self).in_step() ==> final(self).in_step(),
    {
        let count: usize = self.series.len();
        let mut place: usize = 0;
        while place < count
            invariant
                place <= count,
                count == self.series@.len(),
                count == old(self).series@.len(),
                self.config == old(self).config,
                forall|at: int|
                    0 <= at < place ==> (#[trigger] self.series@[at])@ == recorded(
                        old(self).series@[at]@,
                        *reading,
                    ),
                forall|at: int|
                    place <= at < count ==> (#[trigger] self.series@[at]) == old(self).series@[at],
            decreases count - place,
        {
            self.series[place].record(reading);
            place += 1;
        }
        proof {
            if old(self).in_step() {
                assert forall|place: int| 0 <= place < self.samples().len() implies fits(
                    #[trigger] self.samples()[place],
                    self.config().components@[place],
                ) by {
                    assert(self.samples()[place] == recorded(
                        old(self).samples()[place],
                        *reading,
                    ));
                    assert(fits(old(self).samples()[place], old(self).config().components@[place]));
                }
            }
        }
    }

    /// Records the load over all cores and of each core, in percent.
    pub fn update_cpu(&mut self, usage: u64, cores: Vec<u64>)
        ensures
            final(self).config() == old(self).config(),
            final(self).samples().len() == old(self).samples().len(),
            forall|place: int|
                0 <= place < final(self).samples().len() ==> #[trigger] final(self).samples()[place]
                    == recorded(old(self).samples()[place], Reading::Cpu { usage, cores }),
            old(self).in_step() ==> final(self).in_step(),
    {
        self.record(&Reading::Cpu { usage, cores });
    }

    /// Records the share of memory in use.
    pub fn update_ram(&mut self, used: u64, total: u64)
        ensures
            final(self).config() == old(self).config(),
            final(self).samples().len() == old(self).samples().len(),
            forall|place: int|
                0 <= place < final(self).samples().len() ==> #[trigger] final(self).samples()[place]
                    == recorded(old(self).samples()[place], Reading::Ram { used, total }),
            old(self).in_step() ==> final(self).in_step(),
    {
        self.record(&Reading::Ram { used, total });
    }

    /// Records the share of swap in use.
    pub fn update_swap(&mut self, used: u64, total: u64)
        ensures
            final(self).config() == old(self).config(),
            final(self).samples().len() == old(self).samples().len(),
            forall|place: int|
                0 <= place < final(self).samples().len() ==> #[trigger] final(self).samples()[place]
                    == recorded(old(self).samples()[place], Reading::Swap { used, total }),
            old(self).in_step() ==> final(self).in_step(),
    {
        self.record(&Reading::Swap { used, total });
    }

    /// Records what the network received and sent.
    pub fn update_net(&mut self, received: u64, sent: u64)
        ensures
            final(self).config() == old(self).config(),
            final(self).samples().len() == old(self).samples().len(),
            forall|place: int|
                0 <= place < final(self).samples().len() ==> #[trigger] final(self).samples()[place]
                    == recorded(old(self).samples()[place], Reading::Net { received, sent }),
            old(self).in_step() ==> final(self).in_step(),
    {
        self.record(&Reading::Net { received, sent });
    }

    /// Records what the disks read and wrote.
    pub fn update_disk(&mut self, read: u64, written: u64)
        ensures
            final(self).config() == old(self).config(),
            final(self).samples().len() == old(self).samples().len(),
            forall|place: int|
                0 <= place < final(self).samples().len() ==> #[trigger] final(self).samples()[place]
                    == recorded(old(self).samples()[place], Reading::Disk { read, written }),
            old(self).in_step() ==> final(self).in_step(),
    {
        self.record(&Reading::Disk { read, written });
    }

    /// Handles a message. A configuration equal to the one in force changes
    /// nothing; another one is put in force as `update_config` does. A tick
    /// changes nothing and asks for its metric to be measured.
    pub fn update(&mut self, message: Message) -> (action: Action)
        ensures
            match message {
                Message::Config(config) => if config.same_as(old(self).config()) {
                    &&& action == Action::Idle
                    &&& *final(self) == *old(self)
                } else {
                    &&& action == Action::Reconfigured
                    &&& *final(self).config() == config
                    &&& final(self).samples().len() == config.components@.len()
                    &&& forall|place: int|
                        0 <= place < final(self).samples().len() ==> (#[trigger] final(self).samples()[place])
                            == reloaded(old(self).samples(), *old(self).config(), config, place)
                },
                _ => {
                    &&& metric_of(message) matches Some(metric)
                    &&& action == Action::Poll(metric)
                    &&& *final(self) == *old(self)
                },
            },
            old(self).in_step() ==> final(self).in_step(),
    {
        match message {
            Message::Config(config) => {
                if config.eq(&self.config) {
                    Action::Idle
                } else {
                    self.update_config(config);
                    Action::Reconfigured
                }
            },
            Message::TickCpu => Action::Poll(Metric::Cpu),
            Message::TickRam => Action::Poll(Metric::Ram),
            Message::TickSwap => Action::Poll(Metric::Swap),
            Message::TickNet => Action::Poll(Metric::Net),
            Message::TickDisk => Action::Poll(Metric::Disk),
        }
    }

    /// The chart that a view of a component asks for, from the samples held.
    ///
    /// There is none where the configuration has no such component or view,
    /// or no samples are held for the component.
    pub fn plan<'a>(&'a self, component: usize, view: usize, palette: &Palette) -> (plan: Option<
        Result<RenderPlan<'a>, ChartError>,
    >)
        ensures
            match plan {
                Some(made) => {
                    &&& component < self.config().components@.len()
                    &&& component < self.samples().len()
                    &&& view < self.config().components@[component as int].view_count()
                    &&& plan_is(
                        made,
                        planned(
                            self.config().components@[component as int],
                            view as int,
                            self.samples()[component as int],
                            *palette,
                        ),
                    )
                },
                None => {
                    ||| component >= self.config().components@.len()
                    ||| component >= self.samples().len()
                    ||| view >= self.config().components@[component as int].view_count()
                },
            },
    {
        if component >= self.config.components.len() || component >= self.series.len() {
            return None;
        }
        let series = &self.series[component];
        match &self.config.components[component] {
            ComponentConfig::Cpu { vis, .. } => {
                if view >= vis.len() {
                    None
                } else {
                    Some(Ok(resolve_cpu(&vis[view], &series.first, &series.levels, palette)))
                }
            },
            ComponentConfig::Mem { vis, .. } => {
                if view >= vis.len() {
                    None
                } else {
                    Some(resolve_percent(&vis[view], &series.first, &series.second, palette))
                }
            },
            ComponentConfig::Net { vis, .. } => {
                if view >= vis.len() {
                    None
                } else {
                    Some(resolve_io(&vis[view], &series.first, &series.second, palette))
                }
            },
            ComponentConfig::Disk { vis, .. } => {
                if view >= vis.len() {
                    None
                } else {
                    Some(resolve_io(&vis[view], &series.first, &series.second, palette))
                }
            },
        }
    }
}

/// The chart that the view at place `view` of `component` asks for, from the
/// samples of that component.
pub open spec fn planned(
    component: ComponentConfig,
    view: int,
    series: SeriesView,
    palette: Palette,
) -> Result<PlanView, ChartError> {
    match component {
        ComponentConfig::Cpu { vis, .. } => Ok(
            cpu_plan(vis@[view], series.first, series.levels, palette),
        ),
        ComponentConfig::Mem { vis, .. } => percent_plan(
            vis@[view],
            series.first,
            series.second,
            palette,
        ),
        ComponentConfig::Net { vis, .. } => io_plan(
            vis@[view],
            series.first,
            series.second,
            palette,
        ),
        ComponentConfig::Disk { vis, .. } => io_plan(
            vis@[view],
            series.first,
            series.second,
            palette,
        ),
    }
}

} // verus!
