//! The order of the charts in the panel, and the gaps between them.

use vstd::prelude::*;
use crate::config::{Config, PaddingOption};
use crate::measure::{rounded, Fixed};

verus! {

/// The place of one chart in the panel: the component and the view that it
/// shows, and the gap that separates it from the chart before it.
#[derive(Clone, Copy, Debug, PartialEq, Eq, Structural)]
pub struct Slot {
    pub component: usize,
    pub view: usize,
    pub gap_before: Fixed,
}

/// The slots of one component with `views` views: one per view in their
/// order, the first after a gap of `lead` and each other after `inner`.
pub open spec fn component_slots(component: int, views: nat, lead: Fixed, inner: Fixed) -> Seq<
    Slot,
> {
    Seq::new(
        views,
        |view: int|
            Slot {
                component: component as usize,
                view: view as usize,
                gap_before: if view == 0 {
                    lead
                } else {
                    inner
                },
            },
    )
}

/// The slots of the first `count` components of `config`: component after
/// component, view after view. The first chart of all follows no gap; the
/// first chart of a later component follows the gap between components; every
/// other chart follows the gap between the views of a component.
pub open spec fn slots_of(config: Config, count: nat) -> Seq<Slot>
    decreases count,
{
    if count == 0 {
        Seq::empty()
    } else {
        let before = slots_of(config, (count - 1) as nat);
        let lead = if before.len() == 0 {
            Fixed { millis: 0 }
        } else {
            config.component_spacing
        };
        before + component_slots(
            count - 1,
            config.components@[count - 1].view_count() as nat,
            lead,
            config.component_inner_spacing,
        )
    }
}

/// Whether the chart of the first slot is configured before that of the second.
pub open spec fn configured_before(first: Slot, second: Slot) -> bool {
    first.component < second.component || (first.component == second.component && first.view
        < second.view)
}

/// Whether one of the slots shows the view at place `view` of the component
/// at place `component`.
pub open spec fn has_slot(slots: Seq<Slot>, component: int, view: int) -> bool {
    exists|k: int|
        0 <= k < slots.len() && (#[trigger] slots[k]).component == component && slots[k].view
            == view
}

/// The charts stand in the order of the configuration: every slot names a
/// view that the configuration holds, an earlier slot names an earlier view,
/// and every view of the configuration has its slot.
pub proof fn lemma_slots_follow_configuration(config: Config, count: nat)
    requires
        count <= config.components@.len(),
    ensures
        forall|k: int|
            0 <= k < slots_of(config, count).len() ==> {
                let slot = #[trigger] slots_of(config, count)[k];
                slot.component < count && slot.view
                    < config.components@[slot.component as int].view_count()
            },
        forall|j: int, k: int|
            0 <= j < k < slots_of(config, count).len() ==> configured_before(
                #[trigger] slots_of(config, count)[j],
                #[trigger] slots_of(config, count)[k],
            ),
        forall|component: int, view: int|
            0 <= component < count && 0 <= view < config.components@[component].view_count()
                ==> #[trigger] has_slot(slots_of(config, count), component, view),
    decreases count,
{
    if count > 0 {
        let before = slots_of(config, (count - 1) as nat);
        let all = slots_of(config, count);
        let views = config.components@[count - 1].view_count() as nat;
        let last = component_slots(
            count - 1,
            views,
            if before.len() == 0 {
                Fixed { millis: 0 }
            } else {
                config.component_spacing
            },
            config.component_inner_spacing,
        );
        lemma_slots_follow_configuration(config, (count - 1) as nat);
        assert(config.components@.len() == config.components.len());
        assert(all == before + last);
        assert forall|k: int| 0 <= k < all.len() implies {
            let slot = #[trigger] all[k];
            slot.component < count && slot.view
                < config.components@[slot.component as int].view_count()
        } by {
            if k < before.len() {
                assert(all[k] == before[k]);
            } else {
                assert(all[k] == last[k - before.len()]);
            }
        }
        assert forall|j: int, k: int| 0 <= j < k < all.len() implies configured_before(
            #[trigger] all[j],
            #[trigger] all[k],
        ) by {
            if k < before.len() {
                assert(all[j] == before[j] && all[k] == before[k]);
            } else if j < before.len() {
                assert(all[j] == before[j]);
                assert(all[k] == last[k - before.len()]);
            } else {
                assert(all[j] == last[j - before.len()]);
                assert(all[k] == last[k - before.len()]);
            }
        }
        assert forall|component: int, view: int|
            0 <= component < count && 0 <= view
                < config.components@[component].view_count() implies #[trigger] has_slot(
            all,
            component,
            view,
        ) by {
            if component < count - 1 {
                assert(has_slot(before, component, view));
                let k = choose|k: int|
                    0 <= k < before.len() && (#[trigger] before[k]).component == component
                        && before[k].view == view;
                assert(all[k] == before[k]);
            } else {
                let k = before.len() + view;
                assert(all[k] == last[view]);
            }
        }
    }
}

/// The slots of the charts of `config`, in the order in which they stand in
/// the panel, which is the order of the configuration.
pub fn compose(config: &Config) -> (slots: Vec<Slot>)
    ensures
        slots@ == slots_of(*config, config.components@.len()),
{
    let mut slots: Vec<Slot> = Vec::new();
    let mut component: usize = 0;
    while component < config.components.len()
        invariant
            component <= config.components@.len(),
            slots@ == slots_of(*config, component as nat),
        decreases config.components@.len() - component,
    {
        let views: usize = config.components[component].view_count();
        let ghost before = slots@;
        let lead = if slots.len() == 0 {
            Fixed { millis: 0 }
        } else {
            config.component_spacing
        };
        let mut view: usize = 0;
        while view < views
            invariant
                view <= views,
                component < config.components@.len(),
                slots@ == before + component_slots(
                    component as int,
                    view as nat,
                    lead,
                    config.component_inner_spacing,
                ),
            decreases views - view,
        {
            let gap_before = if view == 0 {
                lead
            } else {
                config.component_inner_spacing
            };
            slots.push(Slot { component, view, gap_before });
            view += 1;
            assert(slots@ =~= before + component_slots(
                component as int,
                view as nat,
                lead,
                config.component_inner_spacing,
            ));
        }
        component += 1;
    }
    slots
}

/// The padding around the charts in whole pixels, where the panel suggests `suggested`.
pub open spec fn padding_of(padding: PaddingOption, suggested: u32) -> u32 {
    match padding {
        PaddingOption::Suggested => suggested,
        PaddingOption::Custom(pixels) => rounded(pixels),
    }
}

impl PaddingOption {
    /// The padding in whole pixels, where the panel suggests `suggested`.
    pub fn pixels(&self, suggested: u32) -> (pixels: u32)
        ensures
            pixels == padding_of(*self, suggested),
    {
        match self {
            PaddingOption::Suggested => suggested,
            PaddingOption::Custom(pixels) => pixels.round(),
        }
    }
}

} // verus!
