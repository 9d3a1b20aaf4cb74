//! Choosing the physical device and the queue family to render with.

use vstd::prelude::*;
use vulkano::device::DeviceExtensions;

use crate::extensions::{extension_names, required_extensions};

verus! {

/// What sort of hardware, or software, a physical device is.
#[derive(Clone, Copy, Debug, PartialEq, Eq, Structural)]
pub enum DeviceKind {
    DiscreteGpu,
    IntegratedGpu,
    VirtualGpu,
    Cpu,
    Other,
}

impl DeviceKind {
    /// How far down the list of preferences a kind of device stands.
    pub open spec fn spec_rank(self) -> u32 {
        match self {
            DeviceKind::DiscreteGpu => 0,
            DeviceKind::IntegratedGpu => 1,
            DeviceKind::VirtualGpu => 2,
            DeviceKind::Cpu => 3,
            DeviceKind::Other => 4,
        }
    }

    /// The preference for this kind of device: the lowest rank is the best.
    pub fn rank(self) -> (rank: u32)
        ensures
            rank == self.spec_rank(),
    {
        match self {
            DeviceKind::DiscreteGpu => 0,
            DeviceKind::IntegratedGpu => 1,
            DeviceKind::VirtualGpu => 2,
            DeviceKind::Cpu => 3,
            DeviceKind::Other => 4,
        }
    }
}

/// What one queue family of a device can do.
#[derive(Clone, Copy, Debug, PartialEq, Eq)]
pub struct QueueFamily {
    pub graphics: bool,
    pub compute: bool,
    /// Whether the family can present to the window's surface; `None` if that could not be
    /// found out.
    pub surface: Option<bool>,
}

impl QueueFamily {
    /// The family draws, computes, and is known to present to the surface.
    pub open spec fn usable(self) -> bool {
        self.graphics && self.compute && self.surface == Some(true)
    }

    /// Whether the family does both kinds of work, so that it is worth asking whether it can
    /// present.
    pub fn draws_and_computes(&self) -> (capable: bool)
        ensures
            capable == (self.graphics && self.compute),
    {
        self.graphics && self.compute
    }

    /// Whether one queue of this family is enough for the whole simulation.
    pub fn is_usable(&self) -> (usable: bool)
        ensures
            usable == self.usable(),
    {
        self.draws_and_computes() && match self.surface {
            Some(supported) => supported,
            None => false,
        }
    }
}

/// A physical device that is offered for selection.
pub struct DeviceCandidate {
    /// The extensions that the device has.
    pub supported_extensions: DeviceExtensions,
    /// The extensions that must be enabled on the device whoever uses it.
    pub required_extensions: DeviceExtensions,
    pub kind: DeviceKind,
    pub queue_families: Vec<QueueFamily>,
}

/// The device and queue family to open, by their positions, and the extensions to enable.
pub struct DeviceSelection {
    pub device: usize,
    pub queue_family: usize,
    pub enabled_extensions: DeviceExtensions,
}

/// The device can present, and its queue family at `family` can do all the work.
pub open spec fn suitable_family(candidate: DeviceCandidate, family: int) -> bool {
    &&& extension_names(candidate.supported_extensions).contains("VK_KHR_swapchain"@)
    &&& 0 <= family < candidate.queue_families@.len()
    &&& candidate.queue_families@[family].usable()
}

/// The device at `device` is suitable with its queue family at `family`.
pub open spec fn suitable(devices: Seq<DeviceCandidate>, device: int, family: int) -> bool {
    0 <= device < devices.len() && suitable_family(devices[device], family)
}

/// The first pair is at least as good as the second: a better kind of device, or the same kind
/// listed no later.
pub open spec fn preferred(
    devices: Seq<DeviceCandidate>,
    device: int,
    family: int,
    other_device: int,
    other_family: int,
) -> bool {
    let rank = devices[device].kind.spec_rank();
    let other_rank = devices[other_device].kind.spec_rank();
    ||| rank < other_rank
    ||| rank == other_rank && device < other_device
    ||| rank == other_rank && device == other_device && family <= other_family
}

/// The pair comes before the position that a search in listing order has reached.
spec fn seen(device: int, family: int, next_device: int, next_family: int) -> bool {
    device < next_device || device == next_device && family < next_family
}

/// `best` is the most preferred suitable pair before the position that the search has reached.
spec fn best_so_far(
    devices: Seq<DeviceCandidate>,
    best: Option<(usize, usize)>,
    next_device: int,
    next_family: int,
) -> bool {
    match best {
        None => forall|d: int, q: int|
            seen(d, q, next_device, next_family) ==> !#[trigger] suitable(devices, d, q),
        Some((device, family)) => {
            &&& seen(device as int, family as int, next_device, next_family)
            &&& suitable(devices, device as int, family as int)
            &&& forall|d: int, q: int|
                seen(d, q, next_device, next_family) && #[trigger] suitable(devices, d, q)
                    ==> preferred(devices, device as int, family as int, d, q)
        },
    }
}

/// The pair is the most preferred suitable one, or there is none.
pub open spec fn best_pair(devices: Seq<DeviceCandidate>, pair: Option<(int, int)>) -> bool {
    match pair {
        None => forall|d: int, q: int| !#[trigger] suitable(devices, d, q),
        Some((device, family)) => {
            &&& suitable(devices, device, family)
            &&& forall|d: int, q: int| #[trigger]
                suitable(devices, d, q) ==> preferred(devices, device, family, d, q)
        },
    }
}

/// The positions that a selection names.
pub open spec fn selected_pair(selection: Option<DeviceSelection>) -> Option<(int, int)> {
    match selection {
        None => None,
        Some(chosen) => Some((chosen.device as int, chosen.queue_family as int)),
    }
}

/// Whether a device with these extensions can be used at all.
pub fn has_required_extensions(supported: &DeviceExtensions) -> (sufficient: bool)
    ensures
        sufficient == extension_names(*supported).contains("VK_KHR_swapchain"@),
{
    let required = required_extensions();
    let sufficient: bool = supported.is_superset_of(&required);
    assert(extension_names(required).contains("VK_KHR_swapchain"@));
    sufficient
}

/// Looks for a device that can present and has a queue family that draws, computes and
/// presents. Among those the best kind of device wins, and among equals the one listed first.
/// `None` if no device qualifies.
pub fn select_device(devices: &Vec<DeviceCandidate>) -> (selection: Option<DeviceSelection>)
    ensures
        best_pair(devices@, selected_pair(selection)),
        selection matches Some(chosen) ==> extension_names(chosen.enabled_extensions)
            == extension_names(devices@[chosen.device as int].required_extensions).insert(
            "VK_KHR_swapchain"@,
        ),
{
    let mut best: Option<(usize, usize)> = None;
    let mut device: usize = 0;
    while device < devices.len()
        invariant
            device <= devices@.len(),
            best_so_far(devices@, best, device as int, 0),
        decreases devices@.len() - device,
    {
        let candidate = &devices[device];
        if has_required_extensions(&candidate.supported_extensions) {
            let rank: u32 = candidate.kind.rank();
            let mut family: usize = 0;
            while family < candidate.queue_families.len()
                invariant
                    device < devices@.len(),
                    *candidate == devices@[device as int],
                    rank == candidate.kind.spec_rank(),
                    extension_names(candidate.supported_extensions).contains(
                        "VK_KHR_swapchain"@,
                    ),
                    family <= candidate.queue_families@.len(),
                    best_so_far(devices@, best, device as int, family as int),
                decreases candidate.queue_families@.len() - family,
            {
                if candidate.queue_families[family].is_usable() {
                    let better: bool = match best {
                        None => true,
                        Some((best_device, _)) => rank < devices[best_device].kind.rank(),
                    };
                    if better {
                        best = Some((device, family));
                    }
                    assert(suitable(devices@, device as int, family as int));
                }
                family = family + 1;
            }
        }
        device = device + 1;
    }
    match best {
        None => {
            assert forall|d: int, q: int| !#[trigger] suitable(devices@, d, q) by {
                if suitable(devices@, d, q) {
                    assert(seen(d, q, device as int, 0));
                }
            }
            None
        },
        Some((device, queue_family)) => {
            let enabled_extensions = required_extensions().union(
                &devices[device].required_extensions,
            );
            assert(extension_names(enabled_extensions) =~= extension_names(
                devices@[device as int].required_extensions,
            ).insert("VK_KHR_swapchain"@));
            Some(DeviceSelection { device, queue_family, enabled_extensions })
        },
    }
}

/// The choice depends on the list alone: no two pairs can both be the best.
pub proof fn law_device_choice_is_determined(
    devices: Seq<DeviceCandidate>,
    one: Option<(int, int)>,
    other: Option<(int, int)>,
)
    requires
        best_pair(devices, one),
        best_pair(devices, other),
    ensures
        one == other,
{
}

/// The device is suitable with one of its queue families at least.
pub open spec fn suitable_device(candidate: DeviceCandidate) -> bool {
    exists|family: int| #[trigger] suitable_family(candidate, family)
}

/// The suitable devices of a list, in their order.
pub open spec fn suitable_devices(devices: Seq<DeviceCandidate>) -> Seq<DeviceCandidate> {
    devices.filter(|candidate: DeviceCandidate| suitable_device(candidate))
}

/// How many suitable devices are listed before the one at `device`.
spec fn suitable_before(devices: Seq<DeviceCandidate>, device: int) -> int {
    suitable_devices(devices.take(device)).len() as int
}

/// A suitable device stands among the suitable ones behind those that are listed before it.
proof fn lemma_suitable_device_is_kept(devices: Seq<DeviceCandidate>, device: int)
    requires
        0 <= device < devices.len(),
        suitable_device(devices[device]),
    ensures
        suitable_before(devices, device) < suitable_devices(devices).len(),
        suitable_devices(devices)[suitable_before(devices, device)] == devices[device],
    decreases devices.len(),
{
    reveal(Seq::filter);
    let fewer = devices.drop_last();
    if device < fewer.len() {
        lemma_suitable_device_is_kept(fewer, device);
        assert(fewer.take(device) =~= devices.take(device));
        assert(fewer[device] == devices[device]);
    } else {
        assert(devices.take(device) =~= fewer);
    }
}

/// The suitable devices keep the order of the list.
proof fn lemma_suitable_devices_keep_their_order(
    devices: Seq<DeviceCandidate>,
    device: int,
    later: int,
)
    requires
        0 <= device < later < devices.len(),
        suitable_device(devices[device]),
    ensures
        suitable_before(devices, device) < suitable_before(devices, later),
{
    let earlier = devices.take(later);
    assert(earlier[device] == devices[device]);
    assert(earlier.take(device) =~= devices.take(device));
    lemma_suitable_device_is_kept(earlier, device);
}

/// Each of the suitable devices comes from the list.
proof fn lemma_suitable_device_is_listed(devices: Seq<DeviceCandidate>, position: int) -> (device:
    int)
    requires
        0 <= position < suitable_devices(devices).len(),
    ensures
        0 <= device < devices.len(),
        suitable_device(devices[device]),
        suitable_before(devices, device) == position,
        devices[device] == suitable_devices(devices)[position],
    decreases devices.len(),
{
    reveal(Seq::filter);
    let fewer = devices.drop_last();
    if position < suitable_devices(fewer).len() {
        let device = lemma_suitable_device_is_listed(fewer, position);
        assert(fewer.take(device) =~= devices.take(device));
        device
    } else {
        let device = devices.len() - 1;
        assert(devices.take(device) =~= fewer);
        device
    }
}

/// The best pair of a list is, among the suitable devices, the best pair again.
proof fn lemma_best_pair_among_the_suitable(
    devices: Seq<DeviceCandidate>,
    pair: Option<(int, int)>,
)
    requires
        best_pair(devices, pair),
    ensures
        best_pair(
            suitable_devices(devices),
            match pair {
                None => None,
                Some((device, family)) => Some((suitable_before(devices, device), family)),
            },
        ),
        pair matches Some((device, _)) ==> {
            &&& 0 <= suitable_before(devices, device) < suitable_devices(devices).len()
            &&& suitable_devices(devices)[suitable_before(devices, device)] == devices[device]
        },
{
    let kept = suitable_devices(devices);
    match pair {
        None => {
            assert forall|k: int, q: int| !#[trigger] suitable(kept, k, q) by {
                if suitable(kept, k, q) {
                    let d = lemma_suitable_device_is_listed(devices, k);
                    assert(suitable(devices, d, q));
                }
            }
        },
        Some((device, family)) => {
            assert(suitable_family(devices[device], family));
            lemma_suitable_device_is_kept(devices, device);
            let position = suitable_before(devices, device);
            assert forall|k: int, q: int| #[trigger] suitable(kept, k, q) implies preferred(
                kept,
                position,
                family,
                k,
                q,
            ) by {
                let d = lemma_suitable_device_is_listed(devices, k);
                assert(suitable(devices, d, q));
                if device < d {
                    lemma_suitable_devices_keep_their_order(devices, device, d);
                }
            }
        },
    }
}

/// Unsuitable devices never influence the choice: where two lists have the same suitable devices
/// in the same order, the same device is chosen from both with the same queue family, or none
/// from either.
pub proof fn law_unsuitable_devices_do_not_matter(
    devices: Seq<DeviceCandidate>,
    pair: Option<(int, int)>,
    other_devices: Seq<DeviceCandidate>,
    other_pair: Option<(int, int)>,
)
    requires
        suitable_devices(devices) == suitable_devices(other_devices),
        best_pair(devices, pair),
        best_pair(other_devices, other_pair),
    ensures
        match (pair, other_pair) {
            (None, None) => true,
            (Some((device, family)), Some((other_device, other_family))) => {
                &&& devices[device] == other_devices[other_device]
                &&& family == other_family
            },
            _ => false,
        },
{
    lemma_best_pair_among_the_suitable(devices, pair);
    lemma_best_pair_among_the_suitable(other_devices, other_pair);
    let kept_pair = match pair {
        None => None,
        Some((device, family)) => Some((suitable_before(devices, device), family)),
    };
    let other_kept_pair = match other_pair {
        None => None,
        Some((device, family)) => Some((suitable_before(other_devices, device), family)),
    };
    law_device_choice_is_determined(suitable_devices(devices), kept_pair, other_kept_pair);
}

/// A real graphics card comes first, and each kind of device before the next.
pub proof fn law_ranks()
    ensures
        DeviceKind::DiscreteGpu.spec_rank() == 0,
        DeviceKind::IntegratedGpu.spec_rank() == 1,
        DeviceKind::VirtualGpu.spec_rank() == 2,
        DeviceKind::Cpu.spec_rank() == 3,
        DeviceKind::Other.spec_rank() == 4,
{
}

/// The device at `d` can present, and its queue family at `q` draws, computes and is known to
/// present to the surface.
pub open spec fn can_be_used(devices: Seq<DeviceCandidate>, d: int, q: int) -> bool {
    &&& 0 <= d < devices.len()
    &&& extension_names(devices[d].supported_extensions).contains("VK_KHR_swapchain"@)
    &&& 0 <= q < devices[d].queue_families@.len()
    &&& devices[d].queue_families@[q].graphics
    &&& devices[d].queue_families@[q].compute
    &&& devices[d].queue_families@[q].surface is Some
    &&& devices[d].queue_families@[q].surface->0
}

/// A family is usable if and only if it draws, computes, and is known to present.
pub proof fn law_usable_family(devices: Seq<DeviceCandidate>, family: QueueFamily, d: int, q: int)
    ensures
        family.usable() <==> family.graphics && family.compute && family.surface is Some
            && family.surface->0,
        suitable(devices, d, q) <==> can_be_used(devices, d, q),
{
}

/// The chosen device can be used with the chosen family, and no device that can be used is of a
/// better kind; of those of the same kind it is the first, and the family is its first that can
/// be used. Nothing is chosen if and only if nothing can be used.
pub proof fn law_best_device(
    devices: Seq<DeviceCandidate>,
    pair: Option<(int, int)>,
    d: int,
    q: int,
)
    requires
        best_pair(devices, pair),
        can_be_used(devices, d, q),
    ensures
        pair is Some,
        ({
            let (device, family) = pair->0;
            let kind = devices[device].kind;
            let other = devices[d].kind;
            &&& can_be_used(devices, device, family)
            &&& other is DiscreteGpu ==> kind is DiscreteGpu
            &&& other is IntegratedGpu ==> kind is DiscreteGpu || kind is IntegratedGpu
            &&& other is VirtualGpu ==> kind !is Cpu && kind !is Other
            &&& other is Cpu ==> kind !is Other
            &&& other == kind ==> device < d || device == d && family <= q
        }),
{
    law_usable_family(devices, devices[d].queue_families@[q], d, q);
    assert(suitable(devices, d, q));
}

/// A device is only ever chosen if it can be used.
pub proof fn law_chosen_device_can_be_used(
    devices: Seq<DeviceCandidate>,
    device: int,
    family: int,
)
    requires
        best_pair(devices, Some((device, family))),
    ensures
        can_be_used(devices, device, family),
{
}

/// The device and the family that a selection names, by their positions, can be used, and no
/// other that can be used is of a better kind or of the same kind and listed before. Something is
/// selected whenever anything can be used.
pub proof fn law_selection(
    devices: Seq<DeviceCandidate>,
    selection: Option<DeviceSelection>,
    d: int,
    q: int,
)
    requires
        best_pair(devices, selected_pair(selection)),
    ensures
        selection matches Some(chosen) ==> can_be_used(
            devices,
            chosen.device as int,
            chosen.queue_family as int,
        ),
        can_be_used(devices, d, q) ==> {
            &&& selection is Some
            &&& ({
                let chosen = selection->0;
                let kind = devices[chosen.device as int].kind;
                let other = devices[d].kind;
                &&& other is DiscreteGpu ==> kind is DiscreteGpu
                &&& other is IntegratedGpu ==> kind is DiscreteGpu || kind is IntegratedGpu
                &&& other is VirtualGpu ==> kind !is Cpu && kind !is Other
                &&& other is Cpu ==> kind !is Other
                &&& other == kind ==> chosen.device < d || chosen.device == d
                    && chosen.queue_family <= q
            })
        },
{
    if can_be_used(devices, d, q) {
        law_best_device(devices, selected_pair(selection), d, q);
    }
}

} // verus!
