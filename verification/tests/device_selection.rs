use particles::device::{
    has_required_extensions, select_device, DeviceCandidate, DeviceKind, QueueFamily,
};
use particles::extensions::required_extensions;
use vulkano::device::DeviceExtensions;

const FULL: QueueFamily = QueueFamily { graphics: true, compute: true, surface: Some(true) };

fn swapchain_only() -> DeviceExtensions {
    DeviceExtensions { khr_swapchain: true, ..DeviceExtensions::none() }
}

fn device(kind: DeviceKind, queue_families: Vec<QueueFamily>) -> DeviceCandidate {
    DeviceCandidate {
        supported_extensions: swapchain_only(),
        required_extensions: DeviceExtensions::none(),
        kind,
        queue_families,
    }
}

fn chosen(devices: Vec<DeviceCandidate>) -> Option<(usize, usize)> {
    select_device(&devices).map(|selection| (selection.device, selection.queue_family))
}

#[test]
fn only_the_swapchain_extension_is_required() {
    assert_eq!(required_extensions(), swapchain_only());
    assert_ne!(required_extensions(), DeviceExtensions::none());
}

#[test]
fn no_device_at_all() {
    assert_eq!(chosen(vec![]), None);
}

#[test]
fn device_without_swapchain_extension_is_passed_over() {
    let mut without = device(DeviceKind::DiscreteGpu, vec![FULL]);
    without.supported_extensions =
        DeviceExtensions { khr_maintenance1: true, ..DeviceExtensions::none() };
    assert_eq!(chosen(vec![without]), None);

    let mut without = device(DeviceKind::DiscreteGpu, vec![FULL]);
    without.supported_extensions = DeviceExtensions::none();
    assert_eq!(chosen(vec![without, device(DeviceKind::Other, vec![FULL])]), Some((1, 0)));
}

#[test]
fn more_extensions_than_required_do_no_harm() {
    let mut rich = device(DeviceKind::Cpu, vec![FULL]);
    rich.supported_extensions = DeviceExtensions {
        khr_swapchain: true,
        khr_maintenance1: true,
        ..DeviceExtensions::none()
    };
    assert_eq!(chosen(vec![rich]), Some((0, 0)));
}

#[test]
fn queue_family_must_do_everything() {
    let no_graphics = QueueFamily { graphics: false, ..FULL };
    let no_compute = QueueFamily { compute: false, ..FULL };
    let no_surface = QueueFamily { surface: Some(false), ..FULL };
    let unknown_surface = QueueFamily { surface: None, ..FULL };
    for family in [no_graphics, no_compute, no_surface, unknown_surface] {
        assert!(!family.is_usable());
        assert_eq!(chosen(vec![device(DeviceKind::DiscreteGpu, vec![family])]), None);
    }
    assert!(FULL.is_usable());
    assert_eq!(
        chosen(vec![device(
            DeviceKind::DiscreteGpu,
            vec![no_graphics, no_compute, no_surface, unknown_surface, FULL, FULL],
        )]),
        Some((0, 4))
    );
    assert_eq!(chosen(vec![device(DeviceKind::DiscreteGpu, vec![])]), None);
}

#[test]
fn better_kinds_of_devices_win() {
    let order = [
        DeviceKind::DiscreteGpu,
        DeviceKind::IntegratedGpu,
        DeviceKind::VirtualGpu,
        DeviceKind::Cpu,
        DeviceKind::Other,
    ];
    for (rank, kind) in order.iter().enumerate() {
        assert_eq!(kind.rank() as usize, rank);
        let worst_first: Vec<DeviceCandidate> =
            order[rank..].iter().rev().map(|kind| device(*kind, vec![FULL])).collect();
        let last = worst_first.len() - 1;
        assert_eq!(chosen(worst_first), Some((last, 0)));
    }
}

#[test]
fn first_of_equals_wins() {
    assert_eq!(
        chosen(vec![
            device(DeviceKind::Cpu, vec![FULL]),
            device(DeviceKind::IntegratedGpu, vec![QueueFamily { compute: false, ..FULL }, FULL]),
            device(DeviceKind::IntegratedGpu, vec![FULL]),
        ]),
        Some((1, 1))
    );
}

#[test]
fn extensions_that_the_device_insists_on_are_enabled_too() {
    let mut portable = device(DeviceKind::DiscreteGpu, vec![FULL]);
    portable.required_extensions =
        DeviceExtensions { khr_portability_subset: true, ..DeviceExtensions::none() };
    let selection = select_device(&vec![portable]).unwrap();
    assert_eq!(
        selection.enabled_extensions,
        DeviceExtensions {
            khr_swapchain: true,
            khr_portability_subset: true,
            ..DeviceExtensions::none()
        }
    );

    let plain = select_device(&vec![device(DeviceKind::Cpu, vec![FULL])]).unwrap();
    assert_eq!(plain.enabled_extensions, swapchain_only());
}

#[test]
fn required_extensions_are_recognised() {
    assert!(has_required_extensions(&swapchain_only()));
    assert!(!has_required_extensions(&DeviceExtensions::none()));
    let other = DeviceExtensions { khr_maintenance1: true, ..DeviceExtensions::none() };
    assert!(!has_required_extensions(&other));
    assert!(has_required_extensions(&other.union(&swapchain_only())));
}

#[test]
fn work_of_a_queue_family() {
    assert!(FULL.draws_and_computes());
    assert!(QueueFamily { surface: None, ..FULL }.draws_and_computes());
    assert!(!QueueFamily { graphics: false, ..FULL }.draws_and_computes());
    assert!(!QueueFamily { compute: false, ..FULL }.draws_and_computes());
}

#[test]
fn unsuitable_devices_do_not_matter() {
    let good = || {
        vec![
            device(DeviceKind::Cpu, vec![FULL]),
            device(DeviceKind::VirtualGpu, vec![QueueFamily { surface: None, ..FULL }, FULL]),
            device(DeviceKind::VirtualGpu, vec![FULL]),
        ]
    };
    assert_eq!(chosen(good()), Some((1, 1)));

    let mut mixed = good();
    mixed.insert(1, device(DeviceKind::DiscreteGpu, vec![]));
    mixed.insert(0, device(DeviceKind::DiscreteGpu, vec![QueueFamily { compute: false, ..FULL }]));
    let mut without = device(DeviceKind::IntegratedGpu, vec![FULL]);
    without.supported_extensions = DeviceExtensions::none();
    mixed.push(without);
    assert_eq!(chosen(mixed), Some((3, 1)));
}
