use particles::camera::{Camera, Coordinates, Extent};
use particles::particles::{
    initial_points, vertex_count, work_groups, LatticePoint, HALF_WIDTH, NUM_PARTICLES_PERAXIS,
};
use particles::pressure::{
    pressure_buffer_len, pressure_dst_range, which_pressure_buffer_uniform, CellRange,
};
use particles::setup::{
    choose_color_format, plan_setup, BufferPlan, ColorSpace, DescriptorBinding, DescriptorKind,
    PixelFormat, SetupError, ShaderStage, SimulationBuffer, SurfaceFormat,
};

fn srgb(format: PixelFormat) -> SurfaceFormat {
    SurfaceFormat { format, color_space: ColorSpace::SrgbNonLinear }
}

fn other_space(format: PixelFormat) -> SurfaceFormat {
    SurfaceFormat { format, color_space: ColorSpace::Other }
}

#[test]
fn first_suitable_color_format_is_chosen() {
    let formats = vec![
        srgb(PixelFormat::Other),
        other_space(PixelFormat::R8G8B8A8Unorm),
        srgb(PixelFormat::D16Unorm),
        srgb(PixelFormat::B8G8R8A8Unorm),
        srgb(PixelFormat::R8G8B8A8Unorm),
    ];
    assert_eq!(choose_color_format(&formats), Ok(PixelFormat::B8G8R8A8Unorm));
    assert_eq!(
        choose_color_format(&vec![srgb(PixelFormat::R8G8B8A8Unorm)]),
        Ok(PixelFormat::R8G8B8A8Unorm)
    );
}

#[test]
fn no_suitable_color_format() {
    let formats = vec![srgb(PixelFormat::Other), other_space(PixelFormat::B8G8R8A8Unorm)];
    assert_eq!(choose_color_format(&formats), Err(SetupError::NoSuitableColorFormat));
    assert_eq!(choose_color_format(&vec![]), Err(SetupError::NoSuitableColorFormat));
    let error = plan_setup(&formats, 8).err().unwrap();
    assert_eq!(error.message(), "no suitable color formats");
}

#[test]
fn setup_plan() {
    let plan = plan_setup(&vec![srgb(PixelFormat::B8G8R8A8Unorm)], 4096).ok().unwrap();
    assert_eq!(plan.color_format, PixelFormat::B8G8R8A8Unorm);
    assert_eq!(plan.depth_format, PixelFormat::D16Unorm);
    assert_eq!(plan.cells, 4096);
    assert_eq!(plan.points.len(), 1_000_000);
    assert_eq!(
        plan.points_buffer,
        BufferPlan {
            len: 1_000_000,
            transfer_destination: true,
            vertex_buffer: true,
            storage_buffer: true,
            cleared: false,
        }
    );
    assert_eq!(
        plan.velocities_buffer,
        BufferPlan {
            len: 1_000_000,
            transfer_destination: true,
            vertex_buffer: false,
            storage_buffer: true,
            cleared: true,
        }
    );
    assert_eq!(
        plan.pressures_buffer,
        BufferPlan {
            len: 8192,
            transfer_destination: true,
            vertex_buffer: false,
            storage_buffer: true,
            cleared: true,
        }
    );
    let storage = |binding, buffer| DescriptorBinding {
        binding,
        kind: DescriptorKind::Storage(buffer),
        stage: ShaderStage::Compute,
    };
    let uniform =
        |stage| DescriptorBinding { binding: 0, kind: DescriptorKind::Uniform, stage };
    assert_eq!(
        plan.compute_storage,
        vec![
            storage(0, SimulationBuffer::Points),
            storage(1, SimulationBuffer::Velocities),
            storage(2, SimulationBuffer::Pressures),
        ]
    );
    assert_eq!(plan.compute_uniform, vec![uniform(ShaderStage::Compute)]);
    assert_eq!(plan.vertex_uniform, vec![uniform(ShaderStage::Vertex)]);
}

#[test]
fn points_fill_the_lattice_in_order() {
    let points = initial_points();
    assert_eq!(points.len(), NUM_PARTICLES_PERAXIS.pow(3));
    assert_eq!(points[0], LatticePoint { x: -50, y: -50, z: -50 });
    assert_eq!(points[1], LatticePoint { x: -50, y: -50, z: -49 });
    assert_eq!(points[100], LatticePoint { x: -50, y: -49, z: -50 });
    assert_eq!(points[10_000], LatticePoint { x: -49, y: -50, z: -50 });
    assert_eq!(points[102_030], LatticePoint { x: -40, y: -30, z: -20 });
    assert_eq!(points[999_999], LatticePoint { x: 49, y: 49, z: 49 });
}

#[test]
fn points_scale_to_the_unit_box() {
    let per_axis = NUM_PARTICLES_PERAXIS as f32;
    let points = initial_points();
    for index in 0..NUM_PARTICLES_PERAXIS {
        let expected = (index as f32 - per_axis / 2.0) / (per_axis / 2.0);
        assert_eq!(points[index].z as f32 / HALF_WIDTH as f32, expected);
        assert_eq!(points[index * 10_000].x as f32 / HALF_WIDTH as f32, expected);
    }
}

#[test]
fn points_are_distinct_and_in_the_box() {
    let points = initial_points();
    let mut sorted: Vec<(i32, i32, i32)> = points.iter().map(|p| (p.x, p.y, p.z)).collect();
    sorted.sort();
    sorted.dedup();
    assert_eq!(sorted.len(), points.len());
    assert!(points.iter().all(|p| (-50..50).contains(&p.x)
        && (-50..50).contains(&p.y)
        && (-50..50).contains(&p.z)));
}

#[test]
fn work_is_divided_into_groups() {
    assert_eq!(work_groups(1_000_000), 31_250);
    assert_eq!(work_groups(31), 0);
    assert_eq!(work_groups(32), 1);
    assert_eq!(work_groups(63), 1);
    assert_eq!(vertex_count(1_000_000), 1_000_000);
    assert_eq!(vertex_count(0x1_0000_0020), 32);
    assert_eq!(work_groups(0x1_0000_0020), 1);
}

#[test]
fn pressure_halves() {
    assert_eq!(pressure_buffer_len(1000), 2000);
    assert_eq!(pressure_dst_range(true, 1000), CellRange { start: 0, end: 1000 });
    assert_eq!(pressure_dst_range(false, 1000), CellRange { start: 1000, end: 2000 });
    assert_eq!(pressure_dst_range(false, 0), CellRange { start: 0, end: 0 });
    assert_eq!(which_pressure_buffer_uniform(false), 0);
    assert_eq!(which_pressure_buffer_uniform(true), 1);
}

#[test]
fn camera_looks_at_the_centre() {
    let extent = Extent { width: 800, height: 600 };
    assert_eq!(
        Camera::for_window(extent),
        Camera {
            vertical_field_of_view_degrees: 90,
            extent,
            near: 1,
            far: 100,
            eye: Coordinates { x: 0, y: -20, z: -20 },
            target: Coordinates { x: 0, y: 0, z: 0 },
            up: Coordinates { x: 0, y: 1, z: 0 },
        }
    );
}
