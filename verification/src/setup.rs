//! What is set up once, before the first frame: the image formats, the GPU buffers with their
//! first contents, and the shaders' descriptors.

use vstd::prelude::*;

use crate::particles::{initial_points, is_lattice, particle_total, LatticePoint};
use crate::pressure::{grid_fits, pressure_buffer_len};

verus! {

/// The formats of images that the simulation tells apart.
#[derive(Clone, Copy, Debug, PartialEq, Eq, Structural)]
pub enum PixelFormat {
    R8G8B8A8Unorm,
    B8G8R8A8Unorm,
    D16Unorm,
    Other,
}

/// The colour spaces of surfaces that the simulation tells apart.
#[derive(Clone, Copy, Debug, PartialEq, Eq, Structural)]
pub enum ColorSpace {
    SrgbNonLinear,
    Other,
}

/// A format and colour space that the window's surface offers.
#[derive(Clone, Copy, Debug, PartialEq, Eq, Structural)]
pub struct SurfaceFormat {
    pub format: PixelFormat,
    pub color_space: ColorSpace,
}

/// The format of the depth buffer.
pub const DEPTH_FORMAT: PixelFormat = PixelFormat::D16Unorm;

/// Why the simulation cannot be set up.
#[derive(Clone, Copy, Debug, PartialEq, Eq, Structural)]
pub enum SetupError {
    NoSuitableColorFormat,
}

impl SetupError {
    /// The text to show to the user.
    pub fn message(&self) -> (message: &'static str)
        ensures
            message@ == "no suitable color formats"@,
    {
        match self {
            SetupError::NoSuitableColorFormat => "no suitable color formats",
        }
    }
}

impl SurfaceFormat {
    /// Eight bits for each of four channels, in the nonlinear sRGB space.
    pub open spec fn suitable(self) -> bool {
        &&& self.color_space == ColorSpace::SrgbNonLinear
        &&& self.format == PixelFormat::R8G8B8A8Unorm || self.format == PixelFormat::B8G8R8A8Unorm
    }

    /// Whether the simulation can draw in this format.
    pub fn is_suitable(&self) -> (suitable: bool)
        ensures
            suitable == self.suitable(),
    {
        self.color_space == ColorSpace::SrgbNonLinear && (self.format
            == PixelFormat::R8G8B8A8Unorm || self.format == PixelFormat::B8G8R8A8Unorm)
    }
}

/// The entry at `index` is the first suitable one.
pub open spec fn first_suitable(formats: Seq<SurfaceFormat>, index: int) -> bool {
    &&& 0 <= index < formats.len()
    &&& formats[index].suitable()
    &&& forall|i: int| 0 <= i < index ==> !(#[trigger] formats[i]).suitable()
}

/// The outcome of choosing a format is the first suitable one, or the error where there is none.
pub open spec fn chosen_format(
    formats: Seq<SurfaceFormat>,
    choice: Result<PixelFormat, SetupError>,
) -> bool {
    match choice {
        Ok(format) => exists|index: int| #[trigger]
            first_suitable(formats, index) && formats[index].format == format,
        Err(error) => {
            &&& error == SetupError::NoSuitableColorFormat
            &&& forall|i: int| 0 <= i < formats.len() ==> !(#[trigger] formats[i]).suitable()
        },
    }
}

/// Chooses the format of the window's images: the first suitable one that the surface offers.
pub fn choose_color_format(formats: &Vec<SurfaceFormat>) -> (choice: Result<
    PixelFormat,
    SetupError,
>)
    ensures
        chosen_format(formats@, choice),
{
    let mut i: usize = 0;
    while i < formats.len()
        invariant
            i <= formats@.len(),
            forall|j: int| 0 <= j < i ==> !(#[trigger] formats@[j]).suitable(),
        decreases formats@.len() - i,
    {
        if formats[i].is_suitable() {
            assert(first_suitable(formats@, i as int));
            return Ok(formats[i].format);
        }
        i = i + 1;
    }
    Err(SetupError::NoSuitableColorFormat)
}

/// Two suitable formats that could be chosen from one list are the same: the choice depends on
/// the list alone.
pub proof fn law_color_format_is_determined(
    formats: Seq<SurfaceFormat>,
    one: Result<PixelFormat, SetupError>,
    other: Result<PixelFormat, SetupError>,
)
    requires
        chosen_format(formats, one),
        chosen_format(formats, other),
    ensures
        one == other,
{
    if let (Ok(f), Ok(g)) = (one, other) {
        let i = choose|i: int| #[trigger] first_suitable(formats, i) && formats[i].format == f;
        let j = choose|j: int| #[trigger] first_suitable(formats, j) && formats[j].format == g;
        assert(i == j);
    }
}

/// A GPU buffer: how many elements it has, what it is used for besides being filled, and
/// whether every word of it is set to zero first.
#[derive(Clone, Copy, Debug, PartialEq, Eq, Structural)]
pub struct BufferPlan {
    pub len: u64,
    pub transfer_destination: bool,
    pub vertex_buffer: bool,
    pub storage_buffer: bool,
    pub cleared: bool,
}

/// The buffers that the compute shader works on.
#[derive(Clone, Copy, Debug, PartialEq, Eq, Structural)]
pub enum SimulationBuffer {
    Points,
    Velocities,
    Pressures,
}

/// What a shader finds at a binding.
#[derive(Clone, Copy, Debug, PartialEq, Eq, Structural)]
pub enum DescriptorKind {
    Storage(SimulationBuffer),
    Uniform,
}

/// The stage of the pipeline that reads a descriptor.
#[derive(Clone, Copy, Debug, PartialEq, Eq, Structural)]
pub enum ShaderStage {
    Compute,
    Vertex,
}

/// One binding of a descriptor set.
#[derive(Clone, Copy, Debug, PartialEq, Eq, Structural)]
pub struct DescriptorBinding {
    pub binding: u32,
    pub kind: DescriptorKind,
    pub stage: ShaderStage,
}

/// Everything that is decided before the first frame.
pub struct SetupPlan {
    pub color_format: PixelFormat,
    pub depth_format: PixelFormat,
    /// The first contents of the points buffer.
    pub points: Vec<LatticePoint>,
    pub points_buffer: BufferPlan,
    pub velocities_buffer: BufferPlan,
    pub pressures_buffer: BufferPlan,
    /// The compute shader's first descriptor set.
    pub compute_storage: Vec<DescriptorBinding>,
    /// The compute shader's second descriptor set.
    pub compute_uniform: Vec<DescriptorBinding>,
    /// The vertex shader's only descriptor set.
    pub vertex_uniform: Vec<DescriptorBinding>,
    /// The number of cells of the pressure grid.
    pub cells: u64,
}

/// The descriptor of a simulation buffer in the compute shader.
pub open spec fn storage_binding(binding: u32, buffer: SimulationBuffer) -> DescriptorBinding {
    DescriptorBinding {
        binding,
        kind: DescriptorKind::Storage(buffer),
        stage: ShaderStage::Compute,
    }
}

/// The descriptor of a stage's uniforms, alone in its set.
pub open spec fn uniform_binding(stage: ShaderStage) -> DescriptorBinding {
    DescriptorBinding { binding: 0, kind: DescriptorKind::Uniform, stage }
}

impl SetupPlan {
    /// The plan for a colour format and a pressure grid.
    pub open spec fn made_for(self, color_format: PixelFormat, cells: u64) -> bool {
        &&& self.color_format == color_format
        &&& self.depth_format == DEPTH_FORMAT
        &&& is_lattice(self.points@)
        &&& self.points_buffer == (BufferPlan {
            len: particle_total() as u64,
            transfer_destination: true,
            vertex_buffer: true,
            storage_buffer: true,
            cleared: false,
        })
        &&& self.velocities_buffer == (BufferPlan {
            len: particle_total() as u64,
            transfer_destination: true,
            vertex_buffer: false,
            storage_buffer: true,
            cleared: true,
        })
        &&& self.pressures_buffer == (BufferPlan {
            len: (cells * 2) as u64,
            transfer_destination: true,
            vertex_buffer: false,
            storage_buffer: true,
            cleared: true,
        })
        &&& self.compute_storage@ == seq![
            storage_binding(0, SimulationBuffer::Points),
            storage_binding(1, SimulationBuffer::Velocities),
            storage_binding(2, SimulationBuffer::Pressures),
        ]
        &&& self.compute_uniform@ == seq![uniform_binding(ShaderStage::Compute)]
        &&& self.vertex_uniform@ == seq![uniform_binding(ShaderStage::Vertex)]
        &&& self.cells == cells
    }
}

/// Plans the buffers and descriptors for a colour format and a grid of `cells` pressure cells.
fn plan_resources(color_format: PixelFormat, cells: u64) -> (plan: SetupPlan)
    requires
        grid_fits(cells),
    ensures
        plan.made_for(color_format, cells),
{
    let points = initial_points();
    let particles: u64 = points.len() as u64;
    let compute_storage: Vec<DescriptorBinding> = vec![
        DescriptorBinding {
            binding: 0,
            kind: DescriptorKind::Storage(SimulationBuffer::Points),
            stage: ShaderStage::Compute,
        },
        DescriptorBinding {
            binding: 1,
            kind: DescriptorKind::Storage(SimulationBuffer::Velocities),
            stage: ShaderStage::Compute,
        },
        DescriptorBinding {
            binding: 2,
            kind: DescriptorKind::Storage(SimulationBuffer::Pressures),
            stage: ShaderStage::Compute,
        },
    ];
    let compute_uniform: Vec<DescriptorBinding> = vec![
        DescriptorBinding {
            binding: 0,
            kind: DescriptorKind::Uniform,
            stage: ShaderStage::Compute,
        },
    ];
    let vertex_uniform: Vec<DescriptorBinding> = vec![
        DescriptorBinding { binding: 0, kind: DescriptorKind::Uniform, stage: ShaderStage::Vertex },
    ];
    assert(compute_storage@ =~= seq![
        storage_binding(0, SimulationBuffer::Points),
        storage_binding(1, SimulationBuffer::Velocities),
        storage_binding(2, SimulationBuffer::Pressures),
    ]);
    assert(compute_uniform@ =~= seq![uniform_binding(ShaderStage::Compute)]);
    assert(vertex_uniform@ =~= seq![uniform_binding(ShaderStage::Vertex)]);
    SetupPlan {
        color_format,
        depth_format: DEPTH_FORMAT,
        points,
        points_buffer: BufferPlan {
            len: particles,
            transfer_destination: true,
            vertex_buffer: true,
            storage_buffer: true,
            cleared: false,
        },
        velocities_buffer: BufferPlan {
            len: particles,
            transfer_destination: true,
            vertex_buffer: false,
            storage_buffer: true,
            cleared: true,
        },
        pressures_buffer: BufferPlan {
            len: pressure_buffer_len(cells),
            transfer_destination: true,
            vertex_buffer: false,
            storage_buffer: true,
            cleared: true,
        },
        compute_storage,
        compute_uniform,
        vertex_uniform,
        cells,
    }
}

/// Plans the whole setup for a surface that offers `formats` and a grid of `cells` pressure
/// cells. Fails if the surface offers no suitable colour format.
pub fn plan_setup(formats: &Vec<SurfaceFormat>, cells: u64) -> (plan: Result<
    SetupPlan,
    SetupError,
>)
    requires
        grid_fits(cells),
    ensures
        match plan {
            Ok(plan) => {
                &&& chosen_format(formats@, Ok(plan.color_format))
                &&& plan.made_for(plan.color_format, cells)
            },
            Err(error) => chosen_format(formats@, Err(error)),
        },
{
    match choose_color_format(formats) {
        Ok(color_format) => Ok(plan_resources(color_format, cells)),
        Err(error) => Err(error),
    }
}

/// Every particle has a velocity, and every shader binding of the storage set is taken by one
/// buffer only.
pub proof fn law_buffers_fit_together(plan: SetupPlan, color_format: PixelFormat, cells: u64)
    requires
        plan.made_for(color_format, cells),
    ensures
        plan.points_buffer.len == plan.points@.len(),
        plan.velocities_buffer.len == plan.points_buffer.len,
        forall|i: int, j: int|
            0 <= i < j < plan.compute_storage@.len() ==> {
                &&& (#[trigger] plan.compute_storage@[i]).binding
                    != (#[trigger] plan.compute_storage@[j]).binding
                &&& plan.compute_storage@[i].kind != plan.compute_storage@[j].kind
            },
{
}

/// The pixels are eight bits for each of red, green, blue and alpha, in one of the two orders,
/// and the colours are in the nonlinear sRGB space.
pub open spec fn can_be_drawn(entry: SurfaceFormat) -> bool {
    &&& entry.color_space is SrgbNonLinear
    &&& entry.format is R8G8B8A8Unorm || entry.format is B8G8R8A8Unorm
}

/// The chosen format is one that the surface offers and that can be drawn, and no entry before it
/// can be. The choice fails if and only if no entry can be drawn.
pub proof fn law_color_format(
    formats: Seq<SurfaceFormat>,
    choice: Result<PixelFormat, SetupError>,
)
    requires
        chosen_format(formats, choice),
    ensures
        choice is Err <==> forall|i: int|
            0 <= i < formats.len() ==> !can_be_drawn(#[trigger] formats[i]),
        choice matches Ok(format) ==> exists|i: int|
            {
                &&& 0 <= i < formats.len()
                &&& (#[trigger] formats[i]).format == format
                &&& can_be_drawn(formats[i])
                &&& forall|j: int| 0 <= j < i ==> !can_be_drawn(#[trigger] formats[j])
            },
{
    if let Ok(format) = choice {
        let index = choose|index: int| #[trigger]
            first_suitable(formats, index) && formats[index].format == format;
        assert(formats[index].suitable());
        assert forall|j: int| 0 <= j < index implies !can_be_drawn(#[trigger] formats[j]) by {
            assert(!formats[j].suitable());
        }
        assert(can_be_drawn(formats[index]));
    } else {
        assert forall|i: int| 0 <= i < formats.len() implies !can_be_drawn(
            #[trigger] formats[i],
        ) by {
            assert(!formats[i].suitable());
        }
    }
}

/// An entry is suitable if and only if it can be drawn.
pub proof fn law_suitable_format(entry: SurfaceFormat)
    ensures
        entry.suitable() <==> can_be_drawn(entry),
{
}

/// Formats that the surface offers behind a suitable one never change the choice.
pub proof fn law_later_formats_do_not_matter(
    formats: Seq<SurfaceFormat>,
    more: Seq<SurfaceFormat>,
    format: PixelFormat,
)
    requires
        chosen_format(formats, Ok(format)),
    ensures
        chosen_format(formats + more, Ok(format)),
{
    let index = choose|index: int| #[trigger]
        first_suitable(formats, index) && formats[index].format == format;
    assert((formats + more)[index] == formats[index]);
    assert forall|i: int| 0 <= i < index implies !(#[trigger] (formats + more)[i]).suitable() by {
        assert((formats + more)[i] == formats[i]);
    }
    assert(first_suitable(formats + more, index));
}

/// The pressure buffer holds two copies of the grid, and whichever half is cleared before a frame
/// lies within it. Points and velocities have an element for each of the particles.
pub proof fn law_buffer_lengths(plan: SetupPlan, color_format: PixelFormat, cells: u64)
    requires
        plan.made_for(color_format, cells),
        cells <= u64::MAX / 2,
    ensures
        plan.cells == cells,
        plan.pressures_buffer.len == 2 * plan.cells,
        plan.points@.len() == 1_000_000,
        plan.points_buffer.len == plan.points@.len(),
        plan.velocities_buffer.len == plan.points@.len(),
        forall|flag: bool|
            {
                let half = #[trigger] crate::pressure::destination_half(flag, plan.cells);
                half.start <= half.end <= plan.pressures_buffer.len
            },
{
}

/// All buffers can be filled from the outside and used by the compute shader; only the points are
/// drawn from, and they alone get their first contents by a copy instead of being cleared.
pub proof fn law_buffer_uses(plan: SetupPlan, color_format: PixelFormat, cells: u64)
    requires
        plan.made_for(color_format, cells),
    ensures
        plan.points_buffer.transfer_destination,
        plan.velocities_buffer.transfer_destination,
        plan.pressures_buffer.transfer_destination,
        plan.points_buffer.storage_buffer,
        plan.velocities_buffer.storage_buffer,
        plan.pressures_buffer.storage_buffer,
        plan.points_buffer.vertex_buffer,
        !plan.velocities_buffer.vertex_buffer,
        !plan.pressures_buffer.vertex_buffer,
        !plan.points_buffer.cleared,
        plan.velocities_buffer.cleared,
        plan.pressures_buffer.cleared,
{
}

/// The plan has the chosen colour format and a 16-bit depth format. The compute shader finds the
/// points, velocities and pressures at its bindings 0, 1 and 2, and each shader that has uniforms
/// finds them at binding 0 of a set of their own.
pub proof fn law_formats_and_bindings(plan: SetupPlan, color_format: PixelFormat, cells: u64)
    requires
        plan.made_for(color_format, cells),
    ensures
        plan.color_format == color_format,
        plan.depth_format is D16Unorm,
        plan.compute_storage@.len() == 3,
        forall|i: int|
            0 <= i < 3 ==> {
                &&& (#[trigger] plan.compute_storage@[i]).binding == i
                &&& plan.compute_storage@[i].stage is Compute
                &&& plan.compute_storage@[i].kind is Storage
            },
        plan.compute_storage@[0].kind->Storage_0 is Points,
        plan.compute_storage@[1].kind->Storage_0 is Velocities,
        plan.compute_storage@[2].kind->Storage_0 is Pressures,
        plan.compute_uniform@.len() == 1,
        plan.compute_uniform@[0].binding == 0,
        plan.compute_uniform@[0].kind is Uniform,
        plan.compute_uniform@[0].stage is Compute,
        plan.vertex_uniform@.len() == 1,
        plan.vertex_uniform@[0].binding == 0,
        plan.vertex_uniform@[0].kind is Uniform,
        plan.vertex_uniform@[0].stage is Vertex,
{
}

} // verus!
