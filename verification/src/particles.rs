//! The particles' starting positions and how the GPU's work is divided among them.

use vstd::prelude::*;

verus! {

/// The particles start on a cubic lattice with this many of them along each axis.
pub const NUM_PARTICLES_PERAXIS: usize = 100;

/// Half the lattice's width, in steps from one particle to the next.
pub const HALF_WIDTH: i32 = 50;

/// How many particles one compute work group moves.
pub const WORK_GROUP_SIZE: u32 = 32;

/// A starting position, counted in steps of `1 / HALF_WIDTH` from the centre of the box, which
/// reaches from -1 to 1 along each axis.
#[derive(Clone, Copy, Debug, PartialEq, Eq, Structural)]
pub struct LatticePoint {
    pub x: i32,
    pub y: i32,
    pub z: i32,
}

/// The offset from the centre of the `index`-th particle along an axis.
pub open spec fn axis_offset(index: int) -> int {
    index - NUM_PARTICLES_PERAXIS / 2
}

/// How many particles there are.
pub open spec fn particle_total() -> int {
    NUM_PARTICLES_PERAXIS * NUM_PARTICLES_PERAXIS * NUM_PARTICLES_PERAXIS
}

/// The place in the list of the particle at the given lattice indices: `z` changes fastest,
/// `x` slowest.
pub open spec fn lattice_index(x: int, y: int, z: int) -> int {
    (x * NUM_PARTICLES_PERAXIS + y) * NUM_PARTICLES_PERAXIS + z
}

/// The lattice indices lie within the lattice.
pub open spec fn on_lattice(x: int, y: int, z: int) -> bool {
    &&& 0 <= x < NUM_PARTICLES_PERAXIS
    &&& 0 <= y < NUM_PARTICLES_PERAXIS
    &&& 0 <= z < NUM_PARTICLES_PERAXIS
}

/// `point` is the position of the particle with the given lattice indices.
pub open spec fn at(point: LatticePoint, x: int, y: int, z: int) -> bool {
    &&& point.x == axis_offset(x)
    &&& point.y == axis_offset(y)
    &&& point.z == axis_offset(z)
}

/// `points` lists the whole lattice in the order of `lattice_index`.
pub open spec fn is_lattice(points: Seq<LatticePoint>) -> bool {
    &&& points.len() == particle_total()
    &&& forall|x: int, y: int, z: int|
        on_lattice(x, y, z) ==> {
            &&& 0 <= #[trigger] lattice_index(x, y, z) < points.len()
            &&& at(points[lattice_index(x, y, z)], x, y, z)
        }
}

/// The first `points.len()` particles in listing order, each at its place on the lattice.
spec fn lattice_prefix(points: Seq<LatticePoint>) -> bool {
    forall|x: int, y: int, z: int|
        on_lattice(x, y, z) && #[trigger] lattice_index(x, y, z) < points.len() ==> at(
            points[lattice_index(x, y, z)],
            x,
            y,
            z,
        )
}

/// Each place in the list belongs to one triple of lattice indices only.
proof fn lemma_lattice_index_injective(x1: int, y1: int, z1: int, x2: int, y2: int, z2: int)
    requires
        on_lattice(x1, y1, z1),
        on_lattice(x2, y2, z2),
        lattice_index(x1, y1, z1) == lattice_index(x2, y2, z2),
    ensures
        x1 == x2,
        y1 == y2,
        z1 == z2,
{
}

/// The starting positions of all particles.
pub fn initial_points() -> (points: Vec<LatticePoint>)
    ensures
        is_lattice(points@),
{
    let mut points: Vec<LatticePoint> = Vec::new();
    let mut x: i32 = 0;
    while x < NUM_PARTICLES_PERAXIS as i32
        invariant
            0 <= x <= NUM_PARTICLES_PERAXIS,
            points@.len() == lattice_index(x as int, 0, 0),
            lattice_prefix(points@),
        decreases NUM_PARTICLES_PERAXIS - x,
    {
        let mut y: i32 = 0;
        while y < NUM_PARTICLES_PERAXIS as i32
            invariant
                0 <= x < NUM_PARTICLES_PERAXIS,
                0 <= y <= NUM_PARTICLES_PERAXIS,
                points@.len() == lattice_index(x as int, y as int, 0),
                lattice_prefix(points@),
            decreases NUM_PARTICLES_PERAXIS - y,
        {
            let mut z: i32 = 0;
            while z < NUM_PARTICLES_PERAXIS as i32
                invariant
                    0 <= x < NUM_PARTICLES_PERAXIS,
                    0 <= y < NUM_PARTICLES_PERAXIS,
                    0 <= z <= NUM_PARTICLES_PERAXIS,
                    points@.len() == lattice_index(x as int, y as int, z as int),
                    lattice_prefix(points@),
                decreases NUM_PARTICLES_PERAXIS - z,
            {
                let ghost before = points@;
                points.push(
                    LatticePoint { x: x - HALF_WIDTH, y: y - HALF_WIDTH, z: z - HALF_WIDTH },
                );
                assert forall|a: int, b: int, c: int|
                    on_lattice(a, b, c) && #[trigger] lattice_index(a, b, c)
                        < points@.len() implies at(
                    points@[lattice_index(a, b, c)],
                    a,
                    b,
                    c,
                ) by {
                    if lattice_index(a, b, c) == before.len() {
                        lemma_lattice_index_injective(a, b, c, x as int, y as int, z as int);
                    } else {
                        assert(points@[lattice_index(a, b, c)] == before[lattice_index(a, b, c)]);
                    }
                }
                z = z + 1;
            }
            y = y + 1;
        }
        x = x + 1;
    }
    points
}

/// No two particles start at the same position: different places in the list hold different
/// points.
pub proof fn law_positions_are_distinct(points: Seq<LatticePoint>, i: int, j: int)
    requires
        is_lattice(points),
        0 <= i < j < points.len(),
    ensures
        points[i] != points[j],
{
    lemma_listed(points, i);
    lemma_listed(points, j);
}

/// Each place in the list is that of its own quotients and remainder.
proof fn lemma_listed(points: Seq<LatticePoint>, i: int)
    requires
        is_lattice(points),
        0 <= i < points.len(),
    ensures
        on_lattice(i / 10_000, i / 100 % 100, i % 100),
        lattice_index(i / 10_000, i / 100 % 100, i % 100) == i,
        at(points[i], i / 10_000, i / 100 % 100, i % 100),
{
    assert(lattice_index(i / 10_000, i / 100 % 100, i % 100) == i);
}

/// Every particle starts inside the box: from -1 to just under 1 along each axis.
pub proof fn law_positions_are_in_the_box(points: Seq<LatticePoint>, i: int)
    requires
        is_lattice(points),
        0 <= i < points.len(),
    ensures
        -HALF_WIDTH <= points[i].x < HALF_WIDTH,
        -HALF_WIDTH <= points[i].y < HALF_WIDTH,
        -HALF_WIDTH <= points[i].z < HALF_WIDTH,
{
    lemma_listed(points, i);
}

/// The number of particles as the GPU's commands take it: the low 32 bits of the buffer's
/// length.
pub open spec fn command_count(particles: u64) -> u32 {
    (particles % 0x1_0000_0000) as u32
}

/// The low 32 bits of the buffer's length.
pub fn vertex_count(particles: u64) -> (count: u32)
    ensures
        count == command_count(particles),
{
    let count: u32 = (particles % 0x1_0000_0000) as u32;
    count
}

/// How many work groups are dispatched: one for each full group of particles.
pub fn work_groups(particles: u64) -> (groups: u32)
    ensures
        groups == command_count(particles) / WORK_GROUP_SIZE,
{
    vertex_count(particles) / WORK_GROUP_SIZE
}

/// The dispatched work groups cover every particle of the lattice, and no group reaches past
/// the last one.
pub proof fn law_work_groups_cover_the_particles()
    ensures
        command_count(particle_total() as u64) == particle_total(),
        (command_count(particle_total() as u64) / WORK_GROUP_SIZE) * WORK_GROUP_SIZE
            == particle_total(),
{
}

/// Whatever the number of particles, no work group reaches past the last one, and fewer than a
/// full group of them is left out.
pub proof fn law_work_groups_leave_less_than_a_group(particles: u64)
    requires
        particles <= u32::MAX,
    ensures
        (command_count(particles) / WORK_GROUP_SIZE) * WORK_GROUP_SIZE <= particles,
        particles < (command_count(particles) / WORK_GROUP_SIZE) * WORK_GROUP_SIZE
            + WORK_GROUP_SIZE,
{
}

/// There are a million particles, one hundred along each axis, and the `i`-th one stands where
/// the digits of `i` to the base of a hundred say, counted from the corner at -50 in each axis.
pub proof fn law_position_of_each_particle(points: Seq<LatticePoint>, i: int)
    requires
        is_lattice(points),
        0 <= i < points.len(),
    ensures
        points.len() == 1_000_000,
        points[i].x == i / 10_000 - 50,
        points[i].y == (i / 100) % 100 - 50,
        points[i].z == i % 100 - 50,
{
    lemma_listed(points, i);
}

/// Neighbours in the list are one step apart in the last axis, but for the ends of the rows.
pub proof fn law_next_particle(points: Seq<LatticePoint>, i: int)
    requires
        is_lattice(points),
        0 <= i < points.len() - 1,
        points[i].z < 49,
    ensures
        points[i + 1].x == points[i].x,
        points[i + 1].y == points[i].y,
        points[i + 1].z == points[i].z + 1,
{
    lemma_listed(points, i);
    lemma_listed(points, i + 1);
}

/// The steps of the lattice divide the box's half width evenly: as many on each side of the
/// centre as the lattice has.
pub proof fn law_lattice_is_centred()
    ensures
        2 * HALF_WIDTH == NUM_PARTICLES_PERAXIS,
        HALF_WIDTH == 50,
        WORK_GROUP_SIZE == 32,
{
}

/// The count handed to the GPU is the number of particles, less as many times 2^32 as it takes
/// to fit; the work groups of 32 are as many as it fills.
pub proof fn law_counts(particles: u64)
    ensures
        particles <= u32::MAX ==> command_count(particles) == particles,
        (particles - command_count(particles)) % 0x1_0000_0000 == 0,
        (command_count(particles) / WORK_GROUP_SIZE) * 32 <= command_count(particles),
        command_count(particles) < (command_count(particles) / WORK_GROUP_SIZE) * 32 + 32,
{
}

} // verus!
