//! Faces of the cube planet and their outward normals.
use vstd::prelude::*;

verus! {

/// Number of faces of the cube planet; faces are numbered `0..FACE_COUNT`.
pub const FACE_COUNT: usize = 6;

/// A coordinate axis of the world.
#[derive(Clone, Copy, Debug, PartialEq, Eq, Structural)]
pub enum Axis {
    X,
    Y,
    Z,
}

/// The outward normal of a cube face.  Every normal of the planet is a unit
/// vector along one axis, so its components are small integers.
#[derive(Clone, Copy, Debug, PartialEq, Eq, Structural)]
pub struct FaceNormal {
    pub x: i8,
    pub y: i8,
    pub z: i8,
}

impl FaceNormal {
    /// The unit vector along `axis`, pointing to the positive side when
    /// `positive` holds and to the negative side otherwise.
    pub open spec fn unit(axis: Axis, positive: bool) -> FaceNormal {
        let s: i8 = if positive { 1i8 } else { -1i8 };
        match axis {
            Axis::X => FaceNormal { x: s, y: 0, z: 0 },
            Axis::Y => FaceNormal { x: 0, y: s, z: 0 },
            Axis::Z => FaceNormal { x: 0, y: 0, z: s },
        }
    }

    /// The vector pointing the other way.
    pub open spec fn negated(self) -> FaceNormal {
        FaceNormal { x: (-self.x) as i8, y: (-self.y) as i8, z: (-self.z) as i8 }
    }

    /// Each component is -1, 0 or 1, and exactly one of them is non-zero.
    pub open spec fn is_axis_unit(self) -> bool {
        &&& -1 <= self.x <= 1 && -1 <= self.y <= 1 && -1 <= self.z <= 1
        &&& (self.x != 0) as int + (self.y != 0) as int + (self.z != 0) as int == 1
    }

    /// The vector is the zero vector.
    pub open spec fn is_zero(self) -> bool {
        self.x == 0 && self.y == 0 && self.z == 0
    }
}

/// Top (0) and bottom (1) lie across the Y axis, right (2) and left (3)
/// across X, front (4) and back (5) across Z; any other number is read as the
/// top face.
pub open spec fn face_normal_spec(face: int) -> FaceNormal {
    if face == 1 {
        FaceNormal::unit(Axis::Y, false)
    } else if face == 2 {
        FaceNormal::unit(Axis::X, true)
    } else if face == 3 {
        FaceNormal::unit(Axis::X, false)
    } else if face == 4 {
        FaceNormal::unit(Axis::Z, true)
    } else if face == 5 {
        FaceNormal::unit(Axis::Z, false)
    } else {
        FaceNormal::unit(Axis::Y, true)
    }
}

/// The outward normal of `face`; a number outside `0..FACE_COUNT` gives the
/// normal of the top face.
pub fn get_face_normal(face: usize) -> (n: FaceNormal)
    ensures
        n == face_normal_spec(face as int),
        face >= FACE_COUNT ==> n == face_normal_spec(0),
{
    match face {
        0 => FaceNormal { x: 0, y: 1, z: 0 },
        1 => FaceNormal { x: 0, y: -1, z: 0 },
        2 => FaceNormal { x: 1, y: 0, z: 0 },
        3 => FaceNormal { x: -1, y: 0, z: 0 },
        4 => FaceNormal { x: 0, y: 0, z: 1 },
        5 => FaceNormal { x: 0, y: 0, z: -1 },
        _ => FaceNormal { x: 0, y: 1, z: 0 },
    }
}

/// How the three coordinates of a position compare: each `*_ge_*` field says
/// whether the magnitude of the first coordinate is at least that of the
/// second, each `*_nonneg` field whether the coordinate is at least zero.
#[derive(Clone, Copy, Debug, PartialEq, Eq, Structural)]
pub struct AxisComparison {
    pub y_ge_x: bool,
    pub y_ge_z: bool,
    pub x_ge_z: bool,
    pub x_nonneg: bool,
    pub y_nonneg: bool,
    pub z_nonneg: bool,
}

impl AxisComparison {
    /// The axis along which the position reaches farthest.  Ties go to Y
    /// first, then to X.
    pub open spec fn dominant_axis(self) -> Axis {
        if self.y_ge_x && self.y_ge_z {
            Axis::Y
        } else if self.x_ge_z {
            Axis::X
        } else {
            Axis::Z
        }
    }

    /// Whether the position lies on the non-negative side of `axis`.
    pub open spec fn nonneg_along(self, axis: Axis) -> bool {
        match axis {
            Axis::X => self.x_nonneg,
            Axis::Y => self.y_nonneg,
            Axis::Z => self.z_nonneg,
        }
    }

    /// The outward normal of the face that the position belongs to: along the
    /// dominant axis, toward the side the position lies on.
    pub open spec fn surface_normal(self) -> FaceNormal {
        FaceNormal::unit(self.dominant_axis(), self.nonneg_along(self.dominant_axis()))
    }
}

/// The face of the cube that a position belongs to, given how its coordinates
/// compare: the face whose outward normal points along the dominant axis,
/// toward the side the position lies on.
pub fn select_face(probe: &AxisComparison) -> (face: usize)
    ensures
        face < FACE_COUNT,
        face_normal_spec(face as int) == probe.surface_normal(),
        // |y| at least |x| and |z|: a Y face, on the side of y's sign
        probe.y_ge_x && probe.y_ge_z ==> face == (if probe.y_nonneg { 0usize } else { 1usize }),
        // otherwise |x| at least |z|: an X face, on the side of x's sign
        !(probe.y_ge_x && probe.y_ge_z) && probe.x_ge_z ==> face == (if probe.x_nonneg { 2usize } else { 3usize }),
        // otherwise a Z face, on the side of z's sign
        !(probe.y_ge_x && probe.y_ge_z) && !probe.x_ge_z ==> face == (if probe.z_nonneg { 4usize } else { 5usize }),
{
    if probe.y_ge_x && probe.y_ge_z {
        if probe.y_nonneg {
            0
        } else {
            1
        }
    } else if probe.x_ge_z {
        if probe.x_nonneg {
            2
        } else {
            3
        }
    } else {
        if probe.z_nonneg {
            4
        } else {
            5
        }
    }
}

/// The magnitude of a coordinate.
pub open spec fn magnitude(v: int) -> int {
    if v >= 0 { v } else { -v }
}

/// How the coordinates of the position `(x, y, z)` compare.
pub open spec fn compare_position(x: int, y: int, z: int) -> AxisComparison {
    AxisComparison {
        y_ge_x: magnitude(y) >= magnitude(x),
        y_ge_z: magnitude(y) >= magnitude(z),
        x_ge_z: magnitude(x) >= magnitude(z),
        x_nonneg: x >= 0,
        y_nonneg: y >= 0,
        z_nonneg: z >= 0,
    }
}

/// For every position, the normal of the face it is placed on is a unit axis
/// vector whose dot product with the position is the largest magnitude among
/// its coordinates: the face lies across the farthest-reaching axis, on the
/// side where the position is.  A zero coordinate counts as the positive side,
/// and among equally far axes Y wins, then X.
pub proof fn lemma_face_of_position(x: int, y: int, z: int)
    ensures
        ({
            let n = compare_position(x, y, z).surface_normal();
            let far = if magnitude(y) >= magnitude(x) && magnitude(y) >= magnitude(z) {
                magnitude(y)
            } else if magnitude(x) >= magnitude(z) {
                magnitude(x)
            } else {
                magnitude(z)
            };
            &&& n.is_axis_unit()
            &&& n.x * x + n.y * y + n.z * z == far
            &&& far >= magnitude(x) && far >= magnitude(y) && far >= magnitude(z)
            &&& (n.x == 1 ==> x >= 0) && (n.x == -1 ==> x < 0)
            &&& (n.y == 1 ==> y >= 0) && (n.y == -1 ==> y < 0)
            &&& (n.z == 1 ==> z >= 0) && (n.z == -1 ==> z < 0)
            &&& (magnitude(y) >= magnitude(x) && magnitude(y) >= magnitude(z) ==> n.y != 0)
            &&& (magnitude(x) > magnitude(y) && magnitude(x) >= magnitude(z) ==> n.x != 0)
            &&& (magnitude(z) > magnitude(y) && magnitude(z) > magnitude(x) ==> n.z != 0)
        }),
{
    let n = compare_position(x, y, z).surface_normal();
    if magnitude(y) >= magnitude(x) && magnitude(y) >= magnitude(z) {
        if y >= 0 {
            assert(n == FaceNormal { x: 0, y: 1, z: 0 });
        } else {
            assert(n == FaceNormal { x: 0, y: -1i8, z: 0 });
        }
    } else if magnitude(x) >= magnitude(z) {
        if x >= 0 {
            assert(n == FaceNormal { x: 1, y: 0, z: 0 });
        } else {
            assert(n == FaceNormal { x: -1i8, y: 0, z: 0 });
        }
    } else {
        if z >= 0 {
            assert(n == FaceNormal { x: 0, y: 0, z: 1 });
        } else {
            assert(n == FaceNormal { x: 0, y: 0, z: -1i8 });
        }
    }
}

/// Whatever the probe, the sign of the chosen normal along an axis is fixed by
/// that axis's own sign flag alone: the flags of the other axes never move the
/// walker to the opposite face.
pub proof fn lemma_face_side_follows_own_sign(p: AxisComparison)
    ensures
        p.surface_normal().x == 1 ==> p.x_nonneg,
        p.surface_normal().x == -1 ==> !p.x_nonneg,
        p.surface_normal().y == 1 ==> p.y_nonneg,
        p.surface_normal().y == -1 ==> !p.y_nonneg,
        p.surface_normal().z == 1 ==> p.z_nonneg,
        p.surface_normal().z == -1 ==> !p.z_nonneg,
        p.y_ge_x && p.y_ge_z ==> p.surface_normal().y != 0,
        !(p.y_ge_x && p.y_ge_z) && p.x_ge_z ==> p.surface_normal().x != 0,
        !(p.y_ge_x && p.y_ge_z) && !p.x_ge_z ==> p.surface_normal().z != 0,
{
}

/// Every face normal, also the one given for an unknown face number, is a
/// unit vector along a single axis: never the zero vector, and each component
/// is -1, 0 or 1 with exactly one of them non-zero.
pub proof fn lemma_face_normal_is_axis_unit(face: int)
    ensures
        !face_normal_spec(face).is_zero(),
        face_normal_spec(face).is_axis_unit(),
{
}

/// The faces come in opposite pairs (top and bottom, right and left, front and
/// back) whose normals point in opposite directions.
pub proof fn lemma_paired_faces_are_opposite(pair: int)
    requires
        0 <= pair < 3,
    ensures
        face_normal_spec(2 * pair + 1) == face_normal_spec(2 * pair).negated(),
{
}

/// Distinct faces of the cube have distinct normals, so a normal names its
/// face.
pub proof fn lemma_face_normals_distinct(i: int, j: int)
    requires
        0 <= i < FACE_COUNT,
        0 <= j < FACE_COUNT,
        i != j,
    ensures
        face_normal_spec(i) != face_normal_spec(j),
{
}

/// Every outward unit normal along an axis belongs to exactly one face.
pub proof fn lemma_every_axis_direction_has_a_face(axis: Axis, positive: bool)
    ensures
        exists|face: int| 0 <= face < FACE_COUNT && #[trigger] face_normal_spec(face) == FaceNormal::unit(axis, positive),
{
    let face: int = match axis {
        Axis::Y => if positive { 0 } else { 1 },
        Axis::X => if positive { 2 } else { 3 },
        Axis::Z => if positive { 4 } else { 5 },
    };
    assert(face_normal_spec(face) == FaceNormal::unit(axis, positive));
}

} // verus!
