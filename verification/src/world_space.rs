//! World-space instancing: per-instance transforms (a position and a unit
//! rotation quaternion) and their flattening into the matrix form the GPU
//! consumes.
//!
//! Rotation components are fixed-point, scaled by [`ROT_SCALE`]; matrix
//! entries of the raw form are scaled by `ROT_SCALE²`, so a raw entry `e`
//! stands for the real value `e / ROT_SCALE²`. With that convention every
//! entry of the flattened matrix is proved equal to the corresponding entry
//! of the product `translation(position) * rotation_matrix(rotation)`.
use vstd::prelude::*;

use crate::Span;

verus! {

/// Fixed-point scale of rotation components: a real component `q` is
/// stored as `q * ROT_SCALE`.
pub const ROT_SCALE: i64 = 1024;

/// Largest world-coordinate magnitude a transform position may hold.
pub const POS_LIMIT: i64 = 0x4000_0000;

/// A world-space vector with integer coordinates.
#[derive(Clone, Copy, PartialEq, Eq, Structural, Debug)]
pub struct Vec3 {
    pub x: i64,
    pub y: i64,
    pub z: i64,
}

/// A rotation quaternion `s + xi + yj + zk`, each component fixed-point
/// scaled by [`ROT_SCALE`]; a unit rotation has `s² + x² + y² + z² ≈
/// ROT_SCALE²`.
#[derive(Clone, Copy, PartialEq, Eq, Structural, Debug)]
pub struct Quat {
    pub s: i64,
    pub x: i64,
    pub y: i64,
    pub z: i64,
}

impl Quat {
    /// The identity rotation.
    pub fn one() -> (r: Quat)
        ensures
            r == (Quat { s: ROT_SCALE as i64, x: 0, y: 0, z: 0 }),
    {
        Quat { s: ROT_SCALE, x: 0, y: 0, z: 0 }
    }
}

/// One instance of an entity: where it stands and how it is turned.
#[derive(Clone, Copy, PartialEq, Eq, Structural, Debug)]
pub struct InstanceTransform {
    pub position: Vec3,
    pub rotation: Quat,
}

impl InstanceTransform {
    /// Components stay in the fixed-point ranges that keep the flattened
    /// matrix arithmetic exact in 64 bits.
    pub open spec fn wf(self) -> bool {
        &&& -ROT_SCALE <= self.rotation.s <= ROT_SCALE
        &&& -ROT_SCALE <= self.rotation.x <= ROT_SCALE
        &&& -ROT_SCALE <= self.rotation.y <= ROT_SCALE
        &&& -ROT_SCALE <= self.rotation.z <= ROT_SCALE
        &&& -POS_LIMIT <= self.position.x <= POS_LIMIT
        &&& -POS_LIMIT <= self.position.y <= POS_LIMIT
        &&& -POS_LIMIT <= self.position.z <= POS_LIMIT
    }

    /// Flattens the transform into the matrix pair the GPU consumes: the
    /// homogeneous model matrix `translation(position) *
    /// rotation_matrix(rotation)` and the 3×3 normal matrix
    /// `rotation_matrix(rotation)`, entry for entry ([`raw_matches`]).
    pub fn to_raw(&self) -> (r: InstanceRaw)
        requires
            self.wf(),
        ensures
            raw_matches(*self, r),
    {
        let ss: i64 = ROT_SCALE * ROT_SCALE;
        let s = self.rotation.s;
        let x = self.rotation.x;
        let y = self.rotation.y;
        let z = self.rotation.z;
        proof {
            let sc = ROT_SCALE as int;
            assert(0 <= x * x <= sc * sc && 0 <= y * y <= sc * sc && 0 <= z * z <= sc * sc
                && -(sc * sc) <= x * y <= sc * sc && -(sc * sc) <= x * z <= sc * sc && -(sc * sc)
                <= y * z <= sc * sc && -(sc * sc) <= s * x <= sc * sc && -(sc * sc) <= s * y <= sc
                * sc && -(sc * sc) <= s * z <= sc * sc) by (nonlinear_arith)
                requires
                    -sc <= s <= sc,
                    -sc <= x <= sc,
                    -sc <= y <= sc,
                    -sc <= z <= sc,
            ;
            let pl = POS_LIMIT as int;
            assert(-(pl * sc * sc) <= self.position.x * (sc * sc) <= pl * sc * sc && -(pl * sc
                * sc) <= self.position.y * (sc * sc) <= pl * sc * sc && -(pl * sc * sc)
                <= self.position.z * (sc * sc) <= pl * sc * sc) by (nonlinear_arith)
                requires
                    -pl <= self.position.x <= pl,
                    -pl <= self.position.y <= pl,
                    -pl <= self.position.z <= pl,
                    sc == 1024,
            ;
        }
        let normal = Mat3 {
            c0r0: ss - 2 * (y * y + z * z),
            c0r1: 2 * (x * y + s * z),
            c0r2: 2 * (x * z - s * y),
            c1r0: 2 * (x * y - s * z),
            c1r1: ss - 2 * (x * x + z * z),
            c1r2: 2 * (y * z + s * x),
            c2r0: 2 * (x * z + s * y),
            c2r1: 2 * (y * z - s * x),
            c2r2: ss - 2 * (x * x + y * y),
        };
        let model = Mat4 {
            c0r0: normal.c0r0,
            c0r1: normal.c0r1,
            c0r2: normal.c0r2,
            c0r3: 0,
            c1r0: normal.c1r0,
            c1r1: normal.c1r1,
            c1r2: normal.c1r2,
            c1r3: 0,
            c2r0: normal.c2r0,
            c2r1: normal.c2r1,
            c2r2: normal.c2r2,
            c2r3: 0,
            c3r0: self.position.x * ss,
            c3r1: self.position.y * ss,
            c3r2: self.position.z * ss,
            c3r3: ss,
        };
        InstanceRaw { model, normal }
    }
}

/// A column-major 4×4 matrix of fixed-point entries (scale `ROT_SCALE²`).
#[derive(Clone, Copy, PartialEq, Eq, Structural, Debug)]
pub struct Mat4 {
    pub c0r0: i64,
    pub c0r1: i64,
    pub c0r2: i64,
    pub c0r3: i64,
    pub c1r0: i64,
    pub c1r1: i64,
    pub c1r2: i64,
    pub c1r3: i64,
    pub c2r0: i64,
    pub c2r1: i64,
    pub c2r2: i64,
    pub c2r3: i64,
    pub c3r0: i64,
    pub c3r1: i64,
    pub c3r2: i64,
    pub c3r3: i64,
}

/// A column-major 3×3 matrix of fixed-point entries (scale `ROT_SCALE²`).
#[derive(Clone, Copy, PartialEq, Eq, Structural, Debug)]
pub struct Mat3 {
    pub c0r0: i64,
    pub c0r1: i64,
    pub c0r2: i64,
    pub c1r0: i64,
    pub c1r1: i64,
    pub c1r2: i64,
    pub c2r0: i64,
    pub c2r1: i64,
    pub c2r2: i64,
}

/// The GPU-consumable form of one instance: the homogeneous model matrix
/// and the normal matrix.
#[derive(Clone, Copy, PartialEq, Eq, Structural, Debug)]
pub struct InstanceRaw {
    pub model: Mat4,
    pub normal: Mat3,
}

/// Component `r` (0, 1 or 2) of a vector.
pub open spec fn vec3_axis(p: Vec3, r: int) -> int {
    if r == 0 {
        p.x as int
    } else if r == 1 {
        p.y as int
    } else {
        p.z as int
    }
}

/// Column-major entry `(c, r)` of the homogeneous translation matrix of
/// `p`: the identity with `p` as its last column (unscaled).
pub open spec fn translation_entry(p: Vec3, c: int, r: int) -> int {
    if c == 3 && r < 3 {
        vec3_axis(p, r)
    } else if c == r {
        1
    } else {
        0
    }
}

/// Column-major entry `(c, r)` of the rotation matrix of the quaternion
/// `q`, scaled by `ROT_SCALE²`: the standard conversion of a unit
/// quaternion to a 3×3 rotation matrix.
pub open spec fn rotation_entry(q: Quat, c: int, r: int) -> int {
    let ss = (ROT_SCALE * ROT_SCALE) as int;
    if c == 0 && r == 0 {
        ss - 2 * (q.y * q.y + q.z * q.z)
    } else if c == 0 && r == 1 {
        2 * (q.x * q.y + q.s * q.z)
    } else if c == 0 && r == 2 {
        2 * (q.x * q.z - q.s * q.y)
    } else if c == 1 && r == 0 {
        2 * (q.x * q.y - q.s * q.z)
    } else if c == 1 && r == 1 {
        ss - 2 * (q.x * q.x + q.z * q.z)
    } else if c == 1 && r == 2 {
        2 * (q.y * q.z + q.s * q.x)
    } else if c == 2 && r == 0 {
        2 * (q.x * q.z + q.s * q.y)
    } else if c == 2 && r == 1 {
        2 * (q.y * q.z - q.s * q.x)
    } else {
        ss - 2 * (q.x * q.x + q.y * q.y)
    }
}

/// The rotation matrix lifted to homogeneous 4×4 form (scale `ROT_SCALE²`).
pub open spec fn rotation4_entry(q: Quat, c: int, r: int) -> int {
    if c < 3 && r < 3 {
        rotation_entry(q, c, r)
    } else if c == 3 && r == 3 {
        (ROT_SCALE * ROT_SCALE) as int
    } else {
        0
    }
}

/// Column-major entry `(c, r)` of the matrix product
/// `translation(p) * rotation4(q)` (scale `ROT_SCALE²`).
pub open spec fn model_entry(p: Vec3, q: Quat, c: int, r: int) -> int {
    translation_entry(p, 0, r) * rotation4_entry(q, c, 0) + translation_entry(p, 1, r)
        * rotation4_entry(q, c, 1) + translation_entry(p, 2, r) * rotation4_entry(q, c, 2)
        + translation_entry(p, 3, r) * rotation4_entry(q, c, 3)
}

/// Law: the raw form of a transform is exactly the matrix product
/// `translation(position) * rotation_matrix(rotation)` (and the normal
/// matrix is the rotation matrix), entry for entry.
pub open spec fn raw_matches(t: InstanceTransform, raw: InstanceRaw) -> bool {
    let p = t.position;
    let q = t.rotation;
    &&& raw.model.c0r0 == model_entry(p, q, 0, 0)
    &&& raw.model.c0r1 == model_entry(p, q, 0, 1)
    &&& raw.model.c0r2 == model_entry(p, q, 0, 2)
    &&& raw.model.c0r3 == model_entry(p, q, 0, 3)
    &&& raw.model.c1r0 == model_entry(p, q, 1, 0)
    &&& raw.model.c1r1 == model_entry(p, q, 1, 1)
    &&& raw.model.c1r2 == model_entry(p, q, 1, 2)
    &&& raw.model.c1r3 == model_entry(p, q, 1, 3)
    &&& raw.model.c2r0 == model_entry(p, q, 2, 0)
    &&& raw.model.c2r1 == model_entry(p, q, 2, 1)
    &&& raw.model.c2r2 == model_entry(p, q, 2, 2)
    &&& raw.model.c2r3 == model_entry(p, q, 2, 3)
    &&& raw.model.c3r0 == model_entry(p, q, 3, 0)
    &&& raw.model.c3r1 == model_entry(p, q, 3, 1)
    &&& raw.model.c3r2 == model_entry(p, q, 3, 2)
    &&& raw.model.c3r3 == model_entry(p, q, 3, 3)
    &&& raw.normal.c0r0 == rotation_entry(q, 0, 0)
    &&& raw.normal.c0r1 == rotation_entry(q, 0, 1)
    &&& raw.normal.c0r2 == rotation_entry(q, 0, 2)
    &&& raw.normal.c1r0 == rotation_entry(q, 1, 0)
    &&& raw.normal.c1r1 == rotation_entry(q, 1, 1)
    &&& raw.normal.c1r2 == rotation_entry(q, 1, 2)
    &&& raw.normal.c2r0 == rotation_entry(q, 2, 0)
    &&& raw.normal.c2r1 == rotation_entry(q, 2, 1)
    &&& raw.normal.c2r2 == rotation_entry(q, 2, 2)
}

/// Law: the product `translation(p) * rotation4(q)` has the familiar block
/// shape — the rotation matrix in the upper-left 3×3 block, the position
/// (scaled like the rest of the matrix) in the last column, and `0 0 0 1`
/// in the bottom row.
pub proof fn lemma_model_matrix_blocks(p: Vec3, q: Quat)
    ensures
        forall|c: int, r: int|
            0 <= c < 3 && 0 <= r < 3 ==> #[trigger] model_entry(p, q, c, r) == rotation_entry(
                q,
                c,
                r,
            ),
        forall|r: int|
            0 <= r < 3 ==> #[trigger] model_entry(p, q, 3, r) == vec3_axis(p, r) * (ROT_SCALE
                * ROT_SCALE),
        model_entry(p, q, 3, 3) == ROT_SCALE * ROT_SCALE,
        forall|c: int| 0 <= c < 3 ==> #[trigger] model_entry(p, q, c, 3) == 0,
{
}

/// The per-entity set of instances; each instance owns its transform and
/// all of them are drawn by one instanced draw call.
pub struct Instances {
    pub instance_transforms: Vec<InstanceTransform>,
}

impl Instances {
    pub open spec fn wf(self) -> bool {
        &&& self.instance_transforms@.len() <= u32::MAX
        &&& forall|k: int|
            0 <= k < self.instance_transforms@.len() ==> (
            #[trigger] self.instance_transforms@[k]).wf()
    }

    pub fn new(instance_transforms: Vec<InstanceTransform>) -> (r: Self)
        requires
            instance_transforms@.len() <= u32::MAX,
            forall|k: int|
                0 <= k < instance_transforms@.len() ==> (#[trigger] instance_transforms@[k]).wf(),
        ensures
            r.instance_transforms == instance_transforms,
            r.wf(),
    {
        Instances { instance_transforms }
    }

    /// Flattens every transform, in order, into its raw GPU form.
    pub fn get_raw(&self) -> (r: Vec<InstanceRaw>)
        requires
            self.wf(),
        ensures
            r@.len() == self.instance_transforms@.len(),
            forall|k: int|
                0 <= k < r@.len() ==> raw_matches(
                    self.instance_transforms@[k],
                    #[trigger] r@[k],
                ),
    {
        let mut raws: Vec<InstanceRaw> = Vec::new();
        let n = self.instance_transforms.len();
        let mut k: usize = 0;
        while k < n
            invariant
                k <= n,
                n == self.instance_transforms@.len(),
                self.wf(),
                raws@.len() == k,
                forall|m: int|
                    0 <= m < k ==> raw_matches(
                        self.instance_transforms@[m],
                        #[trigger] raws@[m],
                    ),
            decreases n - k,
        {
            let raw = self.instance_transforms[k].to_raw();
            raws.push(raw);
            k += 1;
        }
        raws
    }

    /// The instance range of the one draw call that draws every instance.
    pub fn get_instance_range(&self) -> (r: Span)
        requires
            self.wf(),
        ensures
            r == (Span { start: 0, end: self.instance_transforms@.len() as u32 }),
    {
        Span::full(self.instance_transforms.len() as u32)
    }
}

} // verus!
