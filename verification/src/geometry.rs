//! Points, distances and boxes on an integer grid.
//!
//! A coordinate counts millimetres. Distances are whole millimetres too: the
//! distance between two points is the integer square root of the sum of the
//! squared coordinate differences.

use vstd::prelude::*;

verus! {

/// One metre in grid units.
pub const METRE: i32 = 1000;

/// Whether `r` is the integer square root of `n`: the largest number whose
/// square does not exceed `n`.
pub open spec fn is_sqrt_floor(n: nat, r: nat) -> bool {
    r * r <= n && n < (r + 1) * (r + 1)
}

/// The integer square root of `n`.
pub open spec fn sqrt_floor(n: nat) -> nat {
    choose|r: nat| is_sqrt_floor(n, r)
}

/// Squares grow with their roots.
pub proof fn lemma_square_monotone(a: nat, b: nat)
    requires
        a <= b,
    ensures
        a * a <= b * b,
{
    assert(a * a <= b * b) by (nonlinear_arith)
        requires
            a <= b,
    ;
}

/// At most one number is the integer square root of `n`.
pub proof fn lemma_sqrt_floor_unique(n: nat, r1: nat, r2: nat)
    requires
        is_sqrt_floor(n, r1),
        is_sqrt_floor(n, r2),
    ensures
        r1 == r2,
{
    if r1 < r2 {
        lemma_square_monotone(r1 + 1, r2);
    } else if r2 < r1 {
        lemma_square_monotone(r2 + 1, r1);
    }
}

/// Every number has an integer square root, and `sqrt_floor` names it.
pub proof fn lemma_sqrt_floor(n: nat)
    ensures
        is_sqrt_floor(n, sqrt_floor(n)),
    decreases n,
{
    if n == 0 {
        assert(is_sqrt_floor(0, 0)) by (nonlinear_arith);
    } else {
        lemma_sqrt_floor((n - 1) as nat);
        let r = sqrt_floor((n - 1) as nat);
        if (r + 1) * (r + 1) <= n {
            assert((r + 2) * (r + 2) > (r + 1) * (r + 1)) by (nonlinear_arith);
            assert(is_sqrt_floor(n, r + 1));
        } else {
            assert(is_sqrt_floor(n, r));
        }
    }
}

/// Computes the integer square root by bisection.
pub fn isqrt(n: u128) -> (r: u64)
    ensures
        r == sqrt_floor(n as nat),
        is_sqrt_floor(n as nat, r as nat),
{
    let mut low: u128 = 0;
    let mut high: u128 = 0x1_0000_0000_0000_0000;
    assert(0x1_0000_0000_0000_0000int * 0x1_0000_0000_0000_0000int > u128::MAX) by (nonlinear_arith);
    while high - low > 1
        invariant
            low < high <= 0x1_0000_0000_0000_0000,
            low * low <= n,
            n < high * high,
        decreases high - low,
    {
        let mid: u128 = low + (high - low) / 2;
        assert(mid * mid < 0x1_0000_0000_0000_0000int * 0x1_0000_0000_0000_0000int)
            by (nonlinear_arith)
            requires
                0 <= mid < 0x1_0000_0000_0000_0000int,
        ;
        assert(0x1_0000_0000_0000_0000int * 0x1_0000_0000_0000_0000int
            == 0x1_0000_0000_0000_0000_0000_0000_0000_0000int) by (nonlinear_arith);
        if mid * mid <= n {
            low = mid;
        } else {
            high = mid;
        }
    }
    proof {
        assert(high == low + 1);
        assert(is_sqrt_floor(n as nat, low as nat));
        lemma_sqrt_floor(n as nat);
        lemma_sqrt_floor_unique(n as nat, low as nat, sqrt_floor(n as nat));
    }
    low as u64
}

/// The share `num / den` of a coordinate, rounded towards nothing and held
/// at the ends of the grid; nothing where `den` is nothing.
pub open spec fn scale_coordinate(c: int, num: nat, den: nat) -> i32 {
    if den == 0 {
        0
    } else if c >= 0 {
        clamp_coordinate((c * num) / (den as int))
    } else {
        clamp_coordinate(-(((-c) * num) / (den as int)))
    }
}

fn scaled_coordinate(c: i32, num: u32, den: u64) -> (r: i32)
    ensures
        r == scale_coordinate(c as int, num as nat, den as nat),
{
    if den == 0 {
        return 0;
    }
    let magnitude: u64 = if c < 0 {
        (-(c as i64)) as u64
    } else {
        c as u64
    };
    assert(magnitude * num <= 0x8000_0000 * 0xffff_ffff) by (nonlinear_arith)
        requires
            0 <= magnitude <= 0x8000_0000,
            0 <= num <= 0xffff_ffff,
    ;
    let product: u64 = magnitude * (num as u64);
    let share: u64 = product / den;
    if c >= 0 {
        if share > i32::MAX as u64 {
            i32::MAX
        } else {
            share as i32
        }
    } else if share > 0x8000_0000 {
        i32::MIN
    } else {
        (-(share as i64)) as i32
    }
}

/// A point, or a displacement between two points.
#[derive(Copy, Clone, Debug, PartialEq, Eq, Structural)]
pub struct Vec3 {
    pub x: i32,
    pub y: i32,
    pub z: i32,
}

/// The sum of two coordinates, held at the ends of the grid.
pub open spec fn clamp_coordinate(v: int) -> i32 {
    if v > i32::MAX {
        i32::MAX
    } else if v < i32::MIN {
        i32::MIN
    } else {
        v as i32
    }
}

fn add_coordinate(a: i32, b: i32) -> (r: i32)
    ensures
        r == clamp_coordinate(a + b),
{
    let wide: i64 = a as i64 + b as i64;
    if wide > i32::MAX as i64 {
        i32::MAX
    } else if wide < i32::MIN as i64 {
        i32::MIN
    } else {
        wide as i32
    }
}

impl Vec3 {
    /// The origin of the grid.
    pub open spec fn spec_zero() -> Vec3 {
        Vec3 { x: 0, y: 0, z: 0 }
    }

    /// The squared distance between two points.
    pub open spec fn spec_distance_squared(self, other: Vec3) -> nat {
        ((self.x - other.x) * (self.x - other.x) + (self.y - other.y) * (self.y - other.y) + (
        self.z - other.z) * (self.z - other.z)) as nat
    }

    /// The distance between two points in whole grid units.
    pub open spec fn spec_distance(self, other: Vec3) -> nat {
        sqrt_floor(self.spec_distance_squared(other))
    }

    /// This point moved by `by`, each coordinate held at the ends of the grid.
    pub open spec fn spec_offset(self, by: Vec3) -> Vec3 {
        Vec3 {
            x: clamp_coordinate(self.x + by.x),
            y: clamp_coordinate(self.y + by.y),
            z: clamp_coordinate(self.z + by.z),
        }
    }

    /// This displacement with each coordinate multiplied by `num / den`.
    pub open spec fn spec_scaled(self, num: nat, den: nat) -> Vec3 {
        Vec3 {
            x: scale_coordinate(self.x as int, num, den),
            y: scale_coordinate(self.y as int, num, den),
            z: scale_coordinate(self.z as int, num, den),
        }
    }

    /// The length of this displacement in whole grid units.
    pub open spec fn spec_length(self) -> nat {
        self.spec_distance(Vec3::spec_zero())
    }

    /// The displacement of length one metre along the third axis.
    pub open spec fn spec_forward() -> Vec3 {
        Vec3 { x: 0, y: 0, z: METRE }
    }

    /// This displacement brought to the length of one metre. A
    /// displacement without length has no direction; the third axis stands
    /// in for it.
    pub open spec fn spec_normalized(self) -> Vec3 {
        if self.spec_length() == 0 {
            Vec3::spec_forward()
        } else {
            self.spec_scaled(METRE as nat, self.spec_length())
        }
    }

    /// This displacement with each coordinate multiplied by `num / den`.
    pub fn scaled(&self, num: u32, den: u64) -> (v: Vec3)
        ensures
            v == self.spec_scaled(num as nat, den as nat),
    {
        Vec3 {
            x: scaled_coordinate(self.x, num, den),
            y: scaled_coordinate(self.y, num, den),
            z: scaled_coordinate(self.z, num, den),
        }
    }

    /// This displacement brought to the length of one metre; the third
    /// axis where it has no length.
    pub fn normalized(&self) -> (v: Vec3)
        ensures
            v == self.spec_normalized(),
    {
        let length = self.distance(&Vec3 { x: 0, y: 0, z: 0 });
        if length == 0 {
            Vec3 { x: 0, y: 0, z: METRE }
        } else {
            self.scaled(METRE as u32, length)
        }
    }

    /// The origin of the grid.
    pub fn zero() -> (v: Vec3)
        ensures
            v == Vec3::spec_zero(),
    {
        Vec3 { x: 0, y: 0, z: 0 }
    }

    /// A point from its coordinates.
    pub fn new(x: i32, y: i32, z: i32) -> (v: Vec3)
        ensures
            v == (Vec3 { x, y, z }),
    {
        Vec3 { x, y, z }
    }

    /// The squared distance to `other`.
    pub fn distance_squared(&self, other: &Vec3) -> (d: u128)
        ensures
            d == self.spec_distance_squared(*other),
            d <= 3 * 0xffff_ffff * 0xffff_ffff,
    {
        let dx: i64 = self.x as i64 - other.x as i64;
        let dy: i64 = self.y as i64 - other.y as i64;
        let dz: i64 = self.z as i64 - other.z as i64;
        let ax: u128 = if dx < 0 { (-dx) as u128 } else { dx as u128 };
        let ay: u128 = if dy < 0 { (-dy) as u128 } else { dy as u128 };
        let az: u128 = if dz < 0 { (-dz) as u128 } else { dz as u128 };
        proof {
            assert(ax * ax == dx * dx) by (nonlinear_arith)
                requires
                    ax == dx || ax == -dx,
            ;
            assert(ay * ay == dy * dy) by (nonlinear_arith)
                requires
                    ay == dy || ay == -dy,
            ;
            assert(az * az == dz * dz) by (nonlinear_arith)
                requires
                    az == dz || az == -dz,
            ;
            assert(ax * ax <= 0xffff_ffff * 0xffff_ffff) by (nonlinear_arith)
                requires
                    0 <= ax <= 0xffff_ffff,
            ;
            assert(ay * ay <= 0xffff_ffff * 0xffff_ffff) by (nonlinear_arith)
                requires
                    0 <= ay <= 0xffff_ffff,
            ;
            assert(az * az <= 0xffff_ffff * 0xffff_ffff) by (nonlinear_arith)
                requires
                    0 <= az <= 0xffff_ffff,
            ;
        }
        ax * ax + ay * ay + az * az
    }

    /// The distance to `other` in whole grid units.
    pub fn distance(&self, other: &Vec3) -> (d: u64)
        ensures
            d == self.spec_distance(*other),
            d <= 0x2_0000_0000,
    {
        let squared = self.distance_squared(other);
        let d = isqrt(squared);
        proof {
            if d > 0x2_0000_0000 {
                lemma_square_monotone(0x2_0000_0000, d as nat);
                assert(0x2_0000_0000int * 0x2_0000_0000int > 3 * 0xffff_ffff * 0xffff_ffff)
                    by (nonlinear_arith);
            }
        }
        d
    }

    /// This point moved by `by`.
    pub fn offset(&self, by: &Vec3) -> (v: Vec3)
        ensures
            v == self.spec_offset(*by),
    {
        Vec3 {
            x: add_coordinate(self.x, by.x),
            y: add_coordinate(self.y, by.y),
            z: add_coordinate(self.z, by.z),
        }
    }
}

/// No two points of the grid are farther apart than this.
pub proof fn lemma_distance_bound(a: Vec3, b: Vec3)
    ensures
        a.spec_distance(b) <= 0x2_0000_0000,
{
    let squared = a.spec_distance_squared(b);
    let dx = a.x - b.x;
    let dy = a.y - b.y;
    let dz = a.z - b.z;
    assert(dx * dx <= 0xffff_ffff * 0xffff_ffff) by (nonlinear_arith)
        requires
            -0xffff_ffff <= dx <= 0xffff_ffff,
    ;
    assert(dy * dy <= 0xffff_ffff * 0xffff_ffff) by (nonlinear_arith)
        requires
            -0xffff_ffff <= dy <= 0xffff_ffff,
    ;
    assert(dz * dz <= 0xffff_ffff * 0xffff_ffff) by (nonlinear_arith)
        requires
            -0xffff_ffff <= dz <= 0xffff_ffff,
    ;
    assert(squared == dx * dx + dy * dy + dz * dz) by (nonlinear_arith)
        requires
            squared == (dx * dx + dy * dy + dz * dz) as nat,
    ;
    lemma_sqrt_floor(squared);
    let d = sqrt_floor(squared);
    if d > 0x2_0000_0000 {
        lemma_square_monotone(0x2_0000_0000, d);
        assert(0x2_0000_0000int * 0x2_0000_0000int > 3 * (0xffff_ffff * 0xffff_ffff))
            by (nonlinear_arith);
        assert(d * d <= squared);
    }
}

/// A box with sides along the axes. Its faces belong to it.
#[derive(Copy, Clone, Debug, PartialEq, Eq, Structural)]
pub struct Aabb {
    pub min: Vec3,
    pub max: Vec3,
}

impl Aabb {
    /// Whether `point` lies in the box or on one of its faces.
    pub open spec fn spec_contains(self, point: Vec3) -> bool {
        &&& self.min.x <= point.x <= self.max.x
        &&& self.min.y <= point.y <= self.max.y
        &&& self.min.z <= point.z <= self.max.z
    }

    /// Tells whether `point` lies in the box or on one of its faces.
    pub fn contains(&self, point: &Vec3) -> (inside: bool)
        ensures
            inside == self.spec_contains(*point),
    {
        point.x >= self.min.x && point.x <= self.max.x && point.y >= self.min.y && point.y
            <= self.max.y && point.z >= self.min.z && point.z <= self.max.z
    }
}

} // verus!
