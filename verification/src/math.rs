use vstd::prelude::*;

verus! {

/// Number of milli-units in one world unit: the fixed-point scale of all
/// geometry in this crate.
pub const MILLI: i64 = 1000;

/// Largest coordinate magnitude, in milli-units, that the per-frame update
/// functions accept. The bound exists only so that every intermediate
/// product of the update fits in an `i64`.
pub const POS_MAX: i64 = 1_000_000_000_000;

/// A 3-vector in fixed-point milli-units.
#[derive(Clone, Copy, PartialEq, Eq, Structural, Debug)]
pub struct Vec3 {
    pub x: i64,
    pub y: i64,
    pub z: i64,
}

/// The mathematical model of a [`Vec3`]: the same three coordinates as
/// unbounded integers.
pub ghost struct V3 {
    pub x: int,
    pub y: int,
    pub z: int,
}

impl View for Vec3 {
    type V = V3;

    open spec fn view(&self) -> V3 {
        V3 { x: self.x as int, y: self.y as int, z: self.z as int }
    }
}

impl Vec3 {
    pub fn new(x: i64, y: i64, z: i64) -> (v: Vec3)
        ensures
            v@ == (V3 { x: x as int, y: y as int, z: z as int }),
    {
        Vec3 { x, y, z }
    }
}

impl V3 {
    pub open spec fn zero() -> V3 {
        V3 { x: 0, y: 0, z: 0 }
    }

    pub open spec fn plus(self, o: V3) -> V3 {
        V3 { x: self.x + o.x, y: self.y + o.y, z: self.z + o.z }
    }

    pub open spec fn minus(self, o: V3) -> V3 {
        V3 { x: self.x - o.x, y: self.y - o.y, z: self.z - o.z }
    }

    /// Squared Euclidean length, in squared milli-units.
    pub open spec fn mag_sq(self) -> int {
        self.x * self.x + self.y * self.y + self.z * self.z
    }

    /// Every coordinate within `[-b, b]`.
    pub open spec fn bounded(self, b: int) -> bool {
        -b <= self.x <= b && -b <= self.y <= b && -b <= self.z <= b
    }
}

/// Floor of the square root of `n`, defined by counting up.
pub open spec fn sqrt_floor(n: nat) -> nat
    decreases n,
{
    if n == 0 {
        0
    } else {
        let r = sqrt_floor((n - 1) as nat);
        if (r + 1) * (r + 1) <= n {
            r + 1
        } else {
            r
        }
    }
}

/// `sqrt_floor(n)` really is the floor of the square root of `n`.
pub proof fn lemma_sqrt_floor_bounds(n: nat)
    ensures
        sqrt_floor(n) * sqrt_floor(n) <= n,
        n < (sqrt_floor(n) as int + 1) * (sqrt_floor(n) as int + 1),
    decreases n,
{
    if n == 0 {
        assert(sqrt_floor(n) == 0);
    } else {
        let r = sqrt_floor((n - 1) as nat);
        lemma_sqrt_floor_bounds((n - 1) as nat);
        if (r + 1) * (r + 1) <= n {
            assert(sqrt_floor(n) == r + 1);
            assert(n <= (r + 1) * (r + 1));
            assert((r as int + 2) * (r as int + 2) > (r + 1) * (r + 1)) by (nonlinear_arith);
        } else {
            assert(sqrt_floor(n) == r);
            assert(r * r <= n);
        }
    }
}

/// No two numbers satisfy the floor-square-root bounds for the same `n`.
pub proof fn lemma_sqrt_floor_unique(n: nat, r: nat)
    requires
        r * r <= n,
        n < (r as int + 1) * (r as int + 1),
    ensures
        r == sqrt_floor(n),
{
    let s = sqrt_floor(n);
    lemma_sqrt_floor_bounds(n);
    if r < s {
        assert((r + 1) * (r + 1) <= s * s) by (nonlinear_arith)
            requires r + 1 <= s;
    }
    if s < r {
        assert((s + 1) * (s + 1) <= r * r) by (nonlinear_arith)
            requires s + 1 <= r;
    }
}

/// Integer square root, rounded down.
pub fn isqrt(n: u64) -> (r: u64)
    requires
        n < 9_000_000_000_000_000_000,
    ensures
        r == sqrt_floor(n as nat),
        r * r <= n,
        n < (r + 1) * (r + 1),
{
    let mut lo: u64 = 0;
    let mut hi: u64 = 3_000_000_000;
    assert((3_000_000_000int) * 3_000_000_000 == 9_000_000_000_000_000_000int);
    while lo + 1 < hi
        invariant
            lo < hi <= 3_000_000_000,
            (lo as int) * (lo as int) <= n as int,
            (n as int) < (hi as int) * (hi as int),
        decreases hi - lo,
    {
        let mid = lo + (hi - lo) / 2;
        assert((mid as int) * (mid as int) < 9_000_000_000_000_000_000int) by (nonlinear_arith)
            requires
                0 <= (mid as int),
                (mid as int) < 3_000_000_000,
        ;
        if mid * mid <= n {
            lo = mid;
        } else {
            hi = mid;
        }
    }
    proof {
        lemma_sqrt_floor_unique(n as nat, lo as nat);
    }
    lo
}

} // verus!
