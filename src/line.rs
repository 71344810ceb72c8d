//! [`Iter`], which generates the cells of a line between two grid points.
use vstd::arithmetic::div_mod::{
    lemma_div_is_ordered,
    lemma_fundamental_div_mod,
    lemma_fundamental_div_mod_converse,
    lemma_mod_bound,
};
use vstd::prelude::*;

verus! {

/// The distance between `a` and `b`.
pub open spec fn span(a: u32, b: u32) -> nat {
    if a <= b {
        (b - a) as nat
    } else {
        (a - b) as nat
    }
}

/// The coordinate `k` steps from `a` in the direction of `b`.
pub open spec fn toward(a: u32, b: u32, k: nat) -> int {
    if a <= b {
        a + k
    } else {
        a - k
    }
}

/// Whether the line runs mostly along the y axis.
pub open spec fn is_steep(x1: u32, y1: u32, x2: u32, y2: u32) -> bool {
    span(y1, y2) > span(x1, x2)
}

/// The number of steps along the dominant axis.
pub open spec fn major_len(x1: u32, y1: u32, x2: u32, y2: u32) -> nat {
    if is_steep(x1, y1, x2, y2) {
        span(y1, y2)
    } else {
        span(x1, x2)
    }
}

/// The distance covered along the other axis.
pub open spec fn minor_len(x1: u32, y1: u32, x2: u32, y2: u32) -> nat {
    if is_steep(x1, y1, x2, y2) {
        span(x1, x2)
    } else {
        span(y1, y2)
    }
}

/// How far along the minor axis the line is after `k` major steps: the
/// exact position `m * k / d`, rounded to the nearest cell (halves up).
pub open spec fn minor_offset(d: nat, m: nat, k: nat) -> nat {
    if d == 0 {
        0
    } else {
        ((2 * m * k + d) / (2 * d)) as nat
    }
}

/// The `k`-th cell of the line from `(x1, y1)` to `(x2, y2)`.
pub open spec fn line_point(x1: u32, y1: u32, x2: u32, y2: u32, k: nat) -> (u32, u32) {
    let j = minor_offset(major_len(x1, y1, x2, y2), minor_len(x1, y1, x2, y2), k);
    if is_steep(x1, y1, x2, y2) {
        (toward(x1, x2, j) as u32, toward(y1, y2, k) as u32)
    } else {
        (toward(x1, x2, k) as u32, toward(y1, y2, j) as u32)
    }
}

/// Every cell of the line from `(x1, y1)` to `(x2, y2)`, in order from the
/// first endpoint to the second, both included: one cell per step along the
/// dominant axis.
pub open spec fn line_points(x1: u32, y1: u32, x2: u32, y2: u32) -> Seq<(u32, u32)> {
    Seq::new(major_len(x1, y1, x2, y2) + 1, |k: int| line_point(x1, y1, x2, y2, k as nat))
}

/// The step from `a` toward `b`: `1` or `-1`.
pub open spec fn step_of(a: u32, b: u32) -> int {
    if a <= b {
        1
    } else {
        -1
    }
}

/// Rasterizes a line with integer arithmetic only (Bresenham's algorithm,
/// for every octant).
pub struct Iter {
    x1: u32,
    y1: u32,
    x2: u32,
    y2: u32,
    /// The cell that comes next.
    x: i64,
    y: i64,
    sx: i64,
    sy: i64,
    /// Whether the dominant axis is y.
    steep: bool,
    d: i64,
    m: i64,
    /// Cells handed out so far.
    k: i64,
    /// Minor steps taken so far.
    j: i64,
    err: i64,
}

proof fn lemma_offset_from_bounds(d: nat, m: nat, k: nat, j: nat)
    requires
        d > 0,
        2 * (d * j) <= 2 * (m * k) + d,
        2 * (m * k) + d < 2 * (d * j) + 2 * d,
    ensures
        minor_offset(d, m, k) == j,
{
    let a: int = (2 * m * k + d) as int;
    assert(2 * m * k == 2 * (m * k)) by (nonlinear_arith);
    assert(j * (2 * d) == 2 * (d * j)) by (nonlinear_arith);
    lemma_fundamental_div_mod_converse(a, 2 * d as int, j as int, a - j * (2 * d));
}

proof fn lemma_offset_at_end(d: nat, m: nat)
    requires
        d > 0,
    ensures
        minor_offset(d, m, d) == m,
{
    let a: int = (2 * m * d + d) as int;
    assert(a == m * (2 * d) + d) by (nonlinear_arith)
        requires
            a == 2 * m * d + d,
    ;
    lemma_fundamental_div_mod_converse(a, 2 * d as int, m as int, d as int);
}

proof fn lemma_offset_step(d: nat, m: nat, k: nat)
    requires
        d > 0,
        m <= d,
    ensures
        minor_offset(d, m, k + 1) == minor_offset(d, m, k) || minor_offset(d, m, k + 1)
            == minor_offset(d, m, k) + 1,
{
    let dd: int = 2 * d as int;
    let a: int = (2 * m * k + d) as int;
    let b: int = (2 * m * (k + 1) + d) as int;
    assert(b == a + 2 * m) by (nonlinear_arith)
        requires
            a == 2 * m * k + d,
            b == 2 * m * (k + 1) + d,
    ;
    let q = a / dd;
    let r = a % dd;
    lemma_fundamental_div_mod(a, dd);
    lemma_mod_bound(a, dd);
    if r + 2 * m < dd {
        lemma_fundamental_div_mod_converse(b, dd, q, r + 2 * m);
    } else {
        assert(b == (q + 1) * dd + (r + 2 * m - dd)) by (nonlinear_arith)
            requires
                a == dd * q + r,
                b == a + 2 * m,
        ;
        lemma_fundamental_div_mod_converse(b, dd, q + 1, r + 2 * m - dd);
    }
}

/// A rasterized line starts at its first endpoint, ends at its second, and
/// has one cell per step along the dominant axis.
pub proof fn line_includes_endpoints(x1: u32, y1: u32, x2: u32, y2: u32)
    ensures
        line_points(x1, y1, x2, y2).len() == major_len(x1, y1, x2, y2) + 1,
        line_points(x1, y1, x2, y2)[0] == (x1, y1),
        line_points(x1, y1, x2, y2).last() == (x2, y2),
{
    let d = major_len(x1, y1, x2, y2);
    let m = minor_len(x1, y1, x2, y2);
    if d > 0 {
        lemma_offset_at_end(d, m);
    }
    assert(minor_offset(d, m, 0) == 0) by {
        if d > 0 {
            assert(2 * m * 0 + d == d) by (nonlinear_arith);
            lemma_fundamental_div_mod_converse(d as int, 2 * d as int, 0, d as int);
        }
    }
}

/// Consecutive cells of a rasterized line are neighbours: each step moves
/// one cell along the dominant axis, toward the second endpoint, and at
/// most one cell along the other, so no cell is skipped or repeated.
pub proof fn line_steps_are_adjacent(x1: u32, y1: u32, x2: u32, y2: u32, k: int)
    requires
        0 <= k < major_len(x1, y1, x2, y2),
    ensures
        ({
            let p = line_points(x1, y1, x2, y2)[k];
            let q = line_points(x1, y1, x2, y2)[k + 1];
            let dx = q.0 - p.0;
            let dy = q.1 - p.1;
            &&& is_steep(x1, y1, x2, y2) ==> dy == step_of(y1, y2) && (dx == 0 || dx == step_of(
                x1,
                x2,
            ))
            &&& !is_steep(x1, y1, x2, y2) ==> dx == step_of(x1, x2) && (dy == 0 || dy
                == step_of(y1, y2))
        }),
{
    let d = major_len(x1, y1, x2, y2);
    let m = minor_len(x1, y1, x2, y2);
    lemma_offset_step(d, m, k as nat);
    lemma_offset_bounded(d, m, k as nat);
    lemma_offset_bounded(d, m, (k + 1) as nat);
}

proof fn lemma_offset_bounded(d: nat, m: nat, k: nat)
    requires
        d > 0,
        m <= d,
        k <= d,
    ensures
        minor_offset(d, m, k) <= m,
{
    lemma_offset_at_end(d, m);
    assert(2 * m * k + d <= 2 * m * d + d) by (nonlinear_arith)
        requires
            k <= d,
    ;
    lemma_div_is_ordered((2 * m * k + d) as int, (2 * m * d + d) as int, 2 * d as int);
}

impl Iter {
    /// The line that this iterator walks.
    pub closed spec fn points(&self) -> Seq<(u32, u32)> {
        line_points(self.x1, self.y1, self.x2, self.y2)
    }

    /// How many cells it has handed out.
    pub closed spec fn pos(&self) -> nat {
        self.k as nat
    }

    /// The iterator's fields agree with its endpoints and with the cells
    /// handed out so far.
    pub closed spec fn wf(&self) -> bool {
        let d = major_len(self.x1, self.y1, self.x2, self.y2);
        let m = minor_len(self.x1, self.y1, self.x2, self.y2);
        &&& self.steep == is_steep(self.x1, self.y1, self.x2, self.y2)
        &&& self.d == d
        &&& self.m == m
        &&& self.sx == step_of(self.x1, self.x2)
        &&& self.sy == step_of(self.y1, self.y2)
        &&& 0 <= self.k <= d + 1
        &&& 0 <= self.j <= self.k
        &&& self.k <= d ==> {
            &&& 2 * (d * self.j) <= 2 * (m * self.k) + d
            &&& d > 0 ==> 2 * (m * self.k) + d < 2 * (d * self.j) + 2 * d
            &&& self.err == 2 * (m * self.k) + 2 * m - 2 * (d * self.j) - d
            &&& self.steep ==> self.x == toward(self.x1, self.x2, self.j as nat) && self.y
                == toward(self.y1, self.y2, self.k as nat)
            &&& !self.steep ==> self.x == toward(self.x1, self.x2, self.k as nat) && self.y
                == toward(self.y1, self.y2, self.j as nat)
        }
    }

    /// Starts a line at `(x1, y1)` that ends at `(x2, y2)`.
    pub fn new(x1: u32, y1: u32, x2: u32, y2: u32) -> (r: Iter)
        ensures
            r.wf(),
            r.points() == line_points(x1, y1, x2, y2),
            r.pos() == 0,
    {
        let dx: i64 = if x1 <= x2 {
            x2 as i64 - x1 as i64
        } else {
            x1 as i64 - x2 as i64
        };
        let dy: i64 = if y1 <= y2 {
            y2 as i64 - y1 as i64
        } else {
            y1 as i64 - y2 as i64
        };
        let sx: i64 = if x1 <= x2 {
            1
        } else {
            -1
        };
        let sy: i64 = if y1 <= y2 {
            1
        } else {
            -1
        };
        let steep = dy > dx;
        let (d, m) = if steep {
            (dy, dx)
        } else {
            (dx, dy)
        };
        let r = Iter {
            x1,
            y1,
            x2,
            y2,
            x: x1 as i64,
            y: y1 as i64,
            sx,
            sy,
            steep,
            d,
            m,
            k: 0,
            j: 0,
            err: 2 * m - d,
        };
        assert(r.m * 0 == 0 && r.d * 0 == 0);
        r
    }

    /// Hands out the next cell of the line, or `None` once past the second
    /// endpoint.
    pub fn next(&mut self) -> (r: Option<(u32, u32)>)
        requires
            old(self).wf(),
        ensures
            final(self).wf(),
            final(self).points() == old(self).points(),
            old(self).pos() < old(self).points().len() ==> r == Some(
                old(self).points()[old(self).pos() as int],
            ) && final(self).pos() == old(self).pos() + 1,
            old(self).pos() >= old(self).points().len() ==> r.is_none() && final(self).pos()
                == old(self).pos(),
    {
        if self.k > self.d {
            return None;
        }
        proof {
            let d = self.d as nat;
            let m = self.m as nat;
            if d > 0 {
                lemma_offset_from_bounds(d, m, self.k as nat, self.j as nat);
            }
        }
        let cell = (self.x as u32, self.y as u32);
        assert(cell == line_point(self.x1, self.y1, self.x2, self.y2, self.k as nat));
        let ghost k0 = self.k;
        let ghost j0 = self.j;
        if self.err >= 0 {
            if self.steep {
                self.x = self.x + self.sx;
            } else {
                self.y = self.y + self.sy;
            }
            self.j = self.j + 1;
            self.err = self.err - 2 * self.d;
        }
        self.err = self.err + 2 * self.m;
        if self.steep {
            self.y = self.y + self.sy;
        } else {
            self.x = self.x + self.sx;
        }
        self.k = self.k + 1;
        proof {
            let d = self.d as int;
            let m = self.m as int;
            assert(m * (k0 + 1) == m * k0 + m) by (nonlinear_arith);
            assert(d * (j0 + 1) == d * j0 + d) by (nonlinear_arith);
        }
        Some(cell)
    }
}

} // verus!
