use vstd::prelude::*;

verus! {

/// `n - k` clamped at zero, as `usize::saturating_sub` computes it.
pub open spec fn sat_sub(n: int, k: int) -> int {
    if n >= k {
        n - k
    } else {
        0
    }
}

pub open spec fn min_int(a: int, b: int) -> int {
    if a <= b {
        a
    } else {
        b
    }
}

/// Lower grid index of the interpolation cell along one axis of `n` points,
/// given the floor of the clamped fractional coordinate.
pub open spec fn spec_lower_cell_index(floor_index: int, n: int) -> int {
    min_int(floor_index, sat_sub(n, 2))
}

/// Upper grid index of the interpolation cell along one axis: one past the
/// lower index, clamped to the last point so one-point axes stay in bounds.
pub open spec fn spec_upper_cell_index(lower: int, n: int) -> int {
    min_int(lower + 1, n - 1)
}

/// Lower cell index along one axis. The floor of the clamped coordinate may
/// sit on the last grid point; the cell then starts one point earlier so that
/// its upper neighbour still exists.
pub fn lower_cell_index(floor_index: usize, n: usize) -> (i: usize)
    ensures
        i == spec_lower_cell_index(floor_index as int, n as int),
        i <= floor_index,
        floor_index + 2 <= n ==> i == floor_index,
        n >= 2 && floor_index + 2 > n ==> i == n - 2,
        n < 2 ==> i == 0,
{
    floor_index.min(n.saturating_sub(2))
}

/// Upper cell index along one axis of `n >= 1` points. For one-point axes it
/// equals the lower index, so no index past the end is ever read.
pub fn upper_cell_index(lower: usize, n: usize) -> (i: usize)
    requires
        n >= 1,
        lower < usize::MAX,
    ensures
        i == spec_upper_cell_index(lower as int, n as int),
        i < n,
        lower + 1 < n ==> i == lower + 1,
        lower + 1 >= n ==> i == n - 1,
{
    (lower + 1).min(n - 1)
}

/// For an axis of at least two points and any floor index on the axis, the
/// cell brackets the floor index (`lower <= floor <= lower + 1`, so the
/// fractional offset lies in `[0, 1]`) and spans two distinct grid points.
pub proof fn lemma_cell_brackets_floor(floor_index: int, n: int)
    requires
        n >= 2,
        0 <= floor_index <= n - 1,
    ensures
        spec_lower_cell_index(floor_index, n) <= floor_index <= spec_lower_cell_index(
            floor_index,
            n,
        ) + 1,
        spec_upper_cell_index(spec_lower_cell_index(floor_index, n), n)
            == spec_lower_cell_index(floor_index, n) + 1,
        spec_upper_cell_index(spec_lower_cell_index(floor_index, n), n) < n,
{
}

/// A floor index that has a grid point after it is its own cell's lower
/// index; only a floor on the last point (or beyond) steps back to the last
/// cell, which starts at `n - 2`. The upper index is then the next point, so
/// the fractional offset `clamped - lower` stays within `[0, 1]`.
pub proof fn lemma_lower_cell_index_exact(floor_index: int, n: int)
    requires
        n >= 2,
        0 <= floor_index,
    ensures
        floor_index <= n - 2 ==> spec_lower_cell_index(floor_index, n) == floor_index,
        floor_index >= n - 1 ==> spec_lower_cell_index(floor_index, n) == n - 2,
        floor_index <= n - 2 ==> spec_upper_cell_index(spec_lower_cell_index(floor_index, n), n)
            == floor_index + 1,
{
}

/// On a one-point axis both cell indices are the only point, whatever the
/// floor index: queries anywhere return that plane's value.
pub proof fn lemma_single_point_axis(floor_index: int)
    requires
        floor_index >= 0,
    ensures
        spec_lower_cell_index(floor_index, 1) == 0,
        spec_upper_cell_index(spec_lower_cell_index(floor_index, 1), 1) == 0,
{
}

/// Queries beyond the last grid point (floor index clamped to `n - 1` or
/// further) all land in the last cell, so out-of-domain queries return the
/// edge values.
pub proof fn lemma_far_queries_use_edge_cell(f1: int, f2: int, n: int)
    requires
        n >= 2,
        f1 >= n - 1,
        f2 >= n - 1,
    ensures
        spec_lower_cell_index(f1, n) == spec_lower_cell_index(f2, n) == n - 2,
{
}

/// Along an axis of at least one point the last grid index is `n - 1`, and
/// an empty axis reports 0: the far corner of the domain lies exactly
/// `n - 1` spacings from the origin, on the last grid point.
pub proof fn lemma_last_index(n: int)
    requires
        n >= 0,
    ensures
        n >= 1 ==> sat_sub(n, 1) + 1 == n,
        n == 0 ==> sat_sub(n, 1) == 0,
        0 <= sat_sub(n, 1) < n || n == 0,
{
}

/// Row-major position of grid point `(i, j, k)` in a grid with `ny * nz`
/// points per x-plane and `nz` per line.
pub open spec fn flat_index(ny: int, nz: int, i: int, j: int, k: int) -> int {
    (i * ny + j) * nz + k
}

/// Lexicographic order on grid points: `(a, b, c)` comes before `(i, j, k)`.
pub open spec fn lex_before(a: int, b: int, c: int, i: int, j: int, k: int) -> bool {
    ||| a < i
    ||| (a == i && b < j)
    ||| (a == i && b == j && c < k)
}

/// Row-major positions follow the lexicographic order of the points, so the
/// sampling loop fills each position exactly once, in order.
pub proof fn lemma_flat_index_monotone(ny: int, nz: int, a: int, b: int, c: int, i: int, j: int, k: int)
    requires
        0 <= a,
        0 <= b < ny,
        0 <= c < nz,
        0 <= i,
        0 <= j < ny,
        0 <= k < nz,
        lex_before(a, b, c, i, j, k),
    ensures
        flat_index(ny, nz, a, b, c) < flat_index(ny, nz, i, j, k),
{
    if a < i {
        assert(a * ny + b < i * ny + j) by (nonlinear_arith)
            requires
                a < i,
                0 <= b < ny,
                0 <= j,
        ;
    }
    assert(flat_index(ny, nz, a, b, c) < flat_index(ny, nz, i, j, k)) by (nonlinear_arith)
        requires
            a * ny + b < i * ny + j || (a * ny + b == i * ny + j && c < k),
            0 <= c < nz,
            0 <= k,
    ;
}

/// Every point of an `nx * ny * nz` grid has a row-major position inside the
/// grid's point count.
pub proof fn lemma_flat_index_bound(nx: int, ny: int, nz: int, i: int, j: int, k: int)
    requires
        0 <= i < nx,
        0 <= j < ny,
        0 <= k < nz,
    ensures
        0 <= flat_index(ny, nz, i, j, k) < nx * ny * nz,
{
    assert(0 <= flat_index(ny, nz, i, j, k) < nx * ny * nz) by (nonlinear_arith)
        requires
            0 <= i < nx,
            0 <= j < ny,
            0 <= k < nz,
    ;
}

/// Shape of a regular 3-D grid: `nx * ny * nz` points, point `(i, j, k)` at
/// `origin + [i, j, k] * spacing`.
pub struct GridShape {
    pub nx: usize,
    pub ny: usize,
    pub nz: usize,
}

/// The eight corner indices of the interpolation cell around a query point.
pub struct Cell {
    pub i0: usize,
    pub i1: usize,
    pub j0: usize,
    pub j1: usize,
    pub k0: usize,
    pub k1: usize,
}

impl GridShape {
    pub open spec fn contains(self, i: int, j: int, k: int) -> bool {
        &&& 0 <= i < self.nx
        &&& 0 <= j < self.ny
        &&& 0 <= k < self.nz
    }

    pub open spec fn spec_point_count(self) -> int {
        self.nx * self.ny * self.nz
    }

    pub fn new(nx: usize, ny: usize, nz: usize) -> (s: Self)
        ensures
            s.nx == nx,
            s.ny == ny,
            s.nz == nz,
    {
        GridShape { nx, ny, nz }
    }

    /// Cell corners from the lower corner `(i, j, k)`, which must be a grid
    /// point. Each upper index is the lower one plus one, clamped to its axis.
    pub fn cell_corners(&self, i: usize, j: usize, k: usize) -> (c: Cell)
        requires
            self.contains(i as int, j as int, k as int),
        ensures
            c.i0 == i,
            c.j0 == j,
            c.k0 == k,
            c.i1 == spec_upper_cell_index(i as int, self.nx as int),
            c.j1 == spec_upper_cell_index(j as int, self.ny as int),
            c.k1 == spec_upper_cell_index(k as int, self.nz as int),
            i + 1 < self.nx ==> c.i1 == i + 1,
            j + 1 < self.ny ==> c.j1 == j + 1,
            k + 1 < self.nz ==> c.k1 == k + 1,
            i + 1 == self.nx ==> c.i1 == i,
            j + 1 == self.ny ==> c.j1 == j,
            k + 1 == self.nz ==> c.k1 == k,
            self.contains(c.i0 as int, c.j0 as int, c.k0 as int),
            self.contains(c.i1 as int, c.j1 as int, c.k1 as int),
            self.contains(c.i1 as int, c.j0 as int, c.k0 as int),
            self.contains(c.i0 as int, c.j1 as int, c.k1 as int),
    {
        Cell {
            i0: i,
            i1: upper_cell_index(i, self.nx),
            j0: j,
            j1: upper_cell_index(j, self.ny),
            k0: k,
            k1: upper_cell_index(k, self.nz),
        }
    }

    /// Evaluate `f` at every grid point, x slowest and z fastest, and return
    /// the values in row-major order: the value for `(i, j, k)` sits at
    /// position `(i * ny + j) * nz + k`.
    pub fn sample_points<T, F: Fn(usize, usize, usize) -> T>(&self, f: F) -> (v: Vec<T>)
        requires
            self.nx * self.ny <= usize::MAX,
            self.nx * self.ny * self.nz <= usize::MAX,
            forall|i: usize, j: usize, k: usize|
                self.contains(i as int, j as int, k as int) ==> f.requires((i, j, k)),
        ensures
            v.len() == self.spec_point_count(),
            forall|i: usize, j: usize, k: usize|
                self.contains(i as int, j as int, k as int) ==> f.ensures(
                    (i, j, k),
                    #[trigger] v[flat_index(self.ny as int, self.nz as int, i as int, j as int, k as int)],
                ),
    {
        let ghost ny = self.ny as int;
        let ghost nz = self.nz as int;
        let mut v: Vec<T> = Vec::new();
        assert(flat_index(ny, nz, 0, 0, 0) == 0) by (nonlinear_arith);
        let mut i: usize = 0;
        while i < self.nx
            invariant
                i <= self.nx,
                ny == self.ny,
                nz == self.nz,
                v.len() == flat_index(ny, nz, i as int, 0, 0),
                forall|a: usize, b: usize, c: usize|
                    self.contains(a as int, b as int, c as int) ==> f.requires((a, b, c)),
                forall|a: usize, b: usize, c: usize|
                    self.contains(a as int, b as int, c as int) && a < i ==> f.ensures(
                        (a, b, c),
                        #[trigger] v[flat_index(ny, nz, a as int, b as int, c as int)],
                    ),
            decreases self.nx - i,
        {
            let mut j: usize = 0;
            while j < self.ny
                invariant
                    i < self.nx,
                    j <= self.ny,
                    ny == self.ny,
                    nz == self.nz,
                    v.len() == flat_index(ny, nz, i as int, j as int, 0),
                    forall|a: usize, b: usize, c: usize|
                        self.contains(a as int, b as int, c as int) ==> f.requires((a, b, c)),
                    forall|a: usize, b: usize, c: usize|
                        self.contains(a as int, b as int, c as int) && (a < i || (a == i && b
                            < j)) ==> f.ensures(
                            (a, b, c),
                            #[trigger] v[flat_index(ny, nz, a as int, b as int, c as int)],
                        ),
                decreases self.ny - j,
            {
                let mut k: usize = 0;
                while k < self.nz
                    invariant
                        i < self.nx,
                        j < self.ny,
                        k <= self.nz,
                        ny == self.ny,
                        nz == self.nz,
                        v.len() == flat_index(ny, nz, i as int, j as int, k as int),
                        forall|a: usize, b: usize, c: usize|
                            self.contains(a as int, b as int, c as int) ==> f.requires((a, b, c)),
                        forall|a: usize, b: usize, c: usize|
                            self.contains(a as int, b as int, c as int) && lex_before(
                                a as int,
                                b as int,
                                c as int,
                                i as int,
                                j as int,
                                k as int,
                            ) ==> f.ensures(
                                (a, b, c),
                                #[trigger] v[flat_index(ny, nz, a as int, b as int, c as int)],
                            ),
                    decreases self.nz - k,
                {
                    assert(self.contains(i as int, j as int, k as int));
                    assert(f.requires((i, j, k)));
                    let value = f(i, j, k);
                    let ghost old_v = v@;
                    v.push(value);
                    assert forall|a: usize, b: usize, c: usize|
                        self.contains(a as int, b as int, c as int) && lex_before(
                            a as int,
                            b as int,
                            c as int,
                            i as int,
                            j as int,
                            (k + 1) as int,
                        ) implies f.ensures(
                        (a, b, c),
                        #[trigger] v[flat_index(ny, nz, a as int, b as int, c as int)],
                    ) by {
                        if a == i && b == j && c == k {
                        } else {
                            lemma_flat_index_monotone(
                                ny,
                                nz,
                                a as int,
                                b as int,
                                c as int,
                                i as int,
                                j as int,
                                k as int,
                            );
                            assert(v@[flat_index(ny, nz, a as int, b as int, c as int)] == old_v[flat_index(
                                ny,
                                nz,
                                a as int,
                                b as int,
                                c as int,
                            )]);
                        }
                    }
                    k = k + 1;
                }
                assert(flat_index(ny, nz, i as int, j as int, nz) == flat_index(
                    ny,
                    nz,
                    i as int,
                    (j + 1) as int,
                    0,
                )) by (nonlinear_arith);
                assert forall|a: usize, b: usize, c: usize|
                    self.contains(a as int, b as int, c as int) && (a < i || (a == i && b < j
                        + 1)) implies f.ensures(
                    (a, b, c),
                    #[trigger] v[flat_index(ny, nz, a as int, b as int, c as int)],
                ) by {
                    assert(lex_before(
                        a as int,
                        b as int,
                        c as int,
                        i as int,
                        j as int,
                        nz,
                    ));
                }
                j = j + 1;
            }
            assert(flat_index(ny, nz, i as int, ny, 0) == flat_index(ny, nz, (i + 1) as int, 0, 0))
                by (nonlinear_arith);
            i = i + 1;
        }
        assert(flat_index(ny, nz, self.nx as int, 0, 0) == self.spec_point_count()) by (nonlinear_arith)
            requires
                ny == self.ny,
                nz == self.nz,
        ;
        v
    }

    /// Index of the last grid point along each axis (0 for an empty axis);
    /// the far corner of the domain lies that many spacings from the origin.
    pub fn last_indices(&self) -> (r: (usize, usize, usize))
        ensures
            r.0 == sat_sub(self.nx as int, 1),
            r.1 == sat_sub(self.ny as int, 1),
            r.2 == sat_sub(self.nz as int, 1),
            self.nx >= 1 ==> r.0 + 1 == self.nx,
            self.ny >= 1 ==> r.1 + 1 == self.ny,
            self.nz >= 1 ==> r.2 + 1 == self.nz,
            self.nx == 0 ==> r.0 == 0,
            self.ny == 0 ==> r.1 == 0,
            self.nz == 0 ==> r.2 == 0,
    {
        (self.nx.saturating_sub(1), self.ny.saturating_sub(1), self.nz.saturating_sub(1))
    }

    /// Total number of grid points, the normalisation of a 3-D inverse FFT.
    pub fn point_count(&self) -> (n: usize)
        requires
            self.nx * self.ny <= usize::MAX,
            self.nx * self.ny * self.nz <= usize::MAX,
        ensures
            n == self.spec_point_count(),
            n == self.nx * self.ny * self.nz,
    {
        self.nx * self.ny * self.nz
    }

    /// The shape as an `[nx, ny, nz]` triple, as the metadata sidecar stores it.
    pub fn dims(&self) -> (d: [usize; 3])
        ensures
            d@ == seq![self.nx, self.ny, self.nz],
    {
        [self.nx, self.ny, self.nz]
    }
}

} // verus!
