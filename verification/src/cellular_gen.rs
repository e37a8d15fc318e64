//! The cellular (Worley) noise generator's coordinate cache.
//!
//! The generator keeps, per dimensionality, one cache slot holding the
//! coordinates of the last query and the four nearest-seed-point
//! distances computed for them. Coordinates and distances are carried
//! as the bit patterns of the doubles they stand for, so a hit is a
//! bit-exact repeat of the last query. The distances themselves come
//! from the cellular kernel collaborator, which hands them to
//! `store_*`; the decision whether the kernel must be invoked again is
//! made here.

use vstd::prelude::*;

verus! {

/// One cache slot: the coordinates of the last query and the four
/// nearest-seed-point distances `f` and deltas `d` computed for them,
/// all as bit patterns of doubles. The slot answers queries only while
/// `valid` holds.
pub struct CellularCache {
    pub f: [u64; 4],
    pub d: [u64; 4],
    pub x: u64,
    pub y: u64,
    pub z: u64,
    pub w: u64,
    pub u: u64,
    pub v: u64,
    pub valid: bool,
}

/// The slot `post` is the slot `pre` with its validity withdrawn and
/// its contents left standing.
pub open spec fn cache_cleared(pre: CellularCache, post: CellularCache) -> bool {
    &&& !post.valid
    &&& post.f == pre.f
    &&& post.d == pre.d
    &&& post.x == pre.x
    &&& post.y == pre.y
    &&& post.z == pre.z
    &&& post.w == pre.w
    &&& post.u == pre.u
    &&& post.v == pre.v
}

impl CellularCache {
    /// An empty slot: nothing cached yet.
    pub fn new() -> (r: CellularCache)
        ensures
            !r.valid,
    {
        CellularCache {
            f: [0u64; 4],
            d: [0u64; 4],
            x: 0,
            y: 0,
            z: 0,
            w: 0,
            u: 0,
            v: 0,
            valid: false,
        }
    }
}

/// The cellular generator: a seed and one cache slot per
/// dimensionality. A query at the coordinates of the last store is
/// answered from the slot; any other query must go to the cellular
/// kernel, whose answer is then stored.
pub struct CellularGenerator {
    pub seed: u32,
    pub cache2: CellularCache,
    pub cache3: CellularCache,
    pub cache4: CellularCache,
    pub cache6: CellularCache,
}

impl CellularGenerator {
    /// The 2-dimensional slot answers for the coordinates `(x, y)`.
    pub open spec fn hit_2d(self, x: u64, y: u64) -> bool {
        self.cache2.valid && self.cache2.x == x && self.cache2.y == y
    }

    /// The 3-dimensional slot answers for the coordinates `(x, y, z)`.
    pub open spec fn hit_3d(self, x: u64, y: u64, z: u64) -> bool {
        self.cache3.valid && self.cache3.x == x && self.cache3.y == y && self.cache3.z == z
    }

    /// The 4-dimensional slot answers for the coordinates `(x, y, z, w)`.
    pub open spec fn hit_4d(self, x: u64, y: u64, z: u64, w: u64) -> bool {
        self.cache4.valid && self.cache4.x == x && self.cache4.y == y && self.cache4.z == z
            && self.cache4.w == w
    }

    /// The 6-dimensional slot answers for the coordinates
    /// `(x, y, z, w, u, v)`.
    pub open spec fn hit_6d(self, x: u64, y: u64, z: u64, w: u64, u: u64, v: u64) -> bool {
        self.cache6.valid && self.cache6.x == x && self.cache6.y == y && self.cache6.z == z
            && self.cache6.w == w && self.cache6.u == u && self.cache6.v == v
    }

    /// A generator with seed 0 and nothing cached.
    pub fn new() -> (r: CellularGenerator)
        ensures
            r.seed == 0,
            !r.cache2.valid,
            !r.cache3.valid,
            !r.cache4.valid,
            !r.cache6.valid,
    {
        CellularGenerator {
            seed: 0,
            cache2: CellularCache::new(),
            cache3: CellularCache::new(),
            cache4: CellularCache::new(),
            cache6: CellularCache::new(),
        }
    }

    /// Changes the seed and withdraws every cache slot: distances
    /// computed under another seed answer no further query.
    pub fn set_seed(&mut self, seed: u32)
        ensures
            set_seed_post(*old(self), *final(self), seed),
    {
        self.seed = seed;
        self.cache2.valid = false;
        self.cache3.valid = false;
        self.cache4.valid = false;
        self.cache6.valid = false;
    }

    /// The current seed, handed to the cellular kernel on a miss.
    pub fn get_seed(&self) -> (r: u32)
        ensures
            r == self.seed,
    {
        self.seed
    }

    /// The cached distances and deltas for `(x, y)`: filled exactly
    /// when the last 2-dimensional store was at these coordinates and
    /// no seed change came after it.
    pub fn query_2d(&self, x: u64, y: u64) -> (r: Option<([u64; 4], [u64; 4])>)
        ensures
            self.hit_2d(x, y) ==> r == Some((self.cache2.f, self.cache2.d)),
            !self.hit_2d(x, y) ==> r is None,
    {
        if self.cache2.valid && self.cache2.x == x && self.cache2.y == y {
            Some((self.cache2.f, self.cache2.d))
        } else {
            None
        }
    }

    /// The cached distances and deltas for `(x, y, z)`.
    pub fn query_3d(&self, x: u64, y: u64, z: u64) -> (r: Option<([u64; 4], [u64; 4])>)
        ensures
            self.hit_3d(x, y, z) ==> r == Some((self.cache3.f, self.cache3.d)),
            !self.hit_3d(x, y, z) ==> r is None,
    {
        if self.cache3.valid && self.cache3.x == x && self.cache3.y == y && self.cache3.z == z {
            Some((self.cache3.f, self.cache3.d))
        } else {
            None
        }
    }

    /// The cached distances and deltas for `(x, y, z, w)`.
    pub fn query_4d(&self, x: u64, y: u64, z: u64, w: u64) -> (r: Option<([u64; 4], [u64; 4])>)
        ensures
            self.hit_4d(x, y, z, w) ==> r == Some((self.cache4.f, self.cache4.d)),
            !self.hit_4d(x, y, z, w) ==> r is None,
    {
        if self.cache4.valid && self.cache4.x == x && self.cache4.y == y && self.cache4.z == z
            && self.cache4.w == w {
            Some((self.cache4.f, self.cache4.d))
        } else {
            None
        }
    }

    /// The cached distances and deltas for `(x, y, z, w, u, v)`.
    pub fn query_6d(&self, x: u64, y: u64, z: u64, w: u64, u: u64, v: u64) -> (r: Option<
        ([u64; 4], [u64; 4]),
    >)
        ensures
            self.hit_6d(x, y, z, w, u, v) ==> r == Some((self.cache6.f, self.cache6.d)),
            !self.hit_6d(x, y, z, w, u, v) ==> r is None,
    {
        if self.cache6.valid && self.cache6.x == x && self.cache6.y == y && self.cache6.z == z
            && self.cache6.w == w && self.cache6.u == u && self.cache6.v == v {
            Some((self.cache6.f, self.cache6.d))
        } else {
            None
        }
    }

    /// Fills the 2-dimensional slot with the kernel's answer for
    /// `(x, y)` and marks it valid; the other slots stand unchanged.
    pub fn store_2d(&mut self, x: u64, y: u64, f: [u64; 4], d: [u64; 4])
        ensures
            store_2d_post(*old(self), *final(self), x, y, f, d),
    {
        self.cache2.f = f;
        self.cache2.d = d;
        self.cache2.x = x;
        self.cache2.y = y;
        self.cache2.valid = true;
    }

    /// Fills the 3-dimensional slot with the kernel's answer for
    /// `(x, y, z)` and marks it valid; the other slots stand unchanged.
    pub fn store_3d(&mut self, x: u64, y: u64, z: u64, f: [u64; 4], d: [u64; 4])
        ensures
            store_3d_post(*old(self), *final(self), x, y, z, f, d),
    {
        self.cache3.f = f;
        self.cache3.d = d;
        self.cache3.x = x;
        self.cache3.y = y;
        self.cache3.z = z;
        self.cache3.valid = true;
    }

    /// Fills the 4-dimensional slot with the kernel's answer for
    /// `(x, y, z, w)` and marks it valid; the other slots stand
    /// unchanged.
    pub fn store_4d(&mut self, x: u64, y: u64, z: u64, w: u64, f: [u64; 4], d: [u64; 4])
        ensures
            store_4d_post(*old(self), *final(self), x, y, z, w, f, d),
    {
        self.cache4.f = f;
        self.cache4.d = d;
        self.cache4.x = x;
        self.cache4.y = y;
        self.cache4.z = z;
        self.cache4.w = w;
        self.cache4.valid = true;
    }

    /// Fills the 6-dimensional slot with the kernel's answer for
    /// `(x, y, z, w, u, v)` and marks it valid; the other slots stand
    /// unchanged.
    pub fn store_6d(
        &mut self,
        x: u64,
        y: u64,
        z: u64,
        w: u64,
        u: u64,
        v: u64,
        f: [u64; 4],
        d: [u64; 4],
    )
        ensures
            store_6d_post(*old(self), *final(self), x, y, z, w, u, v, f, d),
    {
        self.cache6.f = f;
        self.cache6.d = d;
        self.cache6.x = x;
        self.cache6.y = y;
        self.cache6.z = z;
        self.cache6.w = w;
        self.cache6.u = u;
        self.cache6.v = v;
        self.cache6.valid = true;
    }
}

/// The generator `post` is the generator `pre` reseeded to `seed`, with
/// every slot withdrawn.
pub open spec fn set_seed_post(pre: CellularGenerator, post: CellularGenerator, seed: u32) -> bool {
    &&& post.seed == seed
    &&& cache_cleared(pre.cache2, post.cache2)
    &&& cache_cleared(pre.cache3, post.cache3)
    &&& cache_cleared(pre.cache4, post.cache4)
    &&& cache_cleared(pre.cache6, post.cache6)
}

/// The generator `post` is the generator `pre` with the 2-dimensional
/// slot filled for `(x, y)` and everything else standing.
pub open spec fn store_2d_post(
    pre: CellularGenerator,
    post: CellularGenerator,
    x: u64,
    y: u64,
    f: [u64; 4],
    d: [u64; 4],
) -> bool {
    &&& post.seed == pre.seed
    &&& post.cache2.valid
    &&& post.cache2.x == x
    &&& post.cache2.y == y
    &&& post.cache2.f == f
    &&& post.cache2.d == d
    &&& post.cache2.z == pre.cache2.z
    &&& post.cache2.w == pre.cache2.w
    &&& post.cache2.u == pre.cache2.u
    &&& post.cache2.v == pre.cache2.v
    &&& post.cache3 == pre.cache3
    &&& post.cache4 == pre.cache4
    &&& post.cache6 == pre.cache6
}

/// The generator `post` is the generator `pre` with the 3-dimensional
/// slot filled for `(x, y, z)` and everything else standing.
pub open spec fn store_3d_post(
    pre: CellularGenerator,
    post: CellularGenerator,
    x: u64,
    y: u64,
    z: u64,
    f: [u64; 4],
    d: [u64; 4],
) -> bool {
    &&& post.seed == pre.seed
    &&& post.cache3.valid
    &&& post.cache3.x == x
    &&& post.cache3.y == y
    &&& post.cache3.z == z
    &&& post.cache3.f == f
    &&& post.cache3.d == d
    &&& post.cache3.w == pre.cache3.w
    &&& post.cache3.u == pre.cache3.u
    &&& post.cache3.v == pre.cache3.v
    &&& post.cache2 == pre.cache2
    &&& post.cache4 == pre.cache4
    &&& post.cache6 == pre.cache6
}

/// The generator `post` is the generator `pre` with the 4-dimensional
/// slot filled for `(x, y, z, w)` and everything else standing.
pub open spec fn store_4d_post(
    pre: CellularGenerator,
    post: CellularGenerator,
    x: u64,
    y: u64,
    z: u64,
    w: u64,
    f: [u64; 4],
    d: [u64; 4],
) -> bool {
    &&& post.seed == pre.seed
    &&& post.cache4.valid
    &&& post.cache4.x == x
    &&& post.cache4.y == y
    &&& post.cache4.z == z
    &&& post.cache4.w == w
    &&& post.cache4.f == f
    &&& post.cache4.d == d
    &&& post.cache4.u == pre.cache4.u
    &&& post.cache4.v == pre.cache4.v
    &&& post.cache2 == pre.cache2
    &&& post.cache3 == pre.cache3
    &&& post.cache6 == pre.cache6
}

/// The generator `post` is the generator `pre` with the 6-dimensional
/// slot filled for `(x, y, z, w, u, v)` and everything else standing.
pub open spec fn store_6d_post(
    pre: CellularGenerator,
    post: CellularGenerator,
    x: u64,
    y: u64,
    z: u64,
    w: u64,
    u: u64,
    v: u64,
    f: [u64; 4],
    d: [u64; 4],
) -> bool {
    &&& post.seed == pre.seed
    &&& post.cache6.valid
    &&& post.cache6.x == x
    &&& post.cache6.y == y
    &&& post.cache6.z == z
    &&& post.cache6.w == w
    &&& post.cache6.u == u
    &&& post.cache6.v == v
    &&& post.cache6.f == f
    &&& post.cache6.d == d
    &&& post.cache2 == pre.cache2
    &&& post.cache3 == pre.cache3
    &&& post.cache4 == pre.cache4
}

/// Law: a query right after a store at the same coordinates is a hit
/// and hands back exactly the stored distances; the kernel need not be
/// invoked again.
pub proof fn lemma_store_then_hit_2d(
    pre: CellularGenerator,
    post: CellularGenerator,
    x: u64,
    y: u64,
    f: [u64; 4],
    d: [u64; 4],
)
    requires
        store_2d_post(pre, post, x, y, f, d),
    ensures
        post.hit_2d(x, y),
        post.cache2.f == f,
        post.cache2.d == d,
{
}

/// Law: a store answers queries at its own coordinates only; a query
/// anywhere else misses and must go to the kernel.
pub proof fn lemma_store_misses_elsewhere_2d(
    pre: CellularGenerator,
    post: CellularGenerator,
    x: u64,
    y: u64,
    f: [u64; 4],
    d: [u64; 4],
    x2: u64,
    y2: u64,
)
    requires
        store_2d_post(pre, post, x, y, f, d),
        x2 != x || y2 != y,
    ensures
        !post.hit_2d(x2, y2),
{
}

/// Law: a query right after a store at the same coordinates is a hit
/// and hands back exactly the stored distances.
pub proof fn lemma_store_then_hit_3d(
    pre: CellularGenerator,
    post: CellularGenerator,
    x: u64,
    y: u64,
    z: u64,
    f: [u64; 4],
    d: [u64; 4],
)
    requires
        store_3d_post(pre, post, x, y, z, f, d),
    ensures
        post.hit_3d(x, y, z),
        post.cache3.f == f,
        post.cache3.d == d,
{
}

/// Law: a store answers queries at its own coordinates only.
pub proof fn lemma_store_misses_elsewhere_3d(
    pre: CellularGenerator,
    post: CellularGenerator,
    x: u64,
    y: u64,
    z: u64,
    f: [u64; 4],
    d: [u64; 4],
    x2: u64,
    y2: u64,
    z2: u64,
)
    requires
        store_3d_post(pre, post, x, y, z, f, d),
        x2 != x || y2 != y || z2 != z,
    ensures
        !post.hit_3d(x2, y2, z2),
{
}

/// Law: a query right after a store at the same coordinates is a hit
/// and hands back exactly the stored distances.
pub proof fn lemma_store_then_hit_4d(
    pre: CellularGenerator,
    post: CellularGenerator,
    x: u64,
    y: u64,
    z: u64,
    w: u64,
    f: [u64; 4],
    d: [u64; 4],
)
    requires
        store_4d_post(pre, post, x, y, z, w, f, d),
    ensures
        post.hit_4d(x, y, z, w),
        post.cache4.f == f,
        post.cache4.d == d,
{
}

/// Law: a store answers queries at its own coordinates only.
pub proof fn lemma_store_misses_elsewhere_4d(
    pre: CellularGenerator,
    post: CellularGenerator,
    x: u64,
    y: u64,
    z: u64,
    w: u64,
    f: [u64; 4],
    d: [u64; 4],
    x2: u64,
    y2: u64,
    z2: u64,
    w2: u64,
)
    requires
        store_4d_post(pre, post, x, y, z, w, f, d),
        x2 != x || y2 != y || z2 != z || w2 != w,
    ensures
        !post.hit_4d(x2, y2, z2, w2),
{
}

/// Law: a query right after a store at the same coordinates is a hit
/// and hands back exactly the stored distances.
pub proof fn lemma_store_then_hit_6d(
    pre: CellularGenerator,
    post: CellularGenerator,
    x: u64,
    y: u64,
    z: u64,
    w: u64,
    u: u64,
    v: u64,
    f: [u64; 4],
    d: [u64; 4],
)
    requires
        store_6d_post(pre, post, x, y, z, w, u, v, f, d),
    ensures
        post.hit_6d(x, y, z, w, u, v),
        post.cache6.f == f,
        post.cache6.d == d,
{
}

/// Law: a store answers queries at its own coordinates only.
pub proof fn lemma_store_misses_elsewhere_6d(
    pre: CellularGenerator,
    post: CellularGenerator,
    x: u64,
    y: u64,
    z: u64,
    w: u64,
    u: u64,
    v: u64,
    f: [u64; 4],
    d: [u64; 4],
    x2: u64,
    y2: u64,
    z2: u64,
    w2: u64,
    u2: u64,
    v2: u64,
)
    requires
        store_6d_post(pre, post, x, y, z, w, u, v, f, d),
        x2 != x || y2 != y || z2 != z || w2 != w || u2 != u || v2 != v,
    ensures
        !post.hit_6d(x2, y2, z2, w2, u2, v2),
{
}

/// Law: a seed change invalidates every slot; no query of any
/// dimensionality hits until a new store is made.
pub proof fn lemma_set_seed_invalidates(
    pre: CellularGenerator,
    post: CellularGenerator,
    seed: u32,
)
    requires
        set_seed_post(pre, post, seed),
    ensures
        forall|x: u64, y: u64| !post.hit_2d(x, y),
        forall|x: u64, y: u64, z: u64| !post.hit_3d(x, y, z),
        forall|x: u64, y: u64, z: u64, w: u64| !post.hit_4d(x, y, z, w),
        forall|x: u64, y: u64, z: u64, w: u64, u: u64, v: u64| !post.hit_6d(x, y, z, w, u, v),
{
}

} // verus!
