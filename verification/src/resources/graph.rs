//! The resource ownership graph: a model of reference-counted shared
//! ownership of driver objects.
//!
//! Every driver-backed resource is a node holding edges to the nodes it
//! depends on (a buffer to the allocation backing it and the device that
//! created it); binding an image to an allocation adds such a dependency
//! too. A node is created with one outstanding handle; handles are cloned
//! and released. A node's driver object is destroyed exactly when its last
//! owner goes away — no handle is left and no live node depends on it — and
//! never while either exists, so destruction runs in dependency order even
//! though nothing else enforces that discipline. The unverified driver
//! layer mirrors each operation here: cloning a shared handle, dropping
//! one, destroying the native objects of the nodes a release reports dead.
use crate::error::{Error, Variant};
use vstd::prelude::*;

verus! {

/// The kind of driver resource a node stands for.
#[derive(Debug, Clone, Copy, PartialEq, Eq, Structural)]
pub enum ResourceKind {
    Instance,
    PhysicalDevice,
    Device,
    Allocation,
    Queue,
    Buffer,
    Image,
    ImageView,
    VideoSession,
    VideoSessionParameters,
    Shader,
    Pipeline,
    CommandBuffer,
}

/// How many entries of `s` are set.
pub open spec fn count_true(s: Seq<bool>) -> nat
    decreases s.len(),
{
    if s.len() == 0 {
        0
    } else {
        count_true(s.drop_last()) + (if s.last() {
            1nat
        } else {
            0nat
        })
    }
}

/// Clearing a set entry lowers the count by exactly one.
proof fn lemma_count_true_update_false(s: Seq<bool>, i: int)
    requires
        0 <= i < s.len(),
        s[i],
    ensures
        count_true(s.update(i, false)) + 1 == count_true(s),
    decreases s.len(),
{
    let t = s.update(i, false);
    if i == s.len() - 1 {
        assert(t.drop_last() =~= s.drop_last());
        assert(!t.last());
        assert(s.last());
    } else {
        assert(t.drop_last() =~= s.drop_last().update(i, false));
        assert(t.last() == s.last());
        lemma_count_true_update_false(s.drop_last(), i);
    }
}

/// The chain of driver-backed resources, reference-counted shared
/// ownership made explicit. Node `i` holds, across the tables: its kind,
/// the earlier nodes it keeps alive, the number of outstanding handles to
/// it, whether its driver object still exists, and, for an image, the
/// allocation it has been bound to (a dependency edge of its own).
pub struct ResourceGraph {
    kinds: Vec<ResourceKind>,
    parents: Vec<Vec<usize>>,
    handles: Vec<u64>,
    alive: Vec<bool>,
    bound: Vec<Option<usize>>,
}

impl ResourceGraph {
    /// How many nodes there are.
    pub closed spec fn spec_len(&self) -> int {
        self.kinds@.len() as int
    }

    /// The kind of node `i`.
    pub closed spec fn spec_kind(&self, i: int) -> ResourceKind {
        self.kinds@[i]
    }

    /// The creation-time dependencies of node `i`.
    pub closed spec fn spec_parents(&self, i: int) -> Seq<usize> {
        self.parents@[i]@
    }

    /// The number of outstanding handles to node `i`.
    pub closed spec fn spec_handles(&self, i: int) -> u64 {
        self.handles@[i]
    }

    /// Whether the driver object of node `i` still exists.
    pub closed spec fn spec_alive(&self, i: int) -> bool {
        self.alive@[i]
    }

    /// The allocation image node `i` has been bound to, if any.
    pub closed spec fn spec_bound(&self, i: int) -> Option<usize> {
        self.bound@[i]
    }

    /// How many nodes are live.
    pub closed spec fn spec_alive_count(&self) -> nat {
        count_true(self.alive@)
    }

    /// The tables span the same nodes.
    pub closed spec fn tables_consistent(&self) -> bool {
        &&& self.parents@.len() == self.kinds@.len()
        &&& self.handles@.len() == self.kinds@.len()
        &&& self.alive@.len() == self.kinds@.len()
        &&& self.bound@.len() == self.kinds@.len()
    }

    /// `id` names a node.
    pub open spec fn valid(&self, id: int) -> bool {
        0 <= id < self.spec_len()
    }

    /// Live node `m` depends on node `j`, through a creation-time edge or
    /// through its binding.
    pub open spec fn is_live_referrer(&self, m: int, j: int) -> bool {
        &&& self.valid(m)
        &&& self.spec_alive(m)
        &&& (self.spec_parents(m).contains(j as usize) || self.spec_bound(m) == Some(j as usize))
    }

    /// Some live node depends on node `j`.
    pub open spec fn has_live_referrer(&self, j: int) -> bool {
        exists|m: int| self.is_live_referrer(m, j)
    }

    /// The dependency structure is sound:
    /// - every creation-time edge points to an earlier node, so the graph
    ///   is acyclic by construction (a binding always points at an
    ///   allocation, which binds nothing, so bindings close no cycle);
    /// - a live node's dependencies are live — its parents and, for a bound
    ///   image, its allocation: nothing is destroyed before a resource that
    ///   depends on it;
    /// - a node with an outstanding handle is live.
    pub open spec fn deps_sound(&self) -> bool {
        &&& self.tables_consistent()
        &&& forall|i: int, p: int|
            self.valid(i) && 0 <= p < self.spec_parents(i).len() ==> (#[trigger] self.spec_parents(
                i,
            )[p]) < i
        &&& forall|i: int, p: int|
            self.valid(i) && self.spec_alive(i) && 0 <= p < self.spec_parents(i).len()
                ==> self.spec_alive((#[trigger] self.spec_parents(i)[p]) as int)
        &&& forall|i: int|
            self.valid(i) ==> match #[trigger] self.spec_bound(i) {
                Some(a) => 0 <= a < self.spec_len() && (self.spec_alive(i) ==> self.spec_alive(
                    a as int,
                )),
                None => true,
            }
        &&& forall|i: int| self.valid(i) && (#[trigger] self.spec_handles(i)) > 0 ==> self.spec_alive(i)
    }

    /// Every live node has an owner — a handle, or a live node depending
    /// on it: a resource is destroyed exactly when its last owner goes.
    pub open spec fn all_owned(&self) -> bool {
        forall|i: int|
            self.valid(i) && (#[trigger] self.spec_alive(i)) ==> self.spec_handles(i) > 0
                || self.has_live_referrer(i)
    }

    /// The graph is sound: the dependency structure is, and every live
    /// node is owned.
    pub open spec fn wf(&self) -> bool {
        self.deps_sound() && self.all_owned()
    }

    /// An empty graph.
    pub fn new() -> (r: ResourceGraph)
        ensures
            r.wf(),
            r.spec_len() == 0,
    {
        ResourceGraph {
            kinds: Vec::new(),
            parents: Vec::new(),
            handles: Vec::new(),
            alive: Vec::new(),
            bound: Vec::new(),
        }
    }

    /// How many nodes the graph holds.
    pub fn len(&self) -> (r: usize)
        requires
            self.wf(),
        ensures
            r == self.spec_len(),
    {
        self.kinds.len()
    }

    /// Whether the driver object of node `id` still exists.
    pub fn is_alive(&self, id: usize) -> (r: bool)
        requires
            self.wf(),
            self.valid(id as int),
        ensures
            r == self.spec_alive(id as int),
    {
        self.alive[id]
    }

    /// The number of outstanding handles to node `id`.
    pub fn handle_count(&self, id: usize) -> (r: u64)
        requires
            self.wf(),
            self.valid(id as int),
        ensures
            r == self.spec_handles(id as int),
    {
        self.handles[id]
    }

    /// The kind of node `id`.
    pub fn kind(&self, id: usize) -> (r: ResourceKind)
        requires
            self.wf(),
            self.valid(id as int),
        ensures
            r == self.spec_kind(id as int),
    {
        self.kinds[id]
    }

    /// The allocation image node `id` has been bound to, if any.
    pub fn bound_allocation(&self, id: usize) -> (r: Option<usize>)
        requires
            self.wf(),
            self.valid(id as int),
        ensures
            r == self.spec_bound(id as int),
    {
        self.bound[id]
    }

    /// Everything except the handle counts and liveness is unchanged.
    pub open spec fn same_structure(&self, other: &ResourceGraph) -> bool {
        &&& self.spec_len() == other.spec_len()
        &&& forall|i: int| self.valid(i) ==> #[trigger] self.spec_kind(i) == other.spec_kind(i)
        &&& forall|i: int| self.valid(i) ==> #[trigger] self.spec_parents(i) == other.spec_parents(i)
        &&& forall|i: int| self.valid(i) ==> #[trigger] self.spec_bound(i) == other.spec_bound(i)
    }

    /// Creates a resource node depending on `parents`, with one handle to
    /// it outstanding.
    pub fn create(&mut self, kind: ResourceKind, parents: Vec<usize>) -> (id: usize)
        requires
            old(self).wf(),
            old(self).spec_len() < 0xFFFF_FFFF,
            forall|p: int|
                0 <= p < parents@.len() ==> old(self).valid((#[trigger] parents@[p]) as int) && old(
                    self,
                ).spec_alive(parents@[p] as int),
        ensures
            final(self).wf(),
            id == old(self).spec_len(),
            final(self).spec_len() == old(self).spec_len() + 1,
            final(self).spec_kind(id as int) == kind,
            final(self).spec_parents(id as int) == parents@,
            final(self).spec_handles(id as int) == 1u64,
            final(self).spec_alive(id as int),
            final(self).spec_bound(id as int) is None,
            forall|i: int|
                old(self).valid(i) ==> #[trigger] final(self).spec_kind(i) == old(self).spec_kind(i)
                    && final(self).spec_parents(i) == old(self).spec_parents(i) && final(self).spec_handles(i)
                    == old(self).spec_handles(i) && final(self).spec_alive(i) == old(self).spec_alive(i)
                    && final(self).spec_bound(i) == old(self).spec_bound(i),
    {
        let id = self.kinds.len();
        self.kinds.push(kind);
        self.parents.push(parents);
        self.handles.push(1);
        self.alive.push(true);
        self.bound.push(None);
        proof {
            assert forall|i: int, p: int|
                self.valid(i) && 0 <= p < self.spec_parents(i).len() implies (
            #[trigger] self.spec_parents(i)[p]) < i by {
                if i < id {
                    assert(self.spec_parents(i) == old(self).spec_parents(i));
                    assert(old(self).spec_parents(i)[p] < i);
                } else {
                    assert(self.spec_parents(i) == parents@);
                }
            }
            assert forall|i: int, p: int|
                self.valid(i) && self.spec_alive(i) && 0 <= p < self.spec_parents(i).len()
                implies self.spec_alive((#[trigger] self.spec_parents(i)[p]) as int) by {
                if i < id {
                    assert(self.spec_parents(i) == old(self).spec_parents(i));
                    assert(old(self).spec_alive(i));
                    assert(old(self).spec_parents(i)[p] < i);
                    assert(old(self).spec_alive(old(self).spec_parents(i)[p] as int));
                } else {
                    assert(self.spec_parents(i) == parents@);
                    assert(old(self).spec_alive(parents@[p] as int));
                }
            }
            assert forall|i: int|
                self.valid(i) implies match #[trigger] self.spec_bound(i) {
                Some(a) => 0 <= a < self.spec_len() && (self.spec_alive(i) ==> self.spec_alive(
                    a as int,
                )),
                None => true,
            } by {
                if i < id {
                    assert(self.spec_bound(i) == old(self).spec_bound(i));
                    if old(self).spec_bound(i) is Some {
                        let a = old(self).spec_bound(i)->0;
                        assert(0 <= a < old(self).spec_len());
                        if self.spec_alive(i) {
                            assert(old(self).spec_alive(i));
                            assert(old(self).spec_alive(a as int));
                        }
                    }
                }
            }
            assert forall|i: int|
                self.valid(i) && (#[trigger] self.spec_handles(i)) > 0 implies self.spec_alive(
                i,
            ) by {
                if i < id {
                    assert(old(self).spec_handles(i) > 0);
                    assert(old(self).spec_alive(i));
                }
            }
            assert forall|j: int|
                self.valid(j) && (#[trigger] self.spec_alive(j)) implies self.spec_handles(j) > 0
                || self.has_live_referrer(j) by {
                if j < id && self.spec_handles(j) == 0 {
                    assert(old(self).valid(j) && old(self).spec_alive(j) && old(self).spec_handles(
                        j,
                    ) == 0);
                    assert(old(self).has_live_referrer(j));
                    let m = choose|m: int| old(self).is_live_referrer(m, j);
                    assert(self.spec_parents(m) == old(self).spec_parents(m));
                    assert(self.spec_bound(m) == old(self).spec_bound(m));
                    assert(self.is_live_referrer(m, j));
                }
            }
        }
        id
    }

    /// Clones a handle to node `id`.
    pub fn clone_handle(&mut self, id: usize)
        requires
            old(self).wf(),
            old(self).valid(id as int),
            old(self).spec_handles(id as int) >= 1,
            old(self).spec_handles(id as int) < 0xFFFF_FFFF_FFFF_FFFF,
        ensures
            final(self).wf(),
            final(self).same_structure(old(self)),
            final(self).spec_handles(id as int) == old(self).spec_handles(id as int) + 1,
            forall|i: int|
                old(self).valid(i) && i != id ==> #[trigger] final(self).spec_handles(i) == old(
                    self,
                ).spec_handles(i),
            forall|i: int|
                old(self).valid(i) ==> #[trigger] final(self).spec_alive(i) == old(self).spec_alive(
                    i,
                ),
    {
        let h = self.handles[id];
        self.handles[id] = h + 1;
        proof {
            assert forall|i: int, p: int|
                self.valid(i) && 0 <= p < self.spec_parents(i).len() implies (
            #[trigger] self.spec_parents(i)[p]) < i by {
                assert(self.spec_parents(i) == old(self).spec_parents(i));
                assert(old(self).spec_parents(i)[p] < i);
            }
            assert forall|i: int, p: int|
                self.valid(i) && self.spec_alive(i) && 0 <= p < self.spec_parents(i).len()
                implies self.spec_alive((#[trigger] self.spec_parents(i)[p]) as int) by {
                assert(self.spec_parents(i) == old(self).spec_parents(i));
                assert(old(self).spec_alive(i));
                assert(old(self).spec_alive(old(self).spec_parents(i)[p] as int));
            }
            assert forall|i: int|
                self.valid(i) implies match #[trigger] self.spec_bound(i) {
                Some(a) => 0 <= a < self.spec_len() && (self.spec_alive(i) ==> self.spec_alive(
                    a as int,
                )),
                None => true,
            } by {
                assert(self.spec_bound(i) == old(self).spec_bound(i));
                if old(self).spec_bound(i) is Some {
                    let a = old(self).spec_bound(i)->0;
                    assert(0 <= a < old(self).spec_len());
                    if self.spec_alive(i) {
                        assert(old(self).spec_alive(i));
                        assert(old(self).spec_alive(a as int));
                    }
                }
            }
            assert forall|i: int|
                self.valid(i) && (#[trigger] self.spec_handles(i)) > 0 implies self.spec_alive(
                i,
            ) by {
                assert(old(self).spec_handles(i) > 0 || i == id);
                assert(old(self).spec_alive(i));
            }
            assert forall|j: int|
                self.valid(j) && (#[trigger] self.spec_alive(j)) implies self.spec_handles(j) > 0
                || self.has_live_referrer(j) by {
                if self.spec_handles(j) == 0 {
                    assert(old(self).valid(j) && old(self).spec_alive(j) && old(self).spec_handles(
                        j,
                    ) == 0);
                    assert(old(self).has_live_referrer(j));
                    let m = choose|m: int| old(self).is_live_referrer(m, j);
                    assert(self.is_live_referrer(m, j));
                }
            }
        }
    }

    /// Binds a live image node to a live allocation node: a one-time
    /// transition that also makes the image an owner of the allocation, so
    /// the allocation outlives the bound image. Binding an already-bound
    /// image fails with the `ImageAlreadyBound` error and leaves the
    /// original binding, and the whole graph, intact.
    pub fn bind_image(&mut self, image: usize, allocation: usize) -> (r: Result<(), Error>)
        requires
            old(self).wf(),
            old(self).valid(image as int),
            old(self).valid(allocation as int),
            old(self).spec_kind(image as int) == ResourceKind::Image,
            old(self).spec_kind(allocation as int) == ResourceKind::Allocation,
            old(self).spec_alive(image as int),
            old(self).spec_alive(allocation as int),
        ensures
            final(self).wf(),
            match r {
                Ok(()) => {
                    &&& old(self).spec_bound(image as int) is None
                    &&& final(self).spec_bound(image as int) == Some(allocation)
                    &&& forall|i: int|
                        old(self).valid(i) && i != image ==> #[trigger] final(self).spec_bound(i)
                            == old(self).spec_bound(i)
                    &&& final(self).spec_len() == old(self).spec_len()
                    &&& forall|i: int|
                        old(self).valid(i) ==> #[trigger] final(self).spec_kind(i) == old(
                            self,
                        ).spec_kind(i) && final(self).spec_parents(i) == old(self).spec_parents(i)
                            && final(self).spec_handles(i) == old(self).spec_handles(i) && final(self).spec_alive(i)
                            == old(self).spec_alive(i)
                },
                Err(e) => {
                    &&& old(self).spec_bound(image as int) is Some
                    &&& e.spec_variant() == Variant::ImageAlreadyBound
                    &&& *final(self) == *old(self)
                },
            },
    {
        if self.bound[image].is_some() {
            return Err(Error::new(None, Variant::ImageAlreadyBound));
        }
        self.bound[image] = Some(allocation);
        proof {
            assert forall|i: int, p: int|
                self.valid(i) && 0 <= p < self.spec_parents(i).len() implies (
            #[trigger] self.spec_parents(i)[p]) < i by {
                assert(self.spec_parents(i) == old(self).spec_parents(i));
                assert(old(self).spec_parents(i)[p] < i);
            }
            assert forall|i: int, p: int|
                self.valid(i) && self.spec_alive(i) && 0 <= p < self.spec_parents(i).len()
                implies self.spec_alive((#[trigger] self.spec_parents(i)[p]) as int) by {
                assert(self.spec_parents(i) == old(self).spec_parents(i));
                assert(old(self).spec_alive(i));
                assert(old(self).spec_parents(i)[p] < i);
                assert(old(self).spec_alive(old(self).spec_parents(i)[p] as int));
            }
            assert forall|i: int|
                self.valid(i) implies match #[trigger] self.spec_bound(i) {
                Some(a) => 0 <= a < self.spec_len() && (self.spec_alive(i) ==> self.spec_alive(
                    a as int,
                )),
                None => true,
            } by {
                if i == image {
                    assert(self.spec_bound(i) == Some(allocation));
                    assert(self.spec_alive(allocation as int));
                } else {
                    assert(self.spec_bound(i) == old(self).spec_bound(i));
                    if old(self).spec_bound(i) is Some {
                        let a = old(self).spec_bound(i)->0;
                        assert(0 <= a < old(self).spec_len());
                        if self.spec_alive(i) {
                            assert(old(self).spec_alive(i));
                            assert(old(self).spec_alive(a as int));
                        }
                    }
                }
            }
            assert forall|i: int|
                self.valid(i) && (#[trigger] self.spec_handles(i)) > 0 implies self.spec_alive(
                i,
            ) by {
                assert(old(self).spec_handles(i) > 0);
                assert(old(self).spec_alive(i));
            }
            assert forall|j: int|
                self.valid(j) && (#[trigger] self.spec_alive(j)) implies self.spec_handles(j) > 0
                || self.has_live_referrer(j) by {
                if self.spec_handles(j) == 0 {
                    assert(old(self).valid(j) && old(self).spec_alive(j) && old(self).spec_handles(
                        j,
                    ) == 0);
                    assert(old(self).has_live_referrer(j));
                    let m = choose|m: int| old(self).is_live_referrer(m, j);
                    if m == image {
                        assert(old(self).spec_bound(m) is None);
                        assert(old(self).spec_parents(m).contains(j as usize));
                        assert(self.spec_parents(m) == old(self).spec_parents(m));
                    } else {
                        assert(self.spec_parents(m) == old(self).spec_parents(m));
                        assert(self.spec_bound(m) == old(self).spec_bound(m));
                    }
                    assert(self.is_live_referrer(m, j));
                }
            }
        }
        Ok(())
    }
}

/// Whether `v` holds `id`.
fn contains_id(v: &Vec<usize>, id: usize) -> (r: bool)
    ensures
        r == v@.contains(id),
{
    let mut i: usize = 0;
    while i < v.len()
        invariant
            i <= v@.len(),
            forall|q: int| 0 <= q < i ==> v@[q] != id,
        decreases v@.len() - i,
    {
        if v[i] == id {
            return true;
        }
        i = i + 1;
    }
    false
}

impl ResourceGraph {
    /// Whether some live node depends on node `j`.
    fn has_referrer(&self, j: usize) -> (r: bool)
        requires
            self.tables_consistent(),
        ensures
            r == self.has_live_referrer(j as int),
    {
        let n = self.kinds.len();
        let mut m: usize = 0;
        while m < n
            invariant
                self.tables_consistent(),
                n == self.spec_len(),
                m <= n,
                forall|q: int| 0 <= q < m ==> !self.is_live_referrer(q, j as int),
            decreases n - m,
        {
            if self.alive[m] {
                if contains_id(&self.parents[m], j) {
                    proof {
                        assert(self.is_live_referrer(m as int, j as int));
                    }
                    return true;
                }
                if self.bound[m] == Some(j) {
                    proof {
                        assert(self.is_live_referrer(m as int, j as int));
                    }
                    return true;
                }
            }
            m = m + 1;
        }
        false
    }

    /// The live entries of the liveness table, as a copy.
    fn alive_snapshot(&self) -> (r: Vec<bool>)
        requires
            self.tables_consistent(),
        ensures
            r@ == self.alive@,
    {
        let n = self.alive.len();
        let mut out: Vec<bool> = Vec::new();
        let mut i: usize = 0;
        while i < n
            invariant
                i <= n,
                n == self.alive@.len(),
                out@.len() == i as int,
                forall|j: int| 0 <= j < i ==> #[trigger] out@[j] == self.alive@[j],
            decreases n - i,
        {
            out.push(self.alive[i]);
            i = i + 1;
        }
        proof {
            assert(out@ =~= self.alive@);
        }
        out
    }

    /// One backward destruction pass: every live node without a handle and
    /// without a live dependent is destroyed. Reports whether anything was.
    fn sweep(&mut self) -> (killed: bool)
        requires
            old(self).deps_sound(),
        ensures
            final(self).deps_sound(),
            final(self).kinds@ == old(self).kinds@,
            final(self).parents@ == old(self).parents@,
            final(self).handles@ == old(self).handles@,
            final(self).bound@ == old(self).bound@,
            forall|j: int|
                final(self).valid(j) && #[trigger] final(self).spec_alive(j) ==> old(
                    self,
                ).spec_alive(j),
            forall|j: int|
                old(self).valid(j) && old(self).spec_alive(j) && !(#[trigger] final(self).spec_alive(j)) ==> final(self).spec_handles(j) == 0 && !final(self).has_live_referrer(j),
            !killed ==> final(self).alive@ == old(self).alive@,
            !killed ==> final(self).all_owned(),
            final(self).spec_alive_count() <= old(self).spec_alive_count(),
            killed ==> final(self).spec_alive_count() < old(self).spec_alive_count(),
    {
        let n = self.kinds.len();
        let mut killed = false;
        let mut i: usize = n;
        while i > 0
            invariant
                old(self).deps_sound(),
                self.deps_sound(),
                i <= n,
                n == self.spec_len(),
                self.kinds@ == old(self).kinds@,
                self.parents@ == old(self).parents@,
                self.handles@ == old(self).handles@,
                self.bound@ == old(self).bound@,
                forall|j: int|
                    self.valid(j) && #[trigger] self.spec_alive(j) ==> old(self).spec_alive(j),
                forall|j: int|
                    old(self).valid(j) && old(self).spec_alive(j) && !(#[trigger] self.spec_alive(
                        j,
                    )) ==> self.spec_handles(j) == 0 && !self.has_live_referrer(j),
                !killed ==> self.alive@ == old(self).alive@,
                !killed ==> forall|j: int|
                    i <= j < n && #[trigger] self.spec_alive(j) && self.spec_handles(j) == 0
                        ==> self.has_live_referrer(j),
                self.spec_alive_count() <= old(self).spec_alive_count(),
                killed ==> self.spec_alive_count() < old(self).spec_alive_count(),
            decreases i,
        {
            i = i - 1;
            let ghost pre = *self;
            if self.alive[i] && self.handles[i] == 0 {
                let referred = self.has_referrer(i);
                if !referred {
                    self.alive[i] = false;
                    killed = true;
                    proof {
                        assert(self.alive@ =~= pre.alive@.update(i as int, false));
                        lemma_count_true_update_false(pre.alive@, i as int);
                        assert forall|j: int, p: int|
                            self.valid(j) && 0 <= p < self.spec_parents(j).len() implies (
                        #[trigger] self.spec_parents(j)[p]) < j by {
                            assert(self.spec_parents(j) == pre.spec_parents(j));
                            assert(pre.spec_parents(j)[p] < j);
                        }
                        assert forall|j: int, p: int|
                            self.valid(j) && self.spec_alive(j) && 0 <= p < self.spec_parents(
                                j,
                            ).len() implies self.spec_alive(
                            (#[trigger] self.spec_parents(j)[p]) as int,
                        ) by {
                            assert(pre.spec_alive(j));
                            if self.spec_parents(j)[p] == i {
                                assert(pre.spec_parents(j) == self.spec_parents(j));
                                assert(pre.spec_parents(j).contains(i));
                                assert(pre.is_live_referrer(j, i as int));
                                assert(false);
                            } else {
                                assert(pre.spec_parents(j) == self.spec_parents(j));
                                assert(pre.spec_parents(j)[p] < j);
                                assert(pre.spec_alive(pre.spec_parents(j)[p] as int));
                                assert(self.spec_parents(j)[p] != i);
                            }
                        }
                        assert forall|j: int|
                            self.valid(j) implies match #[trigger] self.spec_bound(j) {
                            Some(a) => 0 <= a < self.spec_len() && (self.spec_alive(j)
                                ==> self.spec_alive(a as int)),
                            None => true,
                        } by {
                            assert(self.spec_bound(j) == pre.spec_bound(j));
                            if pre.spec_bound(j) is Some {
                                let a = pre.spec_bound(j)->0;
                                assert(0 <= a < pre.spec_len());
                                if self.spec_alive(j) {
                                    assert(j != i);
                                    assert(pre.spec_alive(j));
                                    assert(pre.spec_alive(a as int));
                                    if a == i {
                                        assert(pre.is_live_referrer(j, i as int));
                                        assert(false);
                                    }
                                }
                            }
                        }
                        assert forall|j: int|
                            self.valid(j) && (#[trigger] self.spec_handles(j)) > 0
                            implies self.spec_alive(j) by {
                            assert(pre.spec_handles(j) > 0);
                            assert(pre.spec_alive(j));
                            assert(j != i);
                        }
                        assert forall|j: int|
                            old(self).valid(j) && old(self).spec_alive(j) && !(
                        #[trigger] self.spec_alive(j)) implies self.spec_handles(j) == 0
                            && !self.has_live_referrer(j) by {
                            assert(self.spec_handles(j) == pre.spec_handles(j));
                            if j == i {
                                assert(self.spec_handles(j) == 0);
                                assert forall|m: int| !self.is_live_referrer(m, j) by {
                                    if self.valid(m) && self.spec_alive(m) {
                                        assert(pre.spec_alive(m));
                                        assert(!pre.is_live_referrer(m, i as int));
                                        assert(pre.spec_parents(m) == self.spec_parents(m));
                                        assert(pre.spec_bound(m) == self.spec_bound(m));
                                        assert(!self.spec_parents(m).contains(j as usize));
                                        assert(self.spec_bound(m) != Some(j as usize));
                                    }
                                }
                                assert(!self.has_live_referrer(j));
                            } else {
                                assert(!pre.spec_alive(j));
                                assert(pre.spec_handles(j) == 0);
                                assert(!pre.has_live_referrer(j));
                                assert forall|m: int| !self.is_live_referrer(m, j) by {
                                    if self.valid(m) && self.spec_alive(m) {
                                        assert(pre.spec_alive(m));
                                        assert(!pre.is_live_referrer(m, j));
                                        assert(pre.spec_parents(m) == self.spec_parents(m));
                                        assert(pre.spec_bound(m) == self.spec_bound(m));
                                        assert(!self.spec_parents(m).contains(j as usize));
                                        assert(self.spec_bound(m) != Some(j as usize));
                                    }
                                }
                                assert(!self.has_live_referrer(j));
                            }
                        }
                        assert forall|j: int|
                            self.valid(j) && #[trigger] self.spec_alive(j) implies old(
                            self,
                        ).spec_alive(j) by {
                            if j != i {
                                assert(self.spec_alive(j) == pre.spec_alive(j));
                            }
                        }
                    }
                }
            }
            proof {
                if !killed {
                    if self.spec_alive(i as int) && self.spec_handles(i as int) == 0 {
                        assert(self.has_live_referrer(i as int));
                    }
                }
            }
        }
        killed
    }

    /// Releases one handle to node `id`. When the last owner of a node
    /// goes away — no handle left and no live node depending on it — its
    /// driver object is destroyed, which cascades to the nodes it depended
    /// on; a node that still has an owner is never destroyed. Returns the
    /// nodes destroyed by this release, in descending node order.
    pub fn release(&mut self, id: usize) -> (dead: Vec<usize>)
        requires
            old(self).wf(),
            old(self).valid(id as int),
            old(self).spec_handles(id as int) >= 1,
        ensures
            final(self).wf(),
            final(self).same_structure(old(self)),
            final(self).spec_handles(id as int) == old(self).spec_handles(id as int) - 1,
            forall|i: int|
                old(self).valid(i) && i != id ==> #[trigger] final(self).spec_handles(i) == old(
                    self,
                ).spec_handles(i),
            forall|i: int|
                old(self).valid(i) && #[trigger] final(self).spec_alive(i) ==> old(self).spec_alive(
                    i,
                ),
            forall|i: int|
                old(self).valid(i) && old(self).spec_alive(i) && (final(self).spec_handles(i) > 0
                    || final(self).has_live_referrer(i)) ==> #[trigger] final(self).spec_alive(i),
            forall|k: int|
                0 <= k < dead@.len() ==> old(self).valid((#[trigger] dead@[k]) as int) && old(
                    self,
                ).spec_alive(dead@[k] as int) && !final(self).spec_alive(dead@[k] as int),
            forall|j: int|
                old(self).valid(j) && old(self).spec_alive(j) && !(#[trigger] final(self).spec_alive(j)) ==> dead@.contains(j as usize),
            forall|k1: int, k2: int| 0 <= k1 < k2 < dead@.len() ==> dead@[k1] > dead@[k2],
    {
        let h = self.handles[id];
        self.handles[id] = h - 1;
        let ghost d0 = *self;
        proof {
            assert forall|j: int, p: int|
                d0.valid(j) && 0 <= p < d0.spec_parents(j).len() implies (
            #[trigger] d0.spec_parents(j)[p]) < j by {
                assert(d0.spec_parents(j) == old(self).spec_parents(j));
                assert(old(self).spec_parents(j)[p] < j);
            }
            assert forall|j: int, p: int|
                d0.valid(j) && d0.spec_alive(j) && 0 <= p < d0.spec_parents(j).len()
                implies d0.spec_alive((#[trigger] d0.spec_parents(j)[p]) as int) by {
                assert(d0.spec_parents(j) == old(self).spec_parents(j));
                assert(old(self).spec_alive(j));
                assert(old(self).spec_alive(old(self).spec_parents(j)[p] as int));
            }
            assert forall|j: int|
                d0.valid(j) implies match #[trigger] d0.spec_bound(j) {
                Some(a) => 0 <= a < d0.spec_len() && (d0.spec_alive(j) ==> d0.spec_alive(a as int)),
                None => true,
            } by {
                assert(d0.spec_bound(j) == old(self).spec_bound(j));
                if old(self).spec_bound(j) is Some {
                    let a = old(self).spec_bound(j)->0;
                    assert(0 <= a < old(self).spec_len());
                    if d0.spec_alive(j) {
                        assert(old(self).spec_alive(j));
                        assert(old(self).spec_alive(a as int));
                    }
                }
            }
            assert forall|j: int|
                d0.valid(j) && (#[trigger] d0.spec_handles(j)) > 0 implies d0.spec_alive(j) by {
                assert(old(self).spec_handles(j) > 0);
                assert(old(self).spec_alive(j));
            }
        }
        let before = self.alive_snapshot();
        let mut killed = true;
        while killed
            invariant
                d0.deps_sound(),
                self.deps_sound(),
                before@ == d0.alive@,
                self.kinds@ == d0.kinds@,
                self.parents@ == d0.parents@,
                self.handles@ == d0.handles@,
                self.bound@ == d0.bound@,
                forall|j: int|
                    self.valid(j) && #[trigger] self.spec_alive(j) ==> d0.spec_alive(j),
                forall|j: int|
                    d0.valid(j) && d0.spec_alive(j) && !(#[trigger] self.spec_alive(j))
                        ==> self.spec_handles(j) == 0 && !self.has_live_referrer(j),
                !killed ==> self.all_owned(),
            decreases self.spec_alive_count(), (if killed {
                1int
            } else {
                0int
            }),
        {
            let ghost head = *self;
            killed = self.sweep();
            proof {
                assert forall|j: int|
                    d0.valid(j) && d0.spec_alive(j) && !(#[trigger] self.spec_alive(j))
                    implies self.spec_handles(j) == 0 && !self.has_live_referrer(j) by {
                    if head.spec_alive(j) {
                        assert(self.spec_handles(j) == 0 && !self.has_live_referrer(j));
                    } else {
                        assert(head.spec_handles(j) == 0 && !head.has_live_referrer(j));
                        assert(self.spec_handles(j) == head.spec_handles(j));
                        assert forall|m: int| !self.is_live_referrer(m, j) by {
                            if self.valid(m) && self.spec_alive(m) {
                                assert(head.spec_alive(m));
                                assert(!head.is_live_referrer(m, j));
                                assert(self.spec_parents(m) == head.spec_parents(m));
                                assert(self.spec_bound(m) == head.spec_bound(m));
                            }
                        }
                        assert(!self.has_live_referrer(j));
                    }
                }
            }
        }
        let n = self.kinds.len();
        let mut dead: Vec<usize> = Vec::new();
        let mut i: usize = n;
        while i > 0
            invariant
                self.tables_consistent(),
                i <= n,
                n == self.spec_len(),
                before@.len() == n,
                forall|k: int|
                    0 <= k < dead@.len() ==> i <= (#[trigger] dead@[k]) < n && before@[dead@[k] as int]
                        && !self.spec_alive(dead@[k] as int),
                forall|j: int|
                    i <= j < n && before@[j] && !(#[trigger] self.spec_alive(j)) ==> dead@.contains(
                        j as usize,
                    ),
                forall|k1: int, k2: int| 0 <= k1 < k2 < dead@.len() ==> dead@[k1] > dead@[k2],
            decreases i,
        {
            i = i - 1;
            let ghost old_dead = dead@;
            if before[i] && !self.alive[i] {
                dead.push(i);
            }
            proof {
                assert forall|j: int|
                    i <= j < n && before@[j] && !(#[trigger] self.spec_alive(j))
                    implies dead@.contains(j as usize) by {
                    if j == i {
                        assert(dead@.last() == i as usize);
                    } else {
                        assert(old_dead.contains(j as usize));
                        let k = choose|k: int| 0 <= k < old_dead.len() && old_dead[k] == j as usize;
                        assert(dead@[k] == j as usize);
                    }
                }
            }
        }
        dead
    }

    /// A resource with an outstanding handle is live, and so is everything
    /// it depends on: releasing a handle to a device while a buffer created
    /// from it is still held cannot have destroyed the device, since every
    /// graph these operations produce is well formed.
    pub proof fn lemma_held_dependent_keeps_parent(g: ResourceGraph, child: int, p: int)
        requires
            g.wf(),
            g.valid(child),
            g.spec_handles(child) >= 1,
            0 <= p < g.spec_parents(child).len(),
        ensures
            g.spec_alive(child),
            g.spec_alive(g.spec_parents(child)[p] as int),
    {
        assert(g.spec_alive(child));
        assert(g.spec_alive((g.spec_parents(child)[p]) as int));
    }

    /// A held image keeps the allocation it is bound to alive: the binding
    /// is an ownership edge, so the allocation's driver memory cannot be
    /// freed while the bound image exists.
    pub proof fn lemma_held_image_keeps_binding(g: ResourceGraph, image: int, allocation: usize)
        requires
            g.wf(),
            g.valid(image),
            g.spec_handles(image) >= 1,
            g.spec_bound(image) == Some(allocation),
        ensures
            g.spec_alive(image),
            g.spec_alive(allocation as int),
    {
        assert(g.spec_alive(image));
        assert(g.spec_alive(allocation as int));
    }
}

} // verus!
