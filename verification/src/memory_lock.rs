//! The dependency-validity tracking core.
//!
//! Every resource handed out by the native library is represented by a
//! [`ValidityCell`]: a slot that either holds a snapshot of the resource's
//! descriptor or nothing, once the resource has been torn down.  The cells of
//! one device and of everything derived from it live together in a
//! [`ValidityChain`], which stands for the pool of cells that all wrapper
//! objects of that device share; a wrapper names its cell by index.  Each
//! cell records the index of the cell it was derived from, so a `check`
//! walks the whole ancestor path, root-ward, before it hands out a snapshot,
//! and an `invalidate` clears exactly one slot; descendants observe the
//! break on their next `check`.

use vstd::prelude::*;

verus! {

/// The one error of this layer: the resource, or an ancestor of it, has
/// already been torn down.  There is no recovery; the resource must be
/// rebuilt from a live ancestor.
#[derive(Clone, Copy, Debug, PartialEq, Eq, Structural)]
pub struct Invalidated;

/// The mathematical model of one cell: the snapshot its slot holds, if any,
/// and the index of the cell it depends on, if any.
pub ghost struct CellModel<T> {
    pub slot: Option<T>,
    pub parent: Option<int>,
}

/// Every parent link points at an earlier cell.  The constructors can only
/// wire a new cell to a cell that already exists, so every chain they build
/// satisfies this.
pub open spec fn parents_bounded<T>(cells: Seq<CellModel<T>>) -> bool {
    forall|i: int|
        0 <= i < cells.len() ==> (match (#[trigger] cells[i]).parent {
            Some(p) => 0 <= p < i,
            None => true,
        })
}

/// Whether every proper ancestor of cell `i` still holds a snapshot.  A cell
/// whose parent link does not point at an earlier cell is treated as cut off
/// from its ancestors and never validates.
pub open spec fn ancestors_live<T>(cells: Seq<CellModel<T>>, i: int) -> bool
    decreases i,
{
    0 <= i < cells.len() && (match cells[i].parent {
        Some(p) => 0 <= p < i && cells[p].slot is Some && ancestors_live(cells, p),
        None => true,
    })
}

/// Whether cell `i` and every ancestor of it still hold a snapshot: exactly
/// the condition under which `check` hands out a snapshot.
pub open spec fn chain_live<T>(cells: Seq<CellModel<T>>, i: int) -> bool {
    &&& 0 <= i < cells.len()
    &&& cells[i].slot is Some
    &&& ancestors_live(cells, i)
}

/// Whether cell `a` lies on the ancestor path of cell `i`, the cell itself
/// included.
pub open spec fn in_lineage<T>(cells: Seq<CellModel<T>>, a: int, i: int) -> bool
    decreases i,
{
    0 <= i < cells.len() && (a == i || (match cells[i].parent {
        Some(p) => 0 <= p < i && in_lineage(cells, a, p),
        None => false,
    }))
}

/// What `check` returns on a chain in state `cells`: the snapshot of cell
/// `i` when the whole ancestor path is live, and `Invalidated` otherwise.
pub open spec fn spec_check<T>(cells: Seq<CellModel<T>>, i: int) -> Result<T, Invalidated> {
    if chain_live(cells, i) {
        Ok(cells[i].slot->0)
    } else {
        Err(Invalidated)
    }
}

/// The state after `invalidate` of cell `i`: only that cell's slot is
/// cleared; every other cell and every parent link is untouched.
pub open spec fn spec_invalidate<T>(cells: Seq<CellModel<T>>, i: int) -> Seq<CellModel<T>> {
    if 0 <= i < cells.len() {
        cells.update(i, CellModel { slot: None, parent: cells[i].parent })
    } else {
        cells
    }
}

/// A shared, mutually exclusive box holding either a live snapshot of a
/// resource descriptor or nothing, meaning the resource was freed.
pub struct ValidityCell<T> {
    slot: Option<T>,
}

impl<T> View for ValidityCell<T> {
    type V = Option<T>;

    closed spec fn view(&self) -> Option<T> {
        self.slot
    }
}

impl<T: Copy> ValidityCell<T> {
    /// Wraps `value` as the initial live state.
    pub fn new(value: T) -> (cell: Self)
        ensures
            cell@ == Some(value),
    {
        ValidityCell { slot: Some(value) }
    }

    /// Returns a copy of the snapshot while the slot is live, and
    /// `Invalidated` once the resource was freed.  Read-only.
    pub fn check(&self) -> (r: Result<T, Invalidated>)
        ensures
            self@ is Some ==> r == Ok::<T, Invalidated>(self@->0),
            self@ is None ==> r == Err::<T, Invalidated>(Invalidated),
    {
        match self.slot {
            Some(v) => Ok(v),
            None => Err(Invalidated),
        }
    }

    /// Unconditionally clears the slot, discarding any prior snapshot.
    /// Idempotent: an already cleared slot stays cleared.
    pub fn invalidate(&mut self)
        ensures
            final(self)@ is None,
    {
        self.slot = None;
    }
}

/// One link of the chain: a resource's own cell, paired with the index of
/// the cell of the resource it was derived from, or none for a root.
struct DependencyNode<T> {
    cell: ValidityCell<T>,
    parent: Option<usize>,
}

/// The pool of cells shared by every wrapper object of one device chain.
/// Wrapper objects hold indices into it; the pool itself is the single owner
/// of every slot, and outlives every wrapper that names a cell in it.
pub struct ValidityChain<T> {
    nodes: Vec<DependencyNode<T>>,
}

impl<T> View for ValidityChain<T> {
    type V = Seq<CellModel<T>>;

    closed spec fn view(&self) -> Seq<CellModel<T>> {
        Seq::new(
            self.nodes@.len(),
            |i: int|
                CellModel {
                    slot: self.nodes@[i].cell@,
                    parent: match self.nodes@[i].parent {
                        Some(p) => Some(p as int),
                        None => None,
                    },
                },
        )
    }
}

impl<T: Copy> ValidityChain<T> {
    /// An empty pool: no resource has been registered yet.
    pub fn new() -> (chain: Self)
        ensures
            chain@ == Seq::<CellModel<T>>::empty(),
    {
        let chain = ValidityChain { nodes: Vec::new() };
        proof {
            assert(chain@ =~= Seq::<CellModel<T>>::empty());
        }
        chain
    }

    /// The number of cells registered so far.
    pub fn len(&self) -> (n: usize)
        ensures
            n == self@.len(),
    {
        self.nodes.len()
    }

    /// Registers a root resource: a fresh live cell with no parent.
    pub fn new_root(&mut self, value: T) -> (id: usize)
        ensures
            id == old(self)@.len(),
            final(self)@ == old(self)@.push((CellModel { slot: Some(value), parent: None })),
    {
        let id = self.nodes.len();
        self.nodes.push(DependencyNode { cell: ValidityCell::new(value), parent: None });
        proof {
            assert(self@ =~= old(self)@.push((CellModel { slot: Some(value), parent: None })));
        }
        id
    }

    /// Registers a resource derived from the resource of cell `parent`: a
    /// fresh live cell wired to it.  A `parent` index that names no earlier
    /// cell leaves the new cell permanently invalid, since its ancestor
    /// path can never validate; the constructors of the wrapper types check
    /// the parent before deriving, so they never create such a cell.
    pub fn new_child(&mut self, value: T, parent: usize) -> (id: usize)
        ensures
            id == old(self)@.len(),
            final(self)@ == old(self)@.push(
                (CellModel { slot: Some(value), parent: Some(parent as int) }),
            ),
    {
        let id = self.nodes.len();
        self.nodes.push(DependencyNode { cell: ValidityCell::new(value), parent: Some(parent) });
        proof {
            assert(self@ =~= old(self)@.push(
                (CellModel { slot: Some(value), parent: Some(parent as int) }),
            ));
        }
        id
    }

    /// The chain walker: validates the whole ancestor path of cell `id`,
    /// root-ward, before inspecting the cell's own slot, and hands out a
    /// snapshot only when every cell on the path is live.
    pub fn check(&self, id: usize) -> (r: Result<T, Invalidated>)
        ensures
            r == spec_check(self@, id as int),
    {
        if id >= self.nodes.len() {
            return Err(Invalidated);
        }
        let mut cur: usize = id;
        loop
            invariant
                cur <= id < self.nodes@.len(),
                ancestors_live(self@, id as int) <==> ancestors_live(self@, cur as int),
            ensures
                ancestors_live(self@, id as int),
            decreases cur,
        {
            match self.nodes[cur].parent {
                None => {
                    break;
                },
                Some(p) => {
                    if p >= cur {
                        // A malformed link: the ancestor path cannot validate.
                        return Err(Invalidated);
                    }
                    cur = p;
                    match self.nodes[cur].cell.check() {
                        Ok(_) => {},
                        Err(e) => {
                            return Err(e);
                        },
                    }
                },
            }
        }
        self.nodes[id].cell.check()
    }

    /// The invalidator: clears exactly the slot of cell `id`, leaving every
    /// other cell and every parent link untouched.  Descendants of the
    /// resource discover the break on their next `check`.  Idempotent, and
    /// a no-op for an index that names no cell.
    pub fn invalidate(&mut self, id: usize)
        ensures
            final(self)@ == spec_invalidate(old(self)@, id as int),
    {
        if id < self.nodes.len() {
            let node = &mut self.nodes[id];
            node.cell.invalidate();
            proof {
                assert(self@ =~= spec_invalidate(old(self)@, id as int));
            }
        }
    }
}

/// The validity cell of a device connection: the root of a chain.  Owned by
/// the device wrapper; every resource derived from the device wires its own
/// cell to this one.
#[derive(Debug)]
pub struct IdeviceMemoryLock {
    pub cell: usize,
}

impl IdeviceMemoryLock {
    /// Registers the device's descriptor snapshot as a fresh root cell.
    pub fn new<T: Copy>(chain: &mut ValidityChain<T>, value: T) -> (lock: Self)
        ensures
            lock.cell == old(chain)@.len(),
            final(chain)@ == old(chain)@.push((CellModel { slot: Some(value), parent: None })),
    {
        IdeviceMemoryLock { cell: chain.new_root(value) }
    }

    /// Returns the device snapshot while the device is live.
    pub fn check<T: Copy>(&self, chain: &ValidityChain<T>) -> (r: Result<T, Invalidated>)
        ensures
            r == spec_check(chain@, self.cell as int),
    {
        chain.check(self.cell)
    }

    /// Clears only the device's own cell; resources derived from the device
    /// discover the break on their next `check`.
    pub fn invalidate<T: Copy>(&self, chain: &mut ValidityChain<T>)
        ensures
            final(chain)@ == spec_invalidate(old(chain)@, self.cell as int),
    {
        chain.invalidate(self.cell)
    }
}

/// The validity cell of a protocol client.  A protocol client relies on its
/// device: its cell is wired to the device's cell, and its `check` fails as
/// soon as the device is gone.
#[derive(Debug)]
pub struct LockdowndClientLock {
    pub cell: usize,
}

impl LockdowndClientLock {
    /// Registers the client's descriptor snapshot as a fresh cell derived
    /// from the device's cell.
    pub fn new<T: Copy>(
        chain: &mut ValidityChain<T>,
        value: T,
        idevice_lock: &IdeviceMemoryLock,
    ) -> (lock: Self)
        ensures
            lock.cell == old(chain)@.len(),
            final(chain)@ == old(chain)@.push(
                (CellModel { slot: Some(value), parent: Some(idevice_lock.cell as int) }),
            ),
    {
        LockdowndClientLock { cell: chain.new_child(value, idevice_lock.cell) }
    }

    /// Returns the client snapshot if all dependencies are satisfied: the
    /// client itself and the device it was derived from must be live.
    pub fn check<T: Copy>(&self, chain: &ValidityChain<T>) -> (r: Result<T, Invalidated>)
        ensures
            r == spec_check(chain@, self.cell as int),
    {
        chain.check(self.cell)
    }

    /// Clears only the client's own cell.
    pub fn invalidate<T: Copy>(&self, chain: &mut ValidityChain<T>)
        ensures
            final(chain)@ == spec_invalidate(old(chain)@, self.cell as int),
    {
        chain.invalidate(self.cell)
    }
}

/// The validity cell of a service descriptor, derived from a protocol
/// client.
#[derive(Debug)]
pub struct LockdowndServiceLock {
    pub cell: usize,
}

impl LockdowndServiceLock {
    /// Registers the descriptor's snapshot as a fresh cell derived from the
    /// protocol client's cell.
    pub fn new<T: Copy>(
        chain: &mut ValidityChain<T>,
        value: T,
        lockdownd_client_lock: &LockdowndClientLock,
    ) -> (lock: Self)
        ensures
            lock.cell == old(chain)@.len(),
            final(chain)@ == old(chain)@.push(
                (CellModel { slot: Some(value), parent: Some(lockdownd_client_lock.cell as int) }),
            ),
    {
        LockdowndServiceLock { cell: chain.new_child(value, lockdownd_client_lock.cell) }
    }

    /// Returns the descriptor snapshot if all dependencies are satisfied:
    /// the descriptor, its client and the device must all be live.
    pub fn check<T: Copy>(&self, chain: &ValidityChain<T>) -> (r: Result<T, Invalidated>)
        ensures
            r == spec_check(chain@, self.cell as int),
    {
        chain.check(self.cell)
    }

    /// Clears only the descriptor's own cell.
    pub fn invalidate<T: Copy>(&self, chain: &mut ValidityChain<T>)
        ensures
            final(chain)@ == spec_invalidate(old(chain)@, self.cell as int),
    {
        chain.invalidate(self.cell)
    }
}

/// The validity cell of a feature client built on top of a service
/// descriptor: the deepest level of the chain.
#[derive(Debug)]
pub struct MobileImageMounterLock {
    pub cell: usize,
}

impl MobileImageMounterLock {
    /// Registers the feature client's snapshot as a fresh cell derived from
    /// the service descriptor's cell, so that tearing down the descriptor,
    /// the protocol client or the device breaks this client too.
    pub fn new<T: Copy>(
        chain: &mut ValidityChain<T>,
        value: T,
        service_lock: &LockdowndServiceLock,
    ) -> (lock: Self)
        ensures
            lock.cell == old(chain)@.len(),
            final(chain)@ == old(chain)@.push(
                (CellModel { slot: Some(value), parent: Some(service_lock.cell as int) }),
            ),
    {
        MobileImageMounterLock { cell: chain.new_child(value, service_lock.cell) }
    }

    /// Returns the feature client's snapshot if all dependencies are
    /// satisfied, the whole chain up to the device included.
    pub fn check<T: Copy>(&self, chain: &ValidityChain<T>) -> (r: Result<T, Invalidated>)
        ensures
            r == spec_check(chain@, self.cell as int),
    {
        chain.check(self.cell)
    }

    /// Clears only the feature client's own cell.
    pub fn invalidate<T: Copy>(&self, chain: &mut ValidityChain<T>)
        ensures
            final(chain)@ == spec_invalidate(old(chain)@, self.cell as int),
    {
        chain.invalidate(self.cell)
    }
}

/// Validity of a chain is conjunctive: `check` succeeds at a cell exactly
/// when every cell of its lineage, the cell itself and all its ancestors up
/// to the root, still holds a snapshot.
pub proof fn lemma_chain_live_iff_lineage_live<T>(cells: Seq<CellModel<T>>, i: int)
    requires
        parents_bounded(cells),
    ensures
        chain_live(cells, i) <==> (0 <= i < cells.len() && (forall|a: int|
            in_lineage(cells, a, i) ==> (#[trigger] cells[a]).slot is Some)),
    decreases i,
{
    if 0 <= i < cells.len() {
        match cells[i].parent {
            Some(p) => {
                assert(0 <= p < i);
                lemma_chain_live_iff_lineage_live(cells, p);
                if chain_live(cells, i) {
                    assert forall|a: int|
                        in_lineage(cells, a, i) implies (#[trigger] cells[a]).slot is Some by {
                        if a != i {
                            assert(in_lineage(cells, a, p));
                        }
                    }
                }
                if forall|a: int| in_lineage(cells, a, i) ==> (#[trigger] cells[a]).slot is Some {
                    assert(in_lineage(cells, i, i));
                    assert forall|a: int|
                        in_lineage(cells, a, p) implies (#[trigger] cells[a]).slot is Some by {
                        assert(in_lineage(cells, a, i));
                    }
                    assert(chain_live(cells, p));
                    assert(ancestors_live(cells, i));
                }
            },
            None => {},
        }
    }
}

/// Invalidating any cell breaks the whole subtree below it: after
/// `invalidate` of a cell that lies on the lineage of cell `d`, a `check`
/// of `d` fails, even though no slot other than the invalidated one was
/// touched.
pub proof fn lemma_invalidate_breaks_lineage<T>(cells: Seq<CellModel<T>>, n: int, d: int)
    requires
        in_lineage(cells, n, d),
    ensures
        !chain_live(spec_invalidate(cells, n), d),
    decreases d,
{
    let inv = spec_invalidate(cells, n);
    if n == d {
        assert(inv[d].slot is None);
    } else {
        match cells[d].parent {
            Some(p) => {
                lemma_invalidate_breaks_lineage(cells, n, p);
                assert(inv[d].parent == cells[d].parent);
                if chain_live(inv, d) {
                    assert(ancestors_live(inv, d));
                    assert(inv[p].slot is Some && ancestors_live(inv, p));
                    assert(chain_live(inv, p));
                }
            },
            None => {},
        }
    }
}

/// Invalidating a cell that does not lie on the lineage of cell `d` leaves
/// the outcome of a `check` of `d` untouched: breakage propagates only to
/// descendants.
pub proof fn lemma_invalidate_preserves_unrelated<T>(cells: Seq<CellModel<T>>, n: int, d: int)
    requires
        !in_lineage(cells, n, d),
    ensures
        chain_live(spec_invalidate(cells, n), d) == chain_live(cells, d),
        chain_live(cells, d) ==> spec_check(spec_invalidate(cells, n), d) == spec_check(cells, d),
    decreases d,
{
    let inv = spec_invalidate(cells, n);
    if 0 <= d < cells.len() {
        assert(d != n);
        assert(inv[d] == cells[d]);
        match cells[d].parent {
            Some(p) => {
                if 0 <= p < d {
                    lemma_invalidate_preserves_unrelated(cells, n, p);
                }
            },
            None => {},
        }
    }
}

/// Registering a cell whose parent link points at an existing cell keeps
/// every parent link pointing at an earlier cell.  Together with the next
/// lemma this shows that every chain built through the constructors
/// satisfies the hypothesis of the lineage law.
pub proof fn lemma_push_preserves_parents_bounded<T>(
    cells: Seq<CellModel<T>>,
    slot: Option<T>,
    parent: Option<int>,
)
    requires
        parents_bounded(cells),
        parent matches Some(p) ==> 0 <= p < cells.len(),
    ensures
        parents_bounded(cells.push((CellModel { slot, parent }))),
{
    let pushed = cells.push(CellModel { slot, parent });
    assert forall|i: int|
        0 <= i < pushed.len() implies (match (#[trigger] pushed[i]).parent {
        Some(p) => 0 <= p < i,
        None => true,
    }) by {
        if i < cells.len() {
            assert(pushed[i] == cells[i]);
        }
    }
}

/// Invalidating a cell touches no parent link, so it too keeps every
/// parent link pointing at an earlier cell.
pub proof fn lemma_invalidate_preserves_parents_bounded<T>(cells: Seq<CellModel<T>>, n: int)
    requires
        parents_bounded(cells),
    ensures
        parents_bounded(spec_invalidate(cells, n)),
{
    let inv = spec_invalidate(cells, n);
    assert forall|i: int|
        0 <= i < inv.len() implies (match (#[trigger] inv[i]).parent {
        Some(p) => 0 <= p < i,
        None => true,
    }) by {
        assert(inv[i].parent == cells[i].parent);
    }
}

/// Invalidation is permanent: once a cell's slot is cleared, neither a
/// further invalidation nor the registration of a new resource brings it
/// back, and a `check` of that cell keeps failing.
pub proof fn lemma_invalidation_permanent<T>(
    cells: Seq<CellModel<T>>,
    j: int,
    n: int,
    slot: Option<T>,
    parent: Option<int>,
)
    requires
        0 <= j < cells.len(),
        cells[j].slot is None,
    ensures
        spec_invalidate(cells, n)[j].slot is None,
        cells.push((CellModel { slot, parent }))[j].slot is None,
        !chain_live(cells, j),
{
}

/// A `check` is a pure reading of the chain's state: on a live chain it
/// succeeds and hands out exactly the cell's snapshot, so that repeated
/// checks of an unmodified chain return equal snapshots.
pub proof fn lemma_check_repeatable<T>(cells: Seq<CellModel<T>>, i: int)
    requires
        chain_live(cells, i),
    ensures
        spec_check(cells, i) == Ok::<T, Invalidated>(cells[i].slot->0),
{
}

/// Invalidation is idempotent: invalidating the same cell twice leaves the
/// chain in exactly the state of invalidating it once.
pub proof fn lemma_invalidate_idempotent<T>(cells: Seq<CellModel<T>>, n: int)
    ensures
        spec_invalidate(spec_invalidate(cells, n), n) == spec_invalidate(cells, n),
{
    assert(spec_invalidate(spec_invalidate(cells, n), n) =~= spec_invalidate(cells, n));
}

} // verus!
