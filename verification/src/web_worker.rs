//! Worker lifecycle: private stacks, thread-local storage, and the one-shot
//! entry trampoline.
//!
//! A spawned worker shares the module's linear memory but needs a stack and a
//! thread-local-storage region of its own.  The manager fetches the
//! thread-local-storage layout from the host once per process, carves both
//! regions out of the address space, packages the worker's entry closure with
//! them into a bundle, and asks the host to start a new execution context
//! that will call the entry trampoline with the bundle's handle.  The
//! trampoline surrenders the closure exactly once; the regions stay allocated
//! until the worker is reported finished.
//!
//! A stack has no guard page in this design: an overflow corrupts adjacent
//! linear memory silently instead of trapping.  That is a documented
//! constraint of the host's memory model, not something this layer can mend.

use vstd::prelude::*;

use crate::host::HostCall;
use crate::host::KWasmLibrary;

verus! {

/// Granularity of the host's linear-memory pages, and the alignment every
/// stack region is carved at.
pub const WASM_PAGE_SIZE: u32 = 1024 * 64;

/// Fixed size of each worker's private stack.
pub const WORKER_STACK_SIZE: u32 = 1024 * 1024;

/// Command asking the host to create a new worker context.
pub const SPAWN_WORKER_COMMAND: u32 = 0;

/// Command querying the size of one context's thread-local storage.
pub const TLS_SIZE_COMMAND: u32 = 1;

/// Command querying the alignment of one context's thread-local storage.
pub const TLS_ALIGN_COMMAND: u32 = 2;

/// One carved-out span of linear memory: `size` bytes starting at `base`,
/// with `base` a multiple of `align`.  `live` is false once the span has
/// been given back.
#[derive(Clone, Copy, PartialEq, Eq, Structural)]
pub struct MemoryRegion {
    pub base: u32,
    pub size: u32,
    pub align: u32,
    pub live: bool,
}

/// Two regions that share no byte.
pub open spec fn regions_disjoint(a: MemoryRegion, b: MemoryRegion) -> bool {
    a.base + a.size <= b.base || b.base + b.size <= a.base
}

/// The abstract state of the arena: everything below `next_free` has been
/// handed out at some point; `regions` records every span ever carved, in
/// allocation order.
pub struct ArenaModel {
    pub next_free: u32,
    pub regions: Seq<MemoryRegion>,
}

/// The least multiple of `align` that is at least `n`.
pub open spec fn spec_align_up(n: int, align: int) -> int {
    if n % align == 0 {
        n
    } else {
        n + align - (n % align)
    }
}

/// Arena consistency: every region is aligned as requested, lies below the
/// allocation frontier, and regions are carved in increasing address order —
/// which makes any two of them disjoint.
pub open spec fn arena_wf(m: ArenaModel) -> bool {
    &&& forall|i: int|
        0 <= i < m.regions.len() ==> {
            &&& (#[trigger] m.regions[i]).align >= 1
            &&& m.regions[i].base % m.regions[i].align == 0
            &&& m.regions[i].base + m.regions[i].size <= m.next_free
        }
    &&& forall|i: int, j: int|
        0 <= i < j < m.regions.len() ==> (#[trigger] m.regions[i]).base + m.regions[i].size <= (
        #[trigger] m.regions[j]).base
}

/// Whether a request for `size` bytes aligned to `align` still fits in the
/// address space.
pub open spec fn arena_can_allocate(m: ArenaModel, size: int, align: int) -> bool {
    spec_align_up(m.next_free as int, align) + size <= u32::MAX
}

/// The arena the worker regions are carved from.  It models the module-side
/// allocator the way the host sees it: a growing frontier of exclusively
/// owned, aligned spans, each released only when its owner is done.
pub struct RegionArena {
    next_free: u32,
    regions: Vec<MemoryRegion>,
}

impl View for RegionArena {
    type V = ArenaModel;

    closed spec fn view(&self) -> ArenaModel {
        ArenaModel { next_free: self.next_free, regions: self.regions@ }
    }
}

/// Rounds `n` up to the next multiple of `align`, or reports that the
/// result would not fit in the address space.
fn checked_align_up(n: u32, align: u32) -> (r: Option<u32>)
    requires
        align >= 1,
    ensures
        (r is Some) == (spec_align_up(n as int, align as int) <= u32::MAX),
        r matches Some(v) ==> v == spec_align_up(n as int, align as int),
{
    let rem = n % align;
    if rem == 0 {
        Some(n)
    } else if align - rem <= u32::MAX - n {
        Some(n + (align - rem))
    } else {
        None
    }
}

/// Rounds `n` up to the next multiple of `align`.
fn align_up(n: u32, align: u32) -> (r: u32)
    requires
        align >= 1,
        spec_align_up(n as int, align as int) <= u32::MAX,
    ensures
        r == spec_align_up(n as int, align as int),
        r % align == 0,
        n <= r < n + align,
{
    let rem = n % align;
    proof {
        assert(spec_align_up(n as int, align as int) % align as int == 0) by (nonlinear_arith)
            requires
                align >= 1,
                n >= 0,
        ;
    }
    if rem == 0 {
        n
    } else {
        n + (align - rem)
    }
}

impl RegionArena {
    pub fn new() -> (r: Self)
        ensures
            r@.next_free == 0,
            r@.regions == Seq::<MemoryRegion>::empty(),
            arena_wf(r@),
    {
        let regions: Vec<MemoryRegion> = Vec::new();
        let arena = RegionArena { next_free: 0, regions };
        proof {
            assert(arena@.regions =~= Seq::<MemoryRegion>::empty());
        }
        arena
    }

    pub fn region_count(&self) -> (r: usize)
        ensures
            r == self@.regions.len(),
    {
        self.regions.len()
    }

    /// The allocation frontier: everything below it has been handed out.
    pub fn next_free(&self) -> (r: u32)
        ensures
            r == self@.next_free,
    {
        self.next_free
    }

    /// Whether a request for `size` bytes aligned to `align` still fits.
    pub fn can_allocate(&self, size: u32, align: u32) -> (r: bool)
        requires
            align >= 1,
        ensures
            r == arena_can_allocate(self@, size as int, align as int),
    {
        match checked_align_up(self.next_free, align) {
            Some(base) => size <= u32::MAX - base,
            None => false,
        }
    }

    /// The region carved `id`-th.
    pub fn region(&self, id: usize) -> (r: MemoryRegion)
        requires
            id < self@.regions.len(),
        ensures
            r == self@.regions[id as int],
    {
        self.regions[id]
    }

    /// Carves a fresh span of `size` bytes aligned to `align` and returns its
    /// id.  The span is disjoint from every span carved before it.
    pub fn allocate(&mut self, size: u32, align: u32) -> (id: usize)
        requires
            arena_wf(old(self)@),
            align >= 1,
            arena_can_allocate(old(self)@, size as int, align as int),
        ensures
            id == old(self)@.regions.len(),
            final(self)@.regions == old(self)@.regions.push(
                MemoryRegion {
                    base: spec_align_up(old(self)@.next_free as int, align as int) as u32,
                    size,
                    align,
                    live: true,
                },
            ),
            final(self)@.next_free == spec_align_up(old(self)@.next_free as int, align as int)
                + size,
            arena_wf(final(self)@),
    {
        let id = self.regions.len();
        let base = align_up(self.next_free, align);
        self.regions.push(MemoryRegion { base, size, align, live: true });
        self.next_free = base + size;
        proof {
            let m0 = old(self)@;
            let m1 = self@;
            assert forall|i: int| 0 <= i < m1.regions.len() implies {
                &&& (#[trigger] m1.regions[i]).align >= 1
                &&& m1.regions[i].base % m1.regions[i].align == 0
                &&& m1.regions[i].base + m1.regions[i].size <= m1.next_free
            } by {
                if i < m0.regions.len() {
                    assert(m1.regions[i] == m0.regions[i]);
                }
            }
            assert forall|i: int, j: int| 0 <= i < j < m1.regions.len() implies (
            #[trigger] m1.regions[i]).base + m1.regions[i].size <= (#[trigger] m1.regions[j]).base
                by {
                if j < m0.regions.len() {
                    assert(m1.regions[i] == m0.regions[i]);
                    assert(m1.regions[j] == m0.regions[j]);
                } else {
                    assert(m1.regions[i] == m0.regions[i]);
                    assert(m0.regions[i].base + m0.regions[i].size <= m0.next_free);
                }
            }
        }
        id
    }

    /// Gives the span `id` back.  Nothing else changes: no other span moves,
    /// and the frontier stays where it is, so the span's addresses are never
    /// re-carved.
    pub fn release(&mut self, id: usize)
        requires
            arena_wf(old(self)@),
            id < old(self)@.regions.len(),
        ensures
            final(self)@.regions == old(self)@.regions.update(
                id as int,
                (MemoryRegion { live: false, ..old(self)@.regions[id as int] }),
            ),
            final(self)@.next_free == old(self)@.next_free,
            arena_wf(final(self)@),
    {
        let mut region = self.regions[id];
        region.live = false;
        self.regions.set(id, region);
    }
}

/// Any two regions the arena ever carved are disjoint — in particular a live
/// worker's stack and thread-local storage can never overlap each other or
/// any other live worker's regions.
pub proof fn lemma_arena_regions_disjoint(m: ArenaModel, i: int, j: int)
    requires
        arena_wf(m),
        0 <= i < m.regions.len(),
        0 <= j < m.regions.len(),
        i != j,
    ensures
        regions_disjoint(m.regions[i], m.regions[j]),
{
}

/// How much storage each execution context's thread-local area needs.
#[derive(Clone, Copy, PartialEq, Eq, Structural)]
pub struct TlsMetadata {
    pub size: u32,
    pub align: u32,
}

/// The process-wide thread-local-storage metadata cache: queried from the
/// host at most once, then reused for every later allocation.
#[derive(Clone, Copy, PartialEq, Eq, Structural)]
pub enum TlsState {
    /// Nobody has asked the host yet.
    Unfetched,
    /// The query is on its way to the host; nobody may ask again.
    Requested,
    /// The host's answer, served to every allocation from here on.
    Cached(TlsMetadata),
}

/// Whether asking for the metadata in state `s` actually queries the host.
pub open spec fn tls_request_fires(s: TlsState) -> bool {
    s is Unfetched
}

/// Asking for the metadata: only the very first ask leaves for the host.
pub open spec fn tls_after_request(s: TlsState) -> TlsState {
    if s is Unfetched {
        TlsState::Requested
    } else {
        s
    }
}

/// The host's answer arriving: cached unless an answer is already cached —
/// the first answer wins and is never overwritten.
pub open spec fn tls_after_install(s: TlsState, size: u32, align: u32) -> TlsState {
    if s is Cached {
        s
    } else {
        TlsState::Cached(TlsMetadata { size, align })
    }
}

/// The pair every context observes, once one is cached.
pub open spec fn tls_cached_metadata(s: TlsState) -> Option<TlsMetadata> {
    match s {
        TlsState::Cached(md) => Some(md),
        _ => None,
    }
}

/// Where a spawned worker is in its life.
#[derive(Clone, Copy, PartialEq, Eq, Structural)]
pub enum WorkerPhase {
    /// Bundle handed to the host; the trampoline has not run yet.
    Pending,
    /// The trampoline surrendered the closure; the worker is executing.
    Running,
    /// The worker was reported done and its regions were released.
    Finished,
}

/// The abstract state of one worker's resource bundle.
pub struct WorkerModel<F> {
    pub phase: WorkerPhase,
    /// The deferred entry closure; consumed by the trampoline, exactly once.
    pub entry: Option<F>,
    /// Index of the worker's stack region in the arena.
    pub stack_region: int,
    /// Index of the worker's thread-local-storage region in the arena.
    pub tls_region: int,
}

/// The abstract state of the whole lifecycle manager.
pub struct ManagerModel<F> {
    pub tls: TlsState,
    pub arena: ArenaModel,
    pub workers: Seq<WorkerModel<F>>,
}

/// Consistency of one worker against the arena: its two regions exist, are
/// distinct, have the expected shape, stay live until the worker is
/// finished, and its closure is present exactly while it is pending.
pub open spec fn worker_slot_wf<F>(m: ManagerModel<F>, w: WorkerModel<F>) -> bool {
    &&& 0 <= w.stack_region < m.arena.regions.len()
    &&& 0 <= w.tls_region < m.arena.regions.len()
    &&& w.stack_region != w.tls_region
    &&& (w.phase is Pending <==> w.entry is Some)
    &&& (!(w.phase is Finished) ==> m.arena.regions[w.stack_region].live
        && m.arena.regions[w.tls_region].live)
    &&& m.arena.regions[w.stack_region].size == WORKER_STACK_SIZE
    &&& m.arena.regions[w.stack_region].align == WASM_PAGE_SIZE
}

/// No two workers share a region.
pub open spec fn workers_distinct<F>(w1: WorkerModel<F>, w2: WorkerModel<F>) -> bool {
    &&& w1.stack_region != w2.stack_region
    &&& w1.stack_region != w2.tls_region
    &&& w1.tls_region != w2.stack_region
    &&& w1.tls_region != w2.tls_region
}

/// Consistency of the whole manager.
pub open spec fn manager_wf<F>(m: ManagerModel<F>) -> bool {
    &&& arena_wf(m.arena)
    &&& (m.tls is Cached ==> m.tls->Cached_0.align >= 1)
    &&& forall|i: int| 0 <= i < m.workers.len() ==> worker_slot_wf(m, #[trigger] m.workers[i])
    &&& forall|i: int, j: int|
        0 <= i < j < m.workers.len() ==> workers_distinct(
            #[trigger] m.workers[i],
            #[trigger] m.workers[j],
        )
}

/// The stack region a spawn would carve next.
pub open spec fn spawn_stack_region<F>(m: ManagerModel<F>) -> MemoryRegion {
    MemoryRegion {
        base: spec_align_up(m.arena.next_free as int, WASM_PAGE_SIZE as int) as u32,
        size: WORKER_STACK_SIZE,
        align: WASM_PAGE_SIZE,
        live: true,
    }
}

/// The thread-local-storage region a spawn would carve after the stack.
pub open spec fn spawn_tls_region<F>(m: ManagerModel<F>) -> MemoryRegion {
    let stack = spawn_stack_region(m);
    let md = m.tls->Cached_0;
    MemoryRegion {
        base: spec_align_up(stack.base + stack.size, md.align as int) as u32,
        size: md.size,
        align: md.align,
        live: true,
    }
}

/// Whether a spawn fits: the metadata is cached and both regions still fit
/// in the address space.
pub open spec fn can_spawn<F>(m: ManagerModel<F>) -> bool {
    &&& m.tls is Cached
    &&& m.workers.len() < u32::MAX
    &&& spec_align_up(m.arena.next_free as int, WASM_PAGE_SIZE as int) + WORKER_STACK_SIZE
        <= u32::MAX
    &&& {
        let stack = spawn_stack_region(m);
        let md = m.tls->Cached_0;
        spec_align_up(stack.base + stack.size, md.align as int) + md.size <= u32::MAX
    }
}

/// The manager after spawning one worker with entry closure `f`: two fresh
/// regions carved, one pending bundle appended, metadata untouched.
pub open spec fn manager_after_spawn<F>(m: ManagerModel<F>, f: F) -> ManagerModel<F> {
    let stack = spawn_stack_region(m);
    let tls = spawn_tls_region(m);
    ManagerModel {
        tls: m.tls,
        arena: ArenaModel {
            next_free: (tls.base + tls.size) as u32,
            regions: m.arena.regions.push(stack).push(tls),
        },
        workers: m.workers.push(
            WorkerModel {
                phase: WorkerPhase::Pending,
                entry: Some(f),
                stack_region: m.arena.regions.len() as int,
                tls_region: m.arena.regions.len() as int + 1,
            },
        ),
    }
}

/// What the spawn hands to the host: the bundle handle the trampoline must
/// be called with, the top of the fresh stack (stacks grow downward from the
/// allocation's high end), and the thread-local-storage base.
#[derive(Clone, Copy, PartialEq, Eq, Structural)]
pub struct SpawnRequest {
    pub bundle_handle: u32,
    pub stack_pointer: u32,
    pub tls_pointer: u32,
}

/// The request a spawn in state `m` sends.
pub open spec fn spawn_request_of<F>(m: ManagerModel<F>) -> SpawnRequest {
    SpawnRequest {
        bundle_handle: m.workers.len() as u32,
        stack_pointer: (spawn_stack_region(m).base + WORKER_STACK_SIZE) as u32,
        tls_pointer: spawn_tls_region(m).base,
    }
}

/// Whether the trampoline called with `handle` surrenders a closure.
pub open spec fn entry_fires<F>(m: ManagerModel<F>, handle: u32) -> bool {
    handle < m.workers.len() && m.workers[handle as int].phase is Pending
}

/// One worker after its trampoline ran: closure gone, worker running.
pub open spec fn worker_after_entry<F>(w: WorkerModel<F>) -> WorkerModel<F> {
    WorkerModel { phase: WorkerPhase::Running, entry: None, ..w }
}

/// The manager after the trampoline was called with `handle`: only a pending
/// handle surrenders its closure; any other call changes nothing.
pub open spec fn manager_after_entry<F>(m: ManagerModel<F>, handle: u32) -> ManagerModel<F> {
    if entry_fires(m, handle) {
        ManagerModel {
            workers: m.workers.update(
                handle as int,
                worker_after_entry(m.workers[handle as int]),
            ),
            ..m
        }
    } else {
        m
    }
}

/// The closure the trampoline surrenders, if any.
pub open spec fn entry_closure<F>(m: ManagerModel<F>, handle: u32) -> Option<F> {
    if entry_fires(m, handle) {
        m.workers[handle as int].entry
    } else {
        None
    }
}

/// The manager after worker `handle` was reported done: its two regions are
/// released and the bundle is retired.
pub open spec fn manager_after_finish<F>(m: ManagerModel<F>, handle: u32) -> ManagerModel<F> {
    let w = m.workers[handle as int];
    ManagerModel {
        tls: m.tls,
        arena: ArenaModel {
            next_free: m.arena.next_free,
            regions: m.arena.regions.update(
                w.stack_region,
                (MemoryRegion { live: false, ..m.arena.regions[w.stack_region] }),
            ).update(
                w.tls_region,
                (MemoryRegion { live: false, ..m.arena.regions[w.tls_region] }),
            ),
        },
        workers: m.workers.update(
            handle as int,
            (WorkerModel { phase: WorkerPhase::Finished, ..w }),
        ),
    }
}

/// One worker's resources while they are in the manager's hands.
struct WorkerSlot<F> {
    phase: WorkerPhase,
    entry: Option<F>,
    stack_region: usize,
    tls_region: usize,
}

impl<F> View for WorkerSlot<F> {
    type V = WorkerModel<F>;

    closed spec fn view(&self) -> WorkerModel<F> {
        WorkerModel {
            phase: self.phase,
            entry: match self.entry {
                Some(f) => Some(f),
                None => None,
            },
            stack_region: self.stack_region as int,
            tls_region: self.tls_region as int,
        }
    }
}

/// The worker lifecycle manager: the metadata cache, the arena the regions
/// are carved from, and every bundle ever handed to the host, addressed by
/// its handle.
pub struct WorkerManager<F> {
    tls: TlsState,
    arena: RegionArena,
    workers: Vec<WorkerSlot<F>>,
}

impl<F> View for WorkerManager<F> {
    type V = ManagerModel<F>;

    closed spec fn view(&self) -> ManagerModel<F> {
        ManagerModel {
            tls: self.tls,
            arena: self.arena@,
            workers: self.workers@.map_values(|w: WorkerSlot<F>| w@),
        }
    }
}

impl<F> WorkerManager<F> {
    pub fn new() -> (r: Self)
        ensures
            r@.tls is Unfetched,
            r@.arena.next_free == 0,
            r@.arena.regions == Seq::<MemoryRegion>::empty(),
            r@.workers == Seq::<WorkerModel<F>>::empty(),
            manager_wf(r@),
    {
        let workers: Vec<WorkerSlot<F>> = Vec::new();
        let manager = WorkerManager { tls: TlsState::Unfetched, arena: RegionArena::new(), workers };
        proof {
            assert(manager@.workers =~= Seq::<WorkerModel<F>>::empty());
        }
        manager
    }

    /// The metadata cache as every context observes it.
    pub fn tls_state(&self) -> (r: TlsState)
        ensures
            r == self@.tls,
    {
        self.tls
    }

    /// Asks for the thread-local-storage metadata.  Only the first ask in
    /// the whole process yields the two queries for the edge to perform;
    /// every later ask — a second context racing, or the 2nd..Nth spawn —
    /// hits the cache-or-pending state and queries nothing.
    pub fn tls_metadata_request(&mut self, library: &KWasmLibrary) -> (r: Option<(HostCall, HostCall)>)
        requires
            library.is_registered(),
        ensures
            final(self)@.tls == tls_after_request(old(self)@.tls),
            final(self)@.arena == old(self)@.arena,
            final(self)@.workers == old(self)@.workers,
            (r is Some) == tls_request_fires(old(self)@.tls),
            r matches Some(calls) ==> {
                &&& calls.0.library_id == library.id_spec()
                &&& calls.0.command == TLS_SIZE_COMMAND
                &&& calls.0.words@ == Seq::<u32>::empty()
                &&& calls.1.library_id == library.id_spec()
                &&& calls.1.command == TLS_ALIGN_COMMAND
                &&& calls.1.words@ == Seq::<u32>::empty()
            },
    {
        match self.tls {
            TlsState::Unfetched => {
                self.tls = TlsState::Requested;
                Some((library.message(TLS_SIZE_COMMAND), library.message(TLS_ALIGN_COMMAND)))
            },
            _ => None,
        }
    }

    /// Caches the host's answer.  If an answer is already cached this is a
    /// no-op: the first answer wins, so racing contexts end up observing one
    /// and the same pair.
    pub fn install_tls_metadata(&mut self, size: u32, align: u32)
        requires
            align >= 1,
        ensures
            final(self)@.tls == tls_after_install(old(self)@.tls, size, align),
            final(self)@.arena == old(self)@.arena,
            final(self)@.workers == old(self)@.workers,
            manager_wf(old(self)@) ==> manager_wf(final(self)@),
    {
        match self.tls {
            TlsState::Cached(_) => {},
            _ => {
                self.tls = TlsState::Cached(TlsMetadata { size, align });
            },
        }
    }

    /// The cached metadata.
    pub fn cached_tls_metadata(&self) -> (r: TlsMetadata)
        requires
            self@.tls is Cached,
        ensures
            r == self@.tls->Cached_0,
    {
        match self.tls {
            TlsState::Cached(md) => md,
            _ => vstd::pervasive::unreached(),
        }
    }

    /// Whether a spawn would fit right now: the metadata is cached and both
    /// regions still fit in the address space.  The edge tests this before
    /// spawning and treats exhaustion as fatal.
    pub fn can_spawn_now(&self) -> (r: bool)
        requires
            manager_wf(self@),
        ensures
            r == can_spawn(self@),
    {
        match self.tls {
            TlsState::Cached(md) => {
                if self.workers.len() >= (u32::MAX as usize) {
                    return false;
                }
                match checked_align_up(self.arena.next_free(), WASM_PAGE_SIZE) {
                    Some(stack_base) => {
                        if WORKER_STACK_SIZE > u32::MAX - stack_base {
                            return false;
                        }
                        match checked_align_up(stack_base + WORKER_STACK_SIZE, md.align) {
                            Some(tls_base) => md.size <= u32::MAX - tls_base,
                            None => false,
                        }
                    },
                    None => false,
                }
            },
            _ => false,
        }
    }

    /// Whether a thread-local-storage allocation would fit right now.
    pub fn can_alloc_thread_local_storage(&self) -> (r: bool)
        requires
            manager_wf(self@),
        ensures
            r == (self@.tls is Cached && arena_can_allocate(
                self@.arena,
                self@.tls->Cached_0.size as int,
                self@.tls->Cached_0.align as int,
            )),
    {
        match self.tls {
            TlsState::Cached(md) => self.arena.can_allocate(md.size, md.align),
            _ => false,
        }
    }

    /// Carves a thread-local-storage region of the cached shape for the
    /// calling context itself (the main context needs one too) and returns
    /// its base address.
    pub fn alloc_thread_local_storage(&mut self) -> (base: u32)
        requires
            manager_wf(old(self)@),
            old(self)@.tls is Cached,
            arena_can_allocate(
                old(self)@.arena,
                old(self)@.tls->Cached_0.size as int,
                old(self)@.tls->Cached_0.align as int,
            ),
        ensures
            final(self)@.tls == old(self)@.tls,
            final(self)@.workers == old(self)@.workers,
            final(self)@.arena.regions == old(self)@.arena.regions.push(
                (MemoryRegion {
                    base: spec_align_up(
                        old(self)@.arena.next_free as int,
                        old(self)@.tls->Cached_0.align as int,
                    ) as u32,
                    size: old(self)@.tls->Cached_0.size,
                    align: old(self)@.tls->Cached_0.align,
                    live: true,
                }),
            ),
            base == spec_align_up(
                old(self)@.arena.next_free as int,
                old(self)@.tls->Cached_0.align as int,
            ),
            manager_wf(final(self)@),
    {
        let ghost m0 = self@;
        let md = self.cached_tls_metadata();
        let id = self.arena.allocate(md.size, md.align);
        let base = self.arena.region(id).base;
        proof {
            lemma_workers_survive_region_push(m0, self@);
        }
        base
    }

    /// Spawns a worker that will run the one-shot closure `f`: carves its
    /// stack and thread-local-storage regions, packages the closure and both
    /// region handles into a bundle the host can only see as a numeric
    /// handle, and yields the request the edge must send so the host creates
    /// the context and calls the entry trampoline with that handle.
    pub fn spawn(&mut self, f: F) -> (r: SpawnRequest)
        requires
            manager_wf(old(self)@),
            can_spawn(old(self)@),
        ensures
            final(self)@ == manager_after_spawn(old(self)@, f),
            r == spawn_request_of(old(self)@),
            manager_wf(final(self)@),
    {
        let ghost m0 = self@;
        let md = self.cached_tls_metadata();
        let stack_id = self.arena.allocate(WORKER_STACK_SIZE, WASM_PAGE_SIZE);
        let stack_base = self.arena.region(stack_id).base;
        let tls_id = self.arena.allocate(md.size, md.align);
        let tls_base = self.arena.region(tls_id).base;
        let handle = self.workers.len() as u32;
        self.workers.push(
            WorkerSlot {
                phase: WorkerPhase::Pending,
                entry: Some(f),
                stack_region: stack_id,
                tls_region: tls_id,
            },
        );
        proof {
            let m1 = self@;
            let target = manager_after_spawn(m0, f);
            assert(m1.workers =~= target.workers);
            assert(m1.arena.regions =~= target.arena.regions);
            assert(m1 == target);
            assert forall|i: int| 0 <= i < m1.workers.len() implies worker_slot_wf(
                m1,
                #[trigger] m1.workers[i],
            ) by {
                if i < m0.workers.len() {
                    assert(m1.workers[i] == m0.workers[i]);
                    assert(worker_slot_wf(m0, m0.workers[i]));
                    assert(m1.arena.regions[m0.workers[i].stack_region]
                        == m0.arena.regions[m0.workers[i].stack_region]);
                    assert(m1.arena.regions[m0.workers[i].tls_region]
                        == m0.arena.regions[m0.workers[i].tls_region]);
                }
            }
            assert forall|i: int, j: int| 0 <= i < j < m1.workers.len() implies workers_distinct(
                #[trigger] m1.workers[i],
                #[trigger] m1.workers[j],
            ) by {
                if j < m0.workers.len() {
                    assert(m1.workers[i] == m0.workers[i]);
                    assert(m1.workers[j] == m0.workers[j]);
                } else {
                    assert(m1.workers[i] == m0.workers[i]);
                    assert(worker_slot_wf(m0, m0.workers[i]));
                }
            }
        }
        SpawnRequest {
            bundle_handle: handle,
            stack_pointer: stack_base + WORKER_STACK_SIZE,
            tls_pointer: tls_base,
        }
    }

    /// The entry trampoline, called on the host's behalf on the freshly
    /// started context.  Exactly the first call with a pending handle
    /// surrenders the bundle's closure — for the new context to invoke — and
    /// marks the worker running; any other call (an unknown handle, or the
    /// same handle again) surrenders nothing and changes nothing.  The
    /// worker's regions stay live throughout its execution.
    pub fn worker_entry_point(&mut self, handle: u32) -> (r: Option<F>)
        requires
            manager_wf(old(self)@),
        ensures
            final(self)@ == manager_after_entry(old(self)@, handle),
            r == entry_closure(old(self)@, handle),
            manager_wf(final(self)@),
    {
        let ghost m0 = self@;
        let index = handle as usize;
        if index >= self.workers.len() {
            return None;
        }
        let mut slot = self.workers.remove(index);
        let r = match slot.phase {
            WorkerPhase::Pending => {
                slot.phase = WorkerPhase::Running;
                slot.entry.take()
            },
            _ => None,
        };
        self.workers.insert(index, slot);
        proof {
            let m1 = self@;
            assert(m1.workers =~= manager_after_entry(m0, handle).workers);
            assert(m1 == manager_after_entry(m0, handle));
            if entry_fires(m0, handle) {
                assert forall|i: int| 0 <= i < m1.workers.len() implies worker_slot_wf(
                    m1,
                    #[trigger] m1.workers[i],
                ) by {
                    if i != handle as int {
                        assert(m1.workers[i] == m0.workers[i]);
                    }
                }
            }
        }
        r
    }

    /// Retires worker `handle` once its closure has returned: only now are
    /// its stack and thread-local-storage regions released, so neither was
    /// ever reclaimed while the worker could still execute.
    pub fn worker_finished(&mut self, handle: u32)
        requires
            manager_wf(old(self)@),
            handle < old(self)@.workers.len(),
            old(self)@.workers[handle as int].phase is Running,
        ensures
            final(self)@ == manager_after_finish(old(self)@, handle),
            manager_wf(final(self)@),
    {
        let ghost m0 = self@;
        let index = handle as usize;
        let mut slot = self.workers.remove(index);
        self.arena.release(slot.stack_region);
        self.arena.release(slot.tls_region);
        slot.phase = WorkerPhase::Finished;
        self.workers.insert(index, slot);
        proof {
            let m1 = self@;
            let target = manager_after_finish(m0, handle);
            assert(m1.workers =~= target.workers);
            assert(m1.arena.regions =~= target.arena.regions);
            assert(m1 == target);
            assert forall|i: int| 0 <= i < m1.workers.len() implies worker_slot_wf(
                m1,
                #[trigger] m1.workers[i],
            ) by {
                if i != handle as int {
                    assert(m1.workers[i] == m0.workers[i]);
                    assert(workers_distinct(
                        m0.workers[if i < handle as int {
                            i
                        } else {
                            handle as int
                        }],
                        m0.workers[if i < handle as int {
                            handle as int
                        } else {
                            i
                        }],
                    ));
                    assert(m1.arena.regions[m0.workers[i].stack_region]
                        == m0.arena.regions[m0.workers[i].stack_region]);
                    assert(m1.arena.regions[m0.workers[i].tls_region]
                        == m0.arena.regions[m0.workers[i].tls_region]);
                }
            }
        }
    }

    /// Where worker `handle` is in its life.
    pub fn worker_phase(&self, handle: u32) -> (r: WorkerPhase)
        requires
            handle < self@.workers.len(),
        ensures
            r == self@.workers[handle as int].phase,
    {
        self.workers[handle as usize].phase
    }

    /// Worker `handle`'s stack region and thread-local-storage region.
    pub fn worker_regions(&self, handle: u32) -> (r: (MemoryRegion, MemoryRegion))
        requires
            manager_wf(self@),
            handle < self@.workers.len(),
        ensures
            r.0 == self@.arena.regions[self@.workers[handle as int].stack_region],
            r.1 == self@.arena.regions[self@.workers[handle as int].tls_region],
    {
        let slot = &self.workers[handle as usize];
        proof {
            assert(worker_slot_wf(self@, self@.workers[handle as int]));
        }
        (self.arena.region(slot.stack_region), self.arena.region(slot.tls_region))
    }

    pub fn worker_count(&self) -> (r: usize)
        ensures
            r == self@.workers.len(),
    {
        proof {
            assert(self@.workers.len() == self.workers@.len());
        }
        self.workers.len()
    }
}

/// Workers untouched by a pure region push keep their well-formedness.
proof fn lemma_workers_survive_region_push<F>(m0: ManagerModel<F>, m1: ManagerModel<F>)
    requires
        manager_wf(m0),
        m1.tls == m0.tls,
        m1.workers == m0.workers,
        arena_wf(m1.arena),
        m1.arena.regions.len() == m0.arena.regions.len() + 1,
        forall|i: int|
            0 <= i < m0.arena.regions.len() ==> #[trigger] m1.arena.regions[i]
                == m0.arena.regions[i],
    ensures
        manager_wf(m1),
{
    assert forall|i: int| 0 <= i < m1.workers.len() implies worker_slot_wf(
        m1,
        #[trigger] m1.workers[i],
    ) by {
        assert(worker_slot_wf(m0, m0.workers[i]));
        assert(m1.arena.regions[m0.workers[i].stack_region]
            == m0.arena.regions[m0.workers[i].stack_region]);
        assert(m1.arena.regions[m0.workers[i].tls_region]
            == m0.arena.regions[m0.workers[i].tls_region]);
    }
}

/// The module's entry-point shape of the trampoline, as the host calls it:
/// the bundle handle is its sole argument, and the surrendered closure is
/// what the new context runs.
pub fn kwasm_web_worker_entry_point<F>(manager: &mut WorkerManager<F>, handle: u32) -> (r: Option<
    F,
>)
    requires
        manager_wf(old(manager)@),
    ensures
        final(manager)@ == manager_after_entry(old(manager)@, handle),
        r == entry_closure(old(manager)@, handle),
        manager_wf(final(manager)@),
{
    manager.worker_entry_point(handle)
}

/// For every requested closure: the handle a spawn hands to the host leads
/// the trampoline to surrender exactly that closure.
pub proof fn lemma_spawn_entry_round_trip<F>(m: ManagerModel<F>, f: F)
    requires
        can_spawn(m),
    ensures
        entry_fires(manager_after_spawn(m, f), spawn_request_of(m).bundle_handle),
        entry_closure(manager_after_spawn(m, f), spawn_request_of(m).bundle_handle) == Some(f),
{
    let m1 = manager_after_spawn(m, f);
    let handle = spawn_request_of(m).bundle_handle;
    assert(handle as int == m.workers.len());
    assert(m1.workers[handle as int].entry == Some(f));
}

/// The entry trampoline runs each worker's closure exactly once: the first
/// call with a pending handle surrenders the closure, and calling the
/// trampoline again with the same handle surrenders nothing and changes
/// nothing.
pub proof fn lemma_entry_trampoline_one_shot<F>(m: ManagerModel<F>, handle: u32)
    ensures
        manager_after_entry(manager_after_entry(m, handle), handle) == manager_after_entry(
            m,
            handle,
        ),
        entry_closure(manager_after_entry(m, handle), handle) == None::<F>,
        entry_fires(m, handle) ==> entry_closure(m, handle) == m.workers[handle as int].entry,
{
    let m1 = manager_after_entry(m, handle);
    if entry_fires(m, handle) {
        assert(!(m1.workers[handle as int].phase is Pending));
        assert(manager_after_entry(m1, handle) == m1);
    }
}

/// A worker's stack and thread-local-storage regions stay valid for its
/// closure's entire execution: until the worker is reported finished both
/// regions are live, and they are disjoint from each other and from every
/// other unfinished worker's regions.
pub proof fn lemma_worker_regions_live_until_finished<F>(m: ManagerModel<F>, i: int)
    requires
        manager_wf(m),
        0 <= i < m.workers.len(),
        !(m.workers[i].phase is Finished),
    ensures
        m.arena.regions[m.workers[i].stack_region].live,
        m.arena.regions[m.workers[i].tls_region].live,
        regions_disjoint(
            m.arena.regions[m.workers[i].stack_region],
            m.arena.regions[m.workers[i].tls_region],
        ),
{
    assert(worker_slot_wf(m, m.workers[i]));
    lemma_arena_regions_disjoint(m.arena, m.workers[i].stack_region, m.workers[i].tls_region);
}

/// The thread-local-storage metadata is queried from the host at most once
/// per process: the first ask moves the cache out of its initial state, and
/// no later ask — nor any answer being cached — ever fires a query again,
/// however many workers are spawned.
pub proof fn lemma_tls_metadata_queried_at_most_once(s: TlsState, size: u32, align: u32)
    ensures
        !tls_request_fires(tls_after_request(s)),
        !tls_request_fires(tls_after_install(s, size, align)),
        s is Cached ==> tls_after_request(s) == s && !tls_request_fires(s),
{
}

/// Spawning never touches the metadata cache: every spawn after the first
/// is served from the cached pair.
pub proof fn lemma_spawn_preserves_tls_cache<F>(m: ManagerModel<F>, f: F, handle: u32)
    ensures
        manager_after_spawn(m, f).tls == m.tls,
        manager_after_entry(m, handle).tls == m.tls,
        manager_after_finish(m, handle).tls == m.tls,
{
}

/// Racing metadata fetches are idempotent: whichever answer arrives first
/// wins, a second answer changes nothing, and both contexts observe one and
/// the same cached pair.
pub proof fn lemma_tls_install_first_wins(
    s: TlsState,
    size1: u32,
    align1: u32,
    size2: u32,
    align2: u32,
)
    ensures
        tls_after_install(tls_after_install(s, size1, align1), size2, align2) == tls_after_install(
            s,
            size1,
            align1,
        ),
        !(s is Cached) ==> tls_cached_metadata(tls_after_install(tls_after_install(s, size1, align1), size2, align2))
            == Some(TlsMetadata { size: size1, align: align1 }),
{
}

/// The message the edge sends so the host creates the worker context: the
/// bundle handle, the top-of-stack address, and the thread-local-storage
/// base, addressed to the worker library's spawn command.
pub fn spawn_message(library: &KWasmLibrary, request: &SpawnRequest) -> (r: HostCall)
    requires
        library.is_registered(),
    ensures
        r.library_id == library.id_spec(),
        r.command == SPAWN_WORKER_COMMAND,
        r.words@ == seq![request.bundle_handle, request.stack_pointer, request.tls_pointer],
{
    let mut words: Vec<u32> = Vec::new();
    words.push(request.bundle_handle);
    words.push(request.stack_pointer);
    words.push(request.tls_pointer);
    proof {
        assert(words@ =~= seq![request.bundle_handle, request.stack_pointer, request.tls_pointer]);
    }
    library.message_with_slice(SPAWN_WORKER_COMMAND, &words)
}

} // verus!
