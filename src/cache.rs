use vstd::prelude::*;

use crate::x86::X86CpuInfo;

verus! {

/// The life of the all-core cache: it is built at most once, and once ready it
/// never changes again.
#[derive(Clone, Copy, Debug, PartialEq, Eq, Structural)]
pub enum CachePhase {
    Uninitialized,
    Building,
    Ready,
}

/// What a cache holds, as a model: its phase and one slot per logical
/// processor, filled with that processor's snapshot once it is recorded.
pub struct CacheView {
    pub phase: CachePhase,
    pub slots: Seq<Option<X86CpuInfo>>,
}

/// Whether every slot is filled.
pub open spec fn all_filled(slots: Seq<Option<X86CpuInfo>>) -> bool {
    forall|i: int| 0 <= i < slots.len() ==> #[trigger] slots[i] is Some
}

/// Whether a request to start the build is granted: only the first one is.
pub open spec fn begin_granted(c: CacheView) -> bool {
    c.phase == CachePhase::Uninitialized
}

/// The cache after a request to start building for `n` logical processors.
pub open spec fn begin_next(c: CacheView, n: nat) -> CacheView {
    if begin_granted(c) {
        CacheView { phase: CachePhase::Building, slots: Seq::new(n, |i: int| None) }
    } else {
        c
    }
}

/// Whether a snapshot for slot `i` is accepted: only while building, and only
/// into a slot that is still empty.
pub open spec fn record_accepted(c: CacheView, i: int) -> bool {
    &&& c.phase == CachePhase::Building
    &&& 0 <= i < c.slots.len()
    &&& c.slots[i] is None
}

/// The cache after a snapshot for slot `i` is handed in.
pub open spec fn record_next(c: CacheView, i: int, info: X86CpuInfo) -> CacheView {
    if record_accepted(c, i) {
        CacheView { phase: c.phase, slots: c.slots.update(i, Some(info)) }
    } else {
        c
    }
}

/// Whether the build can complete: it is under way and every slot is filled.
pub open spec fn finish_accepted(c: CacheView) -> bool {
    c.phase == CachePhase::Building && all_filled(c.slots)
}

/// The cache after a request to complete the build.
pub open spec fn finish_next(c: CacheView) -> CacheView {
    if finish_accepted(c) {
        CacheView { phase: CachePhase::Ready, slots: c.slots }
    } else {
        c
    }
}

/// One request made of a cache.
pub enum CacheOp {
    Begin(nat),
    Record(int, X86CpuInfo),
    Finish,
}

/// The cache after one request.
pub open spec fn step(c: CacheView, op: CacheOp) -> CacheView {
    match op {
        CacheOp::Begin(n) => begin_next(c, n),
        CacheOp::Record(i, info) => record_next(c, i, info),
        CacheOp::Finish => finish_next(c),
    }
}

/// The cache after a sequence of requests, in order.
pub open spec fn run(c: CacheView, ops: Seq<CacheOp>) -> CacheView
    decreases ops.len(),
{
    if ops.len() == 0 {
        c
    } else {
        run(step(c, ops[0]), ops.drop_first())
    }
}

/// How many requests of a sequence are granted the build.
pub open spec fn grants(c: CacheView, ops: Seq<CacheOp>) -> nat
    decreases ops.len(),
{
    if ops.len() == 0 {
        0
    } else {
        let here: nat = match ops[0] {
            CacheOp::Begin(_) => if begin_granted(c) {
                1
            } else {
                0
            },
            _ => 0,
        };
        here + grants(step(c, ops[0]), ops.drop_first())
    }
}

/// A ready cache is never rebuilt nor changed: whatever requests follow, in
/// whatever order, it stays as it is.
pub proof fn lemma_ready_is_final(c: CacheView, ops: Seq<CacheOp>)
    requires
        c.phase == CachePhase::Ready,
    ensures
        run(c, ops) == c,
        grants(c, ops) == 0,
    decreases ops.len(),
{
    if ops.len() > 0 {
        lemma_ready_is_final(step(c, ops[0]), ops.drop_first());
    }
}

/// Once a build has been granted, no later request is granted one.
proof fn lemma_no_grant_after_start(c: CacheView, ops: Seq<CacheOp>)
    requires
        c.phase != CachePhase::Uninitialized,
    ensures
        grants(c, ops) == 0,
        run(c, ops).phase != CachePhase::Uninitialized,
    decreases ops.len(),
{
    if ops.len() > 0 {
        lemma_no_grant_after_start(step(c, ops[0]), ops.drop_first());
    }
}

/// The build is granted at most once over any sequence of requests, and not at
/// all to a cache that has already started.
pub proof fn lemma_build_granted_once(c: CacheView, ops: Seq<CacheOp>)
    ensures
        grants(c, ops) <= 1,
        c.phase != CachePhase::Uninitialized ==> grants(c, ops) == 0,
    decreases ops.len(),
{
    if c.phase != CachePhase::Uninitialized {
        lemma_no_grant_after_start(c, ops);
    } else if ops.len() > 0 {
        let next = step(c, ops[0]);
        if next.phase == CachePhase::Uninitialized {
            lemma_build_granted_once(next, ops.drop_first());
        } else {
            lemma_no_grant_after_start(next, ops.drop_first());
        }
    }
}

/// A ready cache built over `n` logical processors, where slot `i` was filled
/// by probing processor `i`, serves a list of exactly `n` snapshots whose entry
/// `i` is what probing processor `i` gave.
pub proof fn lemma_ready_list_aligned<F: Fn(usize) -> X86CpuInfo>(c: CacheView, n: nat, probe: F)
    requires
        c.phase == CachePhase::Ready,
        c.slots.len() == n,
        forall|i: int|
            0 <= i < n ==> #[trigger] c.slots[i] is Some && probe.ensures(
                (i as usize,),
                c.slots[i]->0,
            ),
    ensures
        ready_entries(c).len() == n,
        forall|i: int| 0 <= i < n ==> probe.ensures((i as usize,), #[trigger] ready_entries(c)[i]),
{
}

/// The per-processor snapshots of every logical processor, built once.
pub struct CoreCache {
    phase: CachePhase,
    slots: Vec<Option<X86CpuInfo>>,
    entries: Vec<X86CpuInfo>,
}

impl View for CoreCache {
    type V = CacheView;

    closed spec fn view(&self) -> CacheView {
        CacheView { phase: self.phase, slots: self.slots@ }
    }
}

/// The snapshots of a ready cache, in the order of the logical processors.
pub open spec fn ready_entries(c: CacheView) -> Seq<X86CpuInfo> {
    c.slots.map_values(|s: Option<X86CpuInfo>| s->0)
}

impl CoreCache {
    #[verifier::type_invariant]
    spec fn inv(&self) -> bool {
        &&& self.phase == CachePhase::Uninitialized ==> self.slots@.len() == 0
        &&& self.phase != CachePhase::Ready ==> self.entries@.len() == 0
        &&& self.phase == CachePhase::Ready ==> {
            &&& self.entries@.len() == self.slots@.len()
            &&& forall|i: int|
                0 <= i < self.slots@.len() ==> #[trigger] self.slots@[i] == Some(self.entries@[i])
        }
    }

    /// An empty cache, not yet built.
    pub fn new() -> (r: Self)
        ensures
            r@ == (CacheView { phase: CachePhase::Uninitialized, slots: Seq::empty() }),
    {
        CoreCache { phase: CachePhase::Uninitialized, slots: Vec::new(), entries: Vec::new() }
    }

    /// The phase the cache is in.
    pub fn phase(&self) -> (r: CachePhase)
        ensures
            r == self@.phase,
    {
        self.phase
    }

    /// Whether the cache is ready.
    pub fn is_ready(&self) -> (r: bool)
        ensures
            r == (self@.phase == CachePhase::Ready),
    {
        self.phase == CachePhase::Ready
    }

    /// Starts the build for `n` logical processors. Only the first request is
    /// granted; the caller that receives `true` must probe every processor.
    pub fn begin_build(&mut self, n: usize) -> (granted: bool)
        ensures
            granted == begin_granted(old(self)@),
            final(self)@ == begin_next(old(self)@, n as nat),
    {
        if self.phase != CachePhase::Uninitialized {
            return false;
        }
        let mut slots: Vec<Option<X86CpuInfo>> = Vec::new();
        let mut i: usize = 0;
        while i < n
            invariant
                i <= n,
                slots@ == Seq::new(i as nat, |k: int| None::<X86CpuInfo>),
            decreases n - i,
        {
            slots.push(None);
            i = i + 1;
            assert(slots@ =~= Seq::new(i as nat, |k: int| None::<X86CpuInfo>));
        }
        *self = CoreCache { phase: CachePhase::Building, slots, entries: Vec::new() };
        true
    }

    /// Hands in the snapshot of logical processor `index`, in any order. It is
    /// kept only while building and only if that processor has none yet.
    pub fn record(&mut self, index: usize, info: X86CpuInfo) -> (accepted: bool)
        ensures
            accepted == record_accepted(old(self)@, index as int),
            final(self)@ == record_next(old(self)@, index as int, info),
    {
        proof {
            use_type_invariant(&*self);
        }
        if self.phase != CachePhase::Building || index >= self.slots.len() {
            return false;
        }
        if self.slots[index].is_some() {
            return false;
        }
        let mut slots: Vec<Option<X86CpuInfo>> = Vec::new();
        std::mem::swap(&mut slots, &mut self.slots);
        slots.set(index, Some(info));
        self.slots = slots;
        true
    }

    /// Completes the build once every processor has its snapshot; from then
    /// on the cache is read-only.
    pub fn finish(&mut self) -> (done: bool)
        ensures
            done == finish_accepted(old(self)@),
            final(self)@ == finish_next(old(self)@),
    {
        proof {
            use_type_invariant(&*self);
        }
        if self.phase != CachePhase::Building {
            return false;
        }
        let mut entries: Vec<X86CpuInfo> = Vec::new();
        let mut i: usize = 0;
        while i < self.slots.len()
            invariant
                self.phase == CachePhase::Building,
                i <= self.slots@.len(),
                entries@.len() == i,
                forall|k: int| 0 <= k < i ==> #[trigger] self.slots@[k] == Some(entries@[k]),
            decreases self.slots@.len() - i,
        {
            match &self.slots[i] {
                Some(info) => {
                    entries.push(info.clone());
                },
                None => {
                    assert(!all_filled(self@.slots));
                    return false;
                },
            }
            i = i + 1;
        }
        assert(all_filled(self@.slots));
        let mut slots: Vec<Option<X86CpuInfo>> = Vec::new();
        std::mem::swap(&mut slots, &mut self.slots);
        *self = CoreCache { phase: CachePhase::Ready, slots, entries };
        true
    }

    /// The number of logical processors of a ready cache; zero otherwise.
    pub fn len(&self) -> (r: usize)
        ensures
            self@.phase == CachePhase::Ready ==> r == self@.slots.len(),
            self@.phase != CachePhase::Ready ==> r == 0,
    {
        proof {
            use_type_invariant(self);
        }
        self.entries.len()
    }

    /// The snapshots of a ready cache, indexed by logical processor; empty
    /// before the build completes.
    pub fn entries(&self) -> (r: &[X86CpuInfo])
        ensures
            self@.phase == CachePhase::Ready ==> r@ == ready_entries(self@),
            self@.phase != CachePhase::Ready ==> r@.len() == 0,
    {
        proof {
            use_type_invariant(self);
            if self.phase == CachePhase::Ready {
                assert(self.entries@ =~= ready_entries(self@));
            }
        }
        self.entries.as_slice()
    }

    /// Builds the cache if it has never been started: probes logical processor
    /// `i` through `probe(i)` for every `i` below `n`, exactly once each, and
    /// keeps the result at index `i`. Returns how many probes were made. A
    /// cache that was already started is left as it is and nothing is probed.
    pub fn ensure_built<F: Fn(usize) -> X86CpuInfo>(&mut self, n: usize, probe: &F) -> (probes: usize)
        requires
            forall|i: usize| i < n ==> #[trigger] probe.requires((i,)),
        ensures
            old(self)@.phase == CachePhase::Uninitialized ==> {
                &&& final(self)@.phase == CachePhase::Ready
                &&& final(self)@.slots.len() == n
                &&& forall|i: int|
                    0 <= i < n ==> #[trigger] final(self)@.slots[i] is Some && probe.ensures(
                        (i as usize,),
                        final(self)@.slots[i]->0,
                    )
                &&& probes == n
            },
            old(self)@.phase != CachePhase::Uninitialized ==> final(self)@ == old(self)@ && probes
                == 0,
    {
        if !self.begin_build(n) {
            return 0;
        }
        let mut i: usize = 0;
        while i < n
            invariant
                i <= n,
                forall|i: usize| i < n ==> #[trigger] probe.requires((i,)),
                self@.phase == CachePhase::Building,
                self@.slots.len() == n,
                forall|k: int| 0 <= k < i ==> #[trigger] self@.slots[k] is Some && probe.ensures(
                    (k as usize,),
                    self@.slots[k]->0,
                ),
                forall|k: int| i <= k < n ==> #[trigger] self@.slots[k] is None,
            decreases n - i,
        {
            let info = probe(i);
            let accepted = self.record(i, info);
            assert(accepted);
            i = i + 1;
        }
        let done = self.finish();
        assert(done);
        n
    }
}

} // verus!
