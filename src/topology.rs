use vstd::prelude::*;

use crate::common::{topology_wf, total_count, CoreTypeInfo, CpuTopology};
use crate::text::{ascii_chars, decimal, decimal_string};
use crate::x86::{CoreType, X86CpuInfo};

verus! {

/// The distinct values of `s`, in the order of their first appearance.
pub open spec fn distinct(s: Seq<u64>) -> Seq<u64>
    decreases s.len(),
{
    if s.len() == 0 {
        Seq::empty()
    } else {
        let d = distinct(s.drop_last());
        if d.contains(s.last()) {
            d
        } else {
            d.push(s.last())
        }
    }
}

/// How many times `k` occurs in `s`.
pub open spec fn count_of(s: Seq<u64>, k: u64) -> nat
    decreases s.len(),
{
    if s.len() == 0 {
        0
    } else {
        count_of(s.drop_last(), k) + if s.last() == k {
            1nat
        } else {
            0nat
        }
    }
}

/// The sum of `s`.
pub open spec fn sum(s: Seq<usize>) -> nat
    decreases s.len(),
{
    if s.len() == 0 {
        0
    } else {
        sum(s.drop_last()) + s.last() as nat
    }
}

proof fn lemma_sum_push(s: Seq<usize>, x: usize)
    ensures
        sum(s.push(x)) == sum(s) + x,
{
    assert(s.push(x).drop_last() =~= s);
}

proof fn lemma_sum_increment(s: Seq<usize>, j: int)
    requires
        0 <= j < s.len(),
        s[j] < usize::MAX,
    ensures
        sum(s.update(j, (s[j] + 1) as usize)) == sum(s) + 1,
    decreases s.len(),
{
    let t = s.update(j, (s[j] + 1) as usize);
    if j == s.len() - 1 {
        assert(t.drop_last() =~= s.drop_last());
    } else {
        assert(t.drop_last() =~= s.drop_last().update(j, (s[j] + 1) as usize));
        lemma_sum_increment(s.drop_last(), j);
    }
}

/// The distinct values of `keys` in the order of their first appearance, each
/// with the number of times it occurs.
pub open spec fn groups_of(keys: Seq<u64>, ks: Seq<u64>, counts: Seq<usize>) -> bool {
    &&& ks == distinct(keys)
    &&& counts.len() == ks.len()
    &&& forall|j: int| 0 <= j < ks.len() ==> #[trigger] counts[j] == count_of(keys, ks[j])
    &&& forall|j: int| 0 <= j < ks.len() ==> #[trigger] counts[j] > 0
    &&& sum(counts) == keys.len()
}

/// Groups equal values: the distinct values of `keys` in the order of their
/// first appearance, and how often each occurs.
pub fn group_counts(keys: &[u64]) -> (r: (Vec<u64>, Vec<usize>))
    ensures
        groups_of(keys@, r.0@, r.1@),
{
    let mut ks: Vec<u64> = Vec::new();
    let mut counts: Vec<usize> = Vec::new();
    let mut i: usize = 0;
    while i < keys.len()
        invariant
            i <= keys@.len(),
            groups_of(keys@.subrange(0, i as int), ks@, counts@),
            ks@.len() <= i,
        decreases keys@.len() - i,
    {
        let k = keys[i];
        let ghost pre = keys@.subrange(0, i as int);
        let ghost next = keys@.subrange(0, i + 1);
        assert(next.drop_last() =~= pre);
        assert(next.last() == k);
        let mut j: usize = 0;
        while j < ks.len() && ks[j] != k
            invariant
                j <= ks@.len(),
                forall|m: int| 0 <= m < j ==> ks@[m] != k,
            decreases ks@.len() - j,
        {
            j = j + 1;
        }
        assert forall|m: int| 0 <= m < ks@.len() implies #[trigger] count_of(next, ks@[m])
            == count_of(pre, ks@[m]) + if ks@[m] == k {
            1nat
        } else {
            0nat
        } by {}
        if j < ks.len() {
            assert(ks@.contains(k));
            assert(counts@[j as int] == count_of(pre, k));
            assert(count_of(pre, k) <= pre.len()) by {
                lemma_count_bounded(pre, k);
            }
            proof {
                lemma_sum_increment(counts@, j as int);
            }
            let c = counts[j];
            counts.set(j, c + 1);
            assert(forall|m: int| 0 <= m < ks@.len() && m != j ==> ks@[m] != k) by {
                lemma_distinct_unique(pre);
            }
        } else {
            assert(!ks@.contains(k));
            assert(count_of(pre, k) == 0) by {
                lemma_absent_count_zero(pre, k);
            }
            proof {
                lemma_sum_push(counts@, 1);
            }
            ks.push(k);
            counts.push(1);
        }
        i = i + 1;
    }
    assert(keys@.subrange(0, keys@.len() as int) =~= keys@);
    (ks, counts)
}

proof fn lemma_count_bounded(s: Seq<u64>, k: u64)
    ensures
        count_of(s, k) <= s.len(),
    decreases s.len(),
{
    if s.len() > 0 {
        lemma_count_bounded(s.drop_last(), k);
    }
}

proof fn lemma_absent_count_zero(s: Seq<u64>, k: u64)
    requires
        !distinct(s).contains(k),
    ensures
        count_of(s, k) == 0,
    decreases s.len(),
{
    if s.len() > 0 {
        let d = distinct(s.drop_last());
        let ds = distinct(s);
        if !d.contains(s.last()) {
            assert(ds[d.len() as int] == s.last());
        }
        assert(ds.contains(s.last()));
        assert forall|m: int| 0 <= m < d.len() implies ds[m] == d[m] by {}
        if d.contains(k) {
            let m = choose|m: int| 0 <= m < d.len() && d[m] == k;
            assert(ds[m] == k);
        }
        lemma_absent_count_zero(s.drop_last(), k);
    }
}

proof fn lemma_distinct_unique(s: Seq<u64>)
    ensures
        forall|a: int, b: int|
            0 <= a < b < distinct(s).len() ==> distinct(s)[a] != distinct(s)[b],
    decreases s.len(),
{
    if s.len() > 0 {
        lemma_distinct_unique(s.drop_last());
        let d = distinct(s.drop_last());
        let ds = distinct(s);
        assert forall|a: int, b: int| 0 <= a < b < ds.len() implies ds[a] != ds[b] by {
            if b >= d.len() {
                assert(ds[a] == d[a]);
                assert(ds[b] == s.last());
                assert(!d.contains(s.last()));
            }
        }
    }
}

} // verus!

verus! {

/// The hardware group key of a core class.
pub open spec fn class_key(t: Option<CoreType>) -> u64 {
    match t {
        Some(CoreType::Efficiency) => 1,
        Some(CoreType::Performance) => 2,
        None => 0,
    }
}

/// The hardware group key of each logical processor, in order.
pub open spec fn class_keys(cores: Seq<X86CpuInfo>) -> Seq<u64> {
    cores.map_values(|c: X86CpuInfo| class_key(c.core_type))
}

/// The name of a hardware group.
pub open spec fn class_name(key: u64) -> Seq<char> {
    if key == 1 {
        "Efficiency"@
    } else if key == 2 {
        "Performance"@
    } else {
        "Unclassified"@
    }
}

/// The efficiency class of a hardware group: lower is more efficient.
pub open spec fn class_rank(key: u64) -> Option<u8> {
    if key == 1 {
        Some(0u8)
    } else if key == 2 {
        Some(1u8)
    } else {
        None
    }
}

/// Whether `g` holds one group per distinct key of `keys`, in order of first
/// appearance, with that key's count, and named by `name` and `class`.
pub open spec fn groups_describe(
    g: Seq<CoreTypeInfo>,
    keys: Seq<u64>,
    name: spec_fn(u64) -> Seq<char>,
    class: spec_fn(u64) -> Option<u8>,
) -> bool {
    &&& g.len() == distinct(keys).len()
    &&& forall|j: int|
        #![trigger g[j]]
        0 <= j < g.len() ==> {
            &&& g[j].identifier@ == name(distinct(keys)[j])
            &&& g[j].efficiency_class == class(distinct(keys)[j])
            &&& g[j].count == count_of(keys, distinct(keys)[j])
        }
}

/// The name of a capacity group: the capacity in decimal.
pub open spec fn capacity_name(key: u64) -> Seq<char> {
    ascii_chars(decimal(key as nat))
}

/// Capacity groups carry no efficiency class.
pub open spec fn no_class(key: u64) -> Option<u8> {
    None
}

/// Whether the hardware source decides: the hybrid hint of the first processor
/// is set and its core classes form more than one group.
pub open spec fn hardware_decides(cores: Seq<X86CpuInfo>) -> bool {
    cores.len() > 0 && cores[0].hybrid && distinct(class_keys(cores)).len() >= 2
}

/// Whether the operating system's capacities decide: the hardware source does
/// not, one capacity per processor is given, and they take more than one value.
pub open spec fn capacity_decides(cores: Seq<X86CpuInfo>, capacities: Seq<u64>) -> bool {
    !hardware_decides(cores) && capacities.len() == cores.len() && distinct(capacities).len() >= 2
}

/// The flat topology of `n` processors: one "standard" group holding all of
/// them, or no group where there are none.
pub open spec fn flat_groups(g: Seq<CoreTypeInfo>, n: nat) -> bool {
    &&& n == 0 ==> g.len() == 0
    &&& n > 0 ==> {
        &&& g.len() == 1
        &&& g[0].identifier@ == "standard"@
        &&& g[0].efficiency_class is None
        &&& g[0].count == n
    }
}

proof fn lemma_total_push(g: Seq<CoreTypeInfo>, t: CoreTypeInfo)
    ensures
        total_count(g.push(t)) == total_count(g) + t.count,
{
    assert(g.push(t).drop_last() =~= g);
}

/// Turns grouped keys into topology groups, named by `name_of` and `class_of`.
fn make_groups(
    keys: Ghost<Seq<u64>>,
    ks: &Vec<u64>,
    counts: &Vec<usize>,
    capacity: bool,
) -> (r: Vec<CoreTypeInfo>)
    requires
        groups_of(keys@, ks@, counts@),
    ensures
        capacity ==> groups_describe(r@, keys@, |k: u64| capacity_name(k), |k: u64| no_class(k)),
        !capacity ==> groups_describe(r@, keys@, |k: u64| class_name(k), |k: u64| class_rank(k)),
        total_count(r@) == keys@.len(),
        forall|j: int| 0 <= j < r@.len() ==> #[trigger] r@[j].count > 0,
{
    let mut r: Vec<CoreTypeInfo> = Vec::new();
    let mut j: usize = 0;
    while j < ks.len()
        invariant
            groups_of(keys@, ks@, counts@),
            j <= ks@.len(),
            r@.len() == j,
            total_count(r@) == sum(counts@.subrange(0, j as int)),
            forall|m: int|
                #![trigger r@[m]]
                0 <= m < j ==> {
                    &&& r@[m].count == counts@[m]
                    &&& capacity ==> r@[m].identifier@ == capacity_name(ks@[m])
                    &&& capacity ==> r@[m].efficiency_class == no_class(ks@[m])
                    &&& !capacity ==> r@[m].identifier@ == class_name(ks@[m])
                    &&& !capacity ==> r@[m].efficiency_class == class_rank(ks@[m])
                },
        decreases ks@.len() - j,
    {
        let k = ks[j];
        let t = if capacity {
            CoreTypeInfo { identifier: decimal_string(k), efficiency_class: None, count: counts[j] }
        } else if k == 1 {
            CoreTypeInfo { identifier: "Efficiency".to_owned(), efficiency_class: Some(0), count: counts[j] }
        } else if k == 2 {
            CoreTypeInfo { identifier: "Performance".to_owned(), efficiency_class: Some(1), count: counts[j] }
        } else {
            CoreTypeInfo { identifier: "Unclassified".to_owned(), efficiency_class: None, count: counts[j] }
        };
        assert(capacity ==> t.identifier@ == capacity_name(ks@[j as int]));
        assert(!capacity ==> t.identifier@ == class_name(ks@[j as int]));
        assert(t.count == counts@[j as int]);
        proof {
            lemma_total_push(r@, t);
            assert(counts@.subrange(0, j + 1).drop_last() =~= counts@.subrange(0, j as int));
        }
        r.push(t);
        j = j + 1;
    }
    assert(counts@.subrange(0, j as int) =~= counts@);
    assert(forall|m: int| 0 <= m < r@.len() ==> #[trigger] r@[m].count == counts@[m]);
    r
}

/// What `build_topology` gives for `cores` and `capacities`.
pub open spec fn builds_topology(
    r: CpuTopology,
    cores: Seq<X86CpuInfo>,
    capacities: Seq<u64>,
) -> bool {
    &&& topology_wf(r, cores.len())
    &&& hardware_decides(cores) ==> r.is_hybrid && groups_describe(
        r.core_types@,
        class_keys(cores),
        |k: u64| class_name(k),
        |k: u64| class_rank(k),
    )
    &&& capacity_decides(cores, capacities) ==> r.is_hybrid && groups_describe(
        r.core_types@,
        capacities,
        |k: u64| capacity_name(k),
        |k: u64| no_class(k),
    )
    &&& !hardware_decides(cores) && !capacity_decides(cores, capacities) ==> !r.is_hybrid
        && flat_groups(r.core_types@, cores.len())
}

/// Builds the topology of the logical processors whose snapshots are `cores`.
/// Where the first processor reports the hybrid hint, processors are grouped by
/// core class; where that yields a single group, by the capacities that the
/// operating system reports, one per processor (`capacities` may be empty
/// where it reports none); where neither yields two groups or more, the
/// topology is flat.
pub fn build_topology(cores: &[X86CpuInfo], capacities: &[u64]) -> (r: CpuTopology)
    ensures
        builds_topology(r, cores@, capacities@),
{
    let n = cores.len();
    if n > 0 && cores[0].hybrid {
        let mut keys: Vec<u64> = Vec::new();
        let mut i: usize = 0;
        while i < n
            invariant
                n == cores@.len(),
                i <= n,
                keys@ == class_keys(cores@.subrange(0, i as int)),
            decreases n - i,
        {
            let k: u64 = match cores[i].core_type {
                Some(CoreType::Efficiency) => 1,
                Some(CoreType::Performance) => 2,
                None => 0,
            };
            keys.push(k);
            i = i + 1;
            assert(keys@ =~= class_keys(cores@.subrange(0, i as int)));
        }
        assert(cores@.subrange(0, n as int) =~= cores@);
        let (ks, counts) = group_counts(keys.as_slice());
        if ks.len() >= 2 {
            let g = make_groups(Ghost(keys@), &ks, &counts, false);
            return CpuTopology { is_hybrid: true, core_types: g };
        }
    }
    if capacities.len() == n {
        let (ks, counts) = group_counts(capacities);
        if ks.len() >= 2 {
            let g = make_groups(Ghost(capacities@), &ks, &counts, true);
            return CpuTopology { is_hybrid: true, core_types: g };
        }
    }
    flat_topology(n)
}

/// The flat topology of `n` logical processors.
pub fn flat_topology(n: usize) -> (r: CpuTopology)
    ensures
        topology_wf(r, n as nat),
        !r.is_hybrid,
        flat_groups(r.core_types@, n as nat),
{
    let mut g: Vec<CoreTypeInfo> = Vec::new();
    if n > 0 {
        let t = CoreTypeInfo { identifier: "standard".to_owned(), efficiency_class: None, count: n };
        proof {
            lemma_total_push(g@, t);
        }
        g.push(t);
    }
    CpuTopology { is_hybrid: false, core_types: g }
}

} // verus!
