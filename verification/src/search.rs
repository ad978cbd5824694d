//! Configuration search: enumerate candidate arrays within a tolerance band
//! around a target usable capacity, and rank candidates by total cost.

use vstd::prelude::*;

use crate::Disk;
use crate::vdev::Vdev;
use crate::vdev::VdevType;

verus! {

/// Whether a usable capacity lies within the tolerance band around the
/// target: `target * (1 - ratio) <= usable <= target * (1 + ratio)`, both
/// ends inclusive, with the ratio given in percentage points (so `ratio`
/// of 30 means plus or minus 30 percent).
pub open spec fn in_band(usable: int, target: int, ratio: int) -> bool {
    target * (100 - ratio) <= 100 * usable && 100 * usable <= target * (100 + ratio)
}

/// The candidates for one disk model: member counts from `lo` to `hi`
/// inclusive, in ascending order, keeping those whose usable storage lies in
/// the tolerance band.
pub open spec fn sweep_spec(
    target: int,
    disk: Disk,
    ratio: int,
    t: VdevType,
    lo: int,
    hi: int,
) -> Seq<Vdev>
    decreases hi + 1 - lo,
{
    if lo > hi {
        Seq::empty()
    } else {
        let prefix = sweep_spec(target, disk, ratio, t, lo, hi - 1);
        let v = Vdev { vdev_type: t, disk_type: disk, num_disks: hi as u32 };
        if in_band(v.usable_spec(), target, ratio) {
            prefix.push(v)
        } else {
            prefix
        }
    }
}

/// The full search result: for each disk of the catalog in order, the
/// in-band candidates with member counts from the scheme's minimum up to
/// `max_disks`, ascending.
pub open spec fn find_spec(
    target: int,
    disks: Seq<Disk>,
    max_disks: int,
    ratio: int,
    t: VdevType,
) -> Seq<Vdev>
    decreases disks.len(),
{
    if disks.len() == 0 {
        Seq::empty()
    } else {
        find_spec(target, disks.drop_last(), max_disks, ratio, t) + sweep_spec(
            target,
            disks.last(),
            ratio,
            t,
            t.min_disks_spec(),
            max_disks,
        )
    }
}

/// Enumerates, for every disk of the catalog and every member count from the
/// scheme's minimum to `max_disks` inclusive, the configurations whose usable
/// storage lies within `range_ratio` percent of `target_storage` (both band
/// ends inclusive). The result keeps enumeration order: disk-major, then
/// ascending member count; it is not sorted by cost.
pub fn find_configurations(
    target_storage: u64,
    disk_options: &Vec<Disk>,
    max_disks: u32,
    range_ratio: u32,
    vdev_strategy: &VdevType,
) -> (r: Vec<Vdev>)
    ensures
        r@ == find_spec(
            target_storage as int,
            disk_options@,
            max_disks as int,
            range_ratio as int,
            *vdev_strategy,
        ),
        forall|i: int|
            0 <= i < r@.len() ==> (#[trigger] r@[i]).valid() && r@[i].vdev_type == *vdev_strategy
                && r@[i].num_disks <= max_disks,
{
    let ghost tg: int = target_storage as int;
    let ghost rr: int = range_ratio as int;
    let t = *vdev_strategy;
    let min = t.min_disks();
    let ov = t.overhead();
    proof {
        assert((target_storage as int) * (range_ratio as int)
            < 0x1_0000_0000_0000_0000_0000_0000) by (nonlinear_arith)
            requires
                target_storage <= u64::MAX,
                range_ratio <= u32::MAX,
        ;
    }
    let t100: u128 = (target_storage as u128) * 100;
    let tr: u128 = (target_storage as u128) * (range_ratio as u128);
    let mut config: Vec<Vdev> = Vec::new();
    let mut di: usize = 0;
    while di < disk_options.len()
        invariant
            di <= disk_options.len(),
            t == *vdev_strategy,
            min == t.min_disks_spec(),
            ov == t.overhead_spec(),
            t100 == tg * 100,
            tr == tg * rr,
            tr < 0x1_0000_0000_0000_0000_0000_0000,
            tg == target_storage as int,
            rr == range_ratio as int,
            config@ == find_spec(tg, disk_options@.take(di as int), max_disks as int, rr, t),
            forall|i: int|
                0 <= i < config@.len() ==> (#[trigger] config@[i]).valid() && config@[i].vdev_type
                    == t && config@[i].num_disks <= max_disks,
        decreases disk_options.len() - di,
    {
        let disk = &disk_options[di];
        let mut n: u64 = min as u64;
        while n <= max_disks as u64
            invariant
                min <= n,
                n <= max_disks + 1 || n == min,
                t == *vdev_strategy,
                min == t.min_disks_spec(),
                ov == t.overhead_spec(),
                t100 == tg * 100,
                tr == tg * rr,
                tr < 0x1_0000_0000_0000_0000_0000_0000,
                tg == target_storage as int,
                rr == range_ratio as int,
                di < disk_options.len(),
                *disk == disk_options@[di as int],
                config@ == find_spec(tg, disk_options@.take(di as int), max_disks as int, rr, t)
                    + sweep_spec(tg, disk_options@[di as int], rr, t, min as int, n - 1),
                forall|i: int|
                    0 <= i < config@.len() ==> (#[trigger] config@[i]).valid()
                        && config@[i].vdev_type == t && config@[i].num_disks <= max_disks,
            decreases max_disks + 1 - n,
        {
            let data_disks: u64 = n - ov as u64;
            proof {
                assert((disk.size as int) * (data_disks as int) < 0x1_0000_0000_0000_0000_0000_0000)
                    by (nonlinear_arith)
                    requires
                        disk.size <= u64::MAX,
                        data_disks <= u32::MAX,
                ;
            }
            let usable: u128 = (disk.size as u128) * (data_disks as u128);
            let u100: u128 = usable * 100;
            let ghost v = Vdev { vdev_type: t, disk_type: disk_options@[di as int], num_disks: n as u32 };
            proof {
                assert(v.usable_spec() == usable);
                assert(tg * (100 - rr) == 100 * tg - tg * rr) by (nonlinear_arith);
                assert(tg * (100 + rr) == 100 * tg + tg * rr) by (nonlinear_arith);
            }
            if u100 + tr >= t100 && u100 <= t100 + tr {
                proof {
                    assert(in_band(v.usable_spec(), tg, rr));
                }
                config.push(Vdev { vdev_type: t, disk_type: disk.clone(), num_disks: n as u32 });
            } else {
                proof {
                    assert(!in_band(v.usable_spec(), tg, rr));
                }
            }
            proof {
                let prefix = find_spec(tg, disk_options@.take(di as int), max_disks as int, rr, t);
                let before = sweep_spec(tg, disk_options@[di as int], rr, t, min as int, n - 1);
                let after = sweep_spec(tg, disk_options@[di as int], rr, t, min as int, n as int);
                if in_band(v.usable_spec(), tg, rr) {
                    assert(after == before.push(v));
                    assert(config@ =~= prefix + after);
                } else {
                    assert(after == before);
                    assert(config@ =~= prefix + after);
                }
            }
            n = n + 1;
        }
        proof {
            let ghost d = disk_options@[di as int];
            assert(sweep_spec(tg, d, rr, t, min as int, n - 1) == sweep_spec(
                tg,
                d,
                rr,
                t,
                min as int,
                max_disks as int,
            ));
            assert(disk_options@.take(di + 1).drop_last() =~= disk_options@.take(di as int));
            assert(disk_options@.take(di + 1).last() == d);
            assert(config@ == find_spec(tg, disk_options@.take(di + 1), max_disks as int, rr, t));
        }
        di = di + 1;
    }
    proof {
        assert(disk_options@.take(disk_options@.len() as int) =~= disk_options@);
    }
    config
}

/// The sequence is ordered by non-decreasing total cost.
pub open spec fn sorted_by_cost(s: Seq<Vdev>) -> bool {
    forall|i: int, j: int|
        0 <= i <= j < s.len() ==> (#[trigger] s[i]).cost_spec() <= (#[trigger] s[j]).cost_spec()
}

/// A configuration's total cost as an exact value, wide enough never to
/// overflow.
fn cost_value(v: &Vdev) -> (c: u128)
    ensures
        c == v.cost_spec(),
{
    proof {
        assert((v.disk_type.cost as int) * (v.num_disks as int)
            < 0x1_0000_0000_0000_0000_0000_0000) by (nonlinear_arith)
            requires
                v.disk_type.cost <= u64::MAX,
                v.num_disks <= u32::MAX,
        ;
    }
    (v.disk_type.cost as u128) * (v.num_disks as u128)
}

/// Reorders the configurations by total cost, ascending. The result holds
/// exactly the same configurations (as a multiset) as before the call.
pub fn sort_by_total_cost(configs: &mut Vec<Vdev>)
    ensures
        final(configs)@.to_multiset() == old(configs)@.to_multiset(),
        final(configs)@.len() == old(configs)@.len(),
        sorted_by_cost(final(configs)@),
{
    if configs.len() <= 1 {
        return;
    }
    let mut i: usize = 1;
    while i < configs.len()
        invariant
            1 <= i <= configs@.len(),
            configs@.len() == old(configs)@.len(),
            configs@.to_multiset() == old(configs)@.to_multiset(),
            sorted_by_cost(configs@.take(i as int)),
        decreases configs@.len() - i,
    {
        let ghost s = configs@;
        let cx = cost_value(&configs[i]);
        let mut p: usize = 0;
        while p < i && cost_value(&configs[p]) <= cx
            invariant
                0 <= p <= i,
                i < configs@.len(),
                configs@ == s,
                cx == s[i as int].cost_spec(),
                forall|k: int| 0 <= k < p ==> (#[trigger] s[k]).cost_spec() <= cx,
            decreases i - p,
        {
            p = p + 1;
        }
        let x = configs.remove(i);
        configs.insert(p, x);
        proof {
            broadcast use vstd::seq_lib::group_to_multiset_ensures;
            broadcast use vstd::multiset::group_multiset_axioms;

            let t2 = configs@;
            assert(x == s[i as int]);
            assert(t2 == s.remove(i as int).insert(p as int, x));
            assert(s.contains(s[i as int]));
            assert(s.to_multiset().count(x) > 0);
            assert(t2.to_multiset() =~= s.to_multiset());
            // Element placement after the removal and re-insertion.
            assert(forall|j: int| 0 <= j < p ==> t2[j] == s[j]);
            assert(t2[p as int] == x);
            assert(forall|j: int| p < j <= i ==> t2[j] == s[j - 1]);
            // The scan stopped either at i or at the first costlier element.
            assert(p < i ==> cx < s[p as int].cost_spec());
            assert forall|u: int, v2: int| 0 <= u <= v2 < i implies (#[trigger] s[u]).cost_spec()
                <= (#[trigger] s[v2]).cost_spec() by {
                assert(s.take(i as int)[u] == s[u]);
                assert(s.take(i as int)[v2] == s[v2]);
                assert((s.take(i as int)[u]).cost_spec() <= (s.take(i as int)[v2]).cost_spec());
            }
            assert forall|a: int, b: int| 0 <= a <= b < i + 1 implies (#[trigger] t2[a]).cost_spec()
                <= (#[trigger] t2[b]).cost_spec() by {
                if a < p && b < p {
                } else if b == p {
                    assert(a < p ==> s[a].cost_spec() <= cx);
                } else if a == p {
                    assert(p < b ==> cx < s[p as int].cost_spec() <= s[b - 1].cost_spec());
                } else if a < p {
                    assert(s[a].cost_spec() <= s[b - 1].cost_spec());
                } else {
                    assert(s[a - 1].cost_spec() <= s[b - 1].cost_spec());
                }
            }
            assert(sorted_by_cost(t2.take(i + 1))) by {
                assert(forall|j: int| 0 <= j < i + 1 ==> t2.take(i + 1)[j] == t2[j]);
            }
        }
        i = i + 1;
    }
    proof {
        assert(configs@.take(configs@.len() as int) =~= configs@);
    }
}

/// Soundness half of filter correctness for one disk's sweep.
proof fn lemma_sweep_contains(
    target: int,
    disk: Disk,
    ratio: int,
    t: VdevType,
    lo: int,
    hi: int,
    v: Vdev,
)
    requires
        sweep_spec(target, disk, ratio, t, lo, hi).contains(v),
        0 <= lo,
        hi <= u32::MAX,
    ensures
        v.vdev_type == t,
        v.disk_type == disk,
        lo <= v.num_disks <= hi,
        in_band(v.usable_spec(), target, ratio),
    decreases hi + 1 - lo,
{
    broadcast use vstd::seq_lib::lemma_seq_empty_contains_nothing;
    broadcast use vstd::seq_lib::lemma_seq_contains_after_push;

    if lo > hi {
        assert(false);
    } else {
        let w = Vdev { vdev_type: t, disk_type: disk, num_disks: hi as u32 };
        if in_band(w.usable_spec(), target, ratio) && v == w {
        } else {
            lemma_sweep_contains(target, disk, ratio, t, lo, hi - 1, v);
        }
    }
}

/// Completeness half of filter correctness for one disk's sweep.
proof fn lemma_sweep_found(
    target: int,
    disk: Disk,
    ratio: int,
    t: VdevType,
    lo: int,
    hi: int,
    n: int,
)
    requires
        lo <= n <= hi,
        0 <= lo,
        hi <= u32::MAX,
        in_band(
            (Vdev { vdev_type: t, disk_type: disk, num_disks: n as u32 }).usable_spec(),
            target,
            ratio,
        ),
    ensures
        sweep_spec(target, disk, ratio, t, lo, hi).contains(
            Vdev { vdev_type: t, disk_type: disk, num_disks: n as u32 },
        ),
    decreases hi - n,
{
    broadcast use vstd::seq_lib::lemma_seq_contains_after_push;

    let v = Vdev { vdev_type: t, disk_type: disk, num_disks: n as u32 };
    if n == hi {
        assert(sweep_spec(target, disk, ratio, t, lo, hi) == sweep_spec(
            target,
            disk,
            ratio,
            t,
            lo,
            hi - 1,
        ).push(v));
    } else {
        lemma_sweep_found(target, disk, ratio, t, lo, hi - 1, n);
    }
}

/// Soundness half of filter correctness: every configuration the search
/// returns lies within the tolerance band, is valid, carries the scheme that
/// was searched, respects the member-count bound, and draws its disk from
/// the catalog.
pub proof fn lemma_found_configurations_are_in_band(
    target: int,
    disks: Seq<Disk>,
    max_disks: int,
    ratio: int,
    t: VdevType,
    v: Vdev,
)
    requires
        find_spec(target, disks, max_disks, ratio, t).contains(v),
        max_disks <= u32::MAX,
    ensures
        in_band(v.usable_spec(), target, ratio),
        v.valid(),
        v.vdev_type == t,
        v.num_disks <= max_disks,
        disks.contains(v.disk_type),
    decreases disks.len(),
{
    broadcast use vstd::seq_lib::lemma_seq_concat_contains_all_elements;
    broadcast use vstd::seq_lib::lemma_seq_empty_contains_nothing;
    broadcast use vstd::seq_lib::lemma_seq_contains;

    if disks.len() == 0 {
        assert(false);
    } else {
        let a = find_spec(target, disks.drop_last(), max_disks, ratio, t);
        if a.contains(v) {
            lemma_found_configurations_are_in_band(target, disks.drop_last(), max_disks, ratio, t, v);
            let j = choose|j: int|
                0 <= j < disks.drop_last().len() && disks.drop_last()[j] == v.disk_type;
            assert(disks[j] == v.disk_type);
        } else {
            lemma_sweep_contains(target, disks.last(), ratio, t, t.min_disks_spec(), max_disks, v);
            assert(disks[disks.len() - 1] == v.disk_type);
        }
    }
}

/// Completeness half of filter correctness: every candidate whose usable
/// storage lies within the tolerance band appears in the search result.
pub proof fn lemma_in_band_configurations_are_found(
    target: int,
    disks: Seq<Disk>,
    max_disks: int,
    ratio: int,
    t: VdevType,
    i: int,
    n: int,
)
    requires
        0 <= i < disks.len(),
        t.min_disks_spec() <= n <= max_disks,
        max_disks <= u32::MAX,
        in_band(
            (Vdev { vdev_type: t, disk_type: disks[i], num_disks: n as u32 }).usable_spec(),
            target,
            ratio,
        ),
    ensures
        find_spec(target, disks, max_disks, ratio, t).contains(
            Vdev { vdev_type: t, disk_type: disks[i], num_disks: n as u32 },
        ),
    decreases disks.len(),
{
    broadcast use vstd::seq_lib::lemma_seq_concat_contains_all_elements;

    if i == disks.len() - 1 {
        lemma_sweep_found(target, disks.last(), ratio, t, t.min_disks_spec(), max_disks, n);
    } else {
        assert(disks.drop_last()[i] == disks[i]);
        lemma_in_band_configurations_are_found(
            target,
            disks.drop_last(),
            max_disks,
            ratio,
            t,
            i,
            n,
        );
    }
}

/// The search result is a function of its inputs alone: two result sequences
/// that both meet the search's contract on the same inputs are equal, so
/// repeating a search yields an identical, identically ordered result.
pub proof fn lemma_search_deterministic(
    r1: Seq<Vdev>,
    r2: Seq<Vdev>,
    target: int,
    disks: Seq<Disk>,
    max_disks: int,
    ratio: int,
    t: VdevType,
)
    requires
        r1 == find_spec(target, disks, max_disks, ratio, t),
        r2 == find_spec(target, disks, max_disks, ratio, t),
    ensures
        r1 == r2,
{
}

} // verus!
