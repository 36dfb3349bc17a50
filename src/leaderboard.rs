use vstd::prelude::*;

verus! {

/// Entry `i` comes before entry `j` on the leaderboard: more points, or equal
/// points and earlier in the input.
pub open spec fn ranks_before(points: Seq<i64>, i: int, j: int) -> bool {
    points[i] > points[j] || (points[i] == points[j] && i < j)
}

/// `chosen[j]` is the first entry on the leaderboard among those not chosen
/// before position `j`.
pub open spec fn best_remaining(points: Seq<i64>, chosen: Seq<usize>, j: int) -> bool {
    forall|m: int|
        0 <= m < points.len() && !chosen.subrange(0, j).contains(m as usize) && m != chosen[j]
            ==> ranks_before(points, chosen[j] as int, m)
}

/// The indices of the `k` best entries by points, best first; equal points keep
/// their input order (the first `k` of a stable sort by points, descending).
pub fn top_indices(points: &Vec<i64>, k: usize) -> (r: Vec<usize>)
    ensures
        r.len() == vstd::math::min(k as int, points.len() as int),
        forall|j: int| 0 <= j < r.len() ==> #[trigger] r@[j] < points.len(),
        forall|a: int, b: int| 0 <= a < b < r.len() ==> r@[a] != r@[b],
        forall|j: int| 0 <= j < r.len() ==> best_remaining(points@, r@, j),
{
    let n = points.len();
    let mut taken: Vec<bool> = Vec::new();
    let mut t: usize = 0;
    while t < n
        invariant
            t <= n,
            taken.len() == t,
            forall|m: int| 0 <= m < t ==> !taken@[m],
            count_true(taken@) == 0,
        decreases n - t,
    {
        let ghost old_taken = taken@;
        taken.push(false);
        assert(taken@.drop_last() =~= old_taken);
        t = t + 1;
    }
    let mut r: Vec<usize> = Vec::new();
    while r.len() < k && r.len() < n
        invariant
            n == points.len(),
            taken.len() == n,
            r.len() <= k,
            r.len() <= n,
            forall|j: int| 0 <= j < r.len() ==> #[trigger] r@[j] < n,
            forall|a: int, b: int| 0 <= a < b < r.len() ==> r@[a] != r@[b],
            forall|m: int| 0 <= m < n ==> (taken@[m] <==> r@.contains(m as usize)),
            forall|j: int| 0 <= j < r.len() ==> best_remaining(points@, r@, j),
            count_true(taken@) == r.len(),
        decreases n - r.len(),
    {
        let ghost before = r@;
        proof {
            if forall|m: int| 0 <= m < n ==> taken@[m] {
                lemma_count_all(taken@);
            }
        }
        let mut best: usize = n;
        let mut i: usize = 0;
        while i < n
            invariant
                n == points.len(),
                taken.len() == n,
                i <= n,
                best == n || (best < i && !taken@[best as int]),
                best == n ==> forall|m: int| 0 <= m < i ==> taken@[m],
                best < n ==> forall|m: int|
                    0 <= m < i && !taken@[m] && m != best ==> ranks_before(points@, best as int, m),
            decreases n - i,
        {
            if !taken[i] {
                if best == n || points[i] > points[best] {
                    best = i;
                }
            }
            i = i + 1;
        }
        assert(best < n) by {
            if best == n {
                let m = choose|m: int| 0 <= m < n && !taken@[m];
            }
        }
        proof {
            lemma_count_set(taken@, best as int);
        }
        taken.set(best, true);
        r.push(best);
        proof {
            assert(r@.subrange(0, before.len() as int) =~= before);
            assert forall|m: int| 0 <= m < n implies (taken@[m] <==> r@.contains(m as usize)) by {
                if m == best as int {
                    assert(r@[before.len() as int] == best);
                } else {
                    if before.contains(m as usize) {
                        let q = choose|q: int| 0 <= q < before.len() && before[q] == m as usize;
                        assert(r@[q] == m as usize);
                    }
                    if r@.contains(m as usize) {
                        let q = choose|q: int| 0 <= q < r.len() && r@[q] == m as usize;
                        assert(q < before.len());
                        assert(before[q] == m as usize);
                    }
                }
            }
            assert forall|j: int| 0 <= j < r.len() implies best_remaining(points@, r@, j) by {
                if j < before.len() {
                    assert(best_remaining(points@, before, j));
                    assert(r@.subrange(0, j) =~= before.subrange(0, j));
                    assert(r@[j] == before[j]);
                    assert forall|m: int|
                        0 <= m < points.len() && !r@.subrange(0, j).contains(m as usize) && m
                            != r@[j] implies ranks_before(points@, r@[j] as int, m) by {
                        assert(!before.subrange(0, j).contains(m as usize));
                    }
                } else {
                    assert(r@.subrange(0, j) =~= before);
                    assert forall|m: int|
                        0 <= m < points.len() && !r@.subrange(0, j).contains(m as usize) && m
                            != r@[j] implies ranks_before(points@, r@[j] as int, m) by {
                        assert(!taken@[m]);
                    }
                }
            }
            assert forall|a: int, b: int| 0 <= a < b < r.len() implies r@[a] != r@[b] by {
                if b == before.len() {
                    assert(before.contains(r@[a]));
                }
            }
        }
    }
    r
}

/// How many entries are `true`.
pub open spec fn count_true(s: Seq<bool>) -> nat
    decreases s.len(),
{
    if s.len() == 0 {
        0
    } else {
        count_true(s.drop_last()) + if s.last() {
            1nat
        } else {
            0nat
        }
    }
}

proof fn lemma_count_all(s: Seq<bool>)
    requires
        forall|m: int| 0 <= m < s.len() ==> s[m],
    ensures
        count_true(s) == s.len(),
    decreases s.len(),
{
    if s.len() > 0 {
        lemma_count_all(s.drop_last());
    }
}

proof fn lemma_count_set(s: Seq<bool>, i: int)
    requires
        0 <= i < s.len(),
        !s[i],
    ensures
        count_true(s.update(i, true)) == count_true(s) + 1,
    decreases s.len(),
{
    let u = s.update(i, true);
    if i < s.len() - 1 {
        assert(u.drop_last() =~= s.drop_last().update(i, true));
        lemma_count_set(s.drop_last(), i);
    } else {
        assert(u.drop_last() =~= s.drop_last());
    }
}

/// The position of the first ranked entry of the solo queue, given for each entry
/// whether it belongs to that queue.
pub fn first_solo_queue(is_solo: &Vec<bool>) -> (r: Option<usize>)
    ensures
        r is None <==> forall|j: int| 0 <= j < is_solo.len() ==> !#[trigger] is_solo@[j],
        r matches Some(i) ==> i < is_solo.len() && is_solo@[i as int] && forall|j: int|
            0 <= j < i ==> !#[trigger] is_solo@[j],
{
    let mut i: usize = 0;
    while i < is_solo.len()
        invariant
            i <= is_solo.len(),
            forall|j: int| 0 <= j < i ==> !#[trigger] is_solo@[j],
        decreases is_solo.len() - i,
    {
        if is_solo[i] {
            return Some(i);
        }
        i = i + 1;
    }
    None
}

} // verus!
