use vstd::prelude::*;
use vstd::string::StringExecFns;

verus! {

/// A live-match check for one fingerprint is allowed at most once per this many milliseconds.
pub const COOLDOWN_MS: u64 = 30_000;

/// The fingerprint of a live-match check: `"{name}#{region}"`.
pub open spec fn fingerprint_of(name: Seq<char>, region: Seq<char>) -> Seq<char> {
    name + seq!['#'] + region
}

/// Builds the fingerprint `"{name}#{region}"` of a live-match check.
pub fn fingerprint(name: &str, region: &str) -> (r: String)
    ensures
        r@ == fingerprint_of(name@, region@),
{
    let mut s = String::from_str(name);
    s.append("#");
    proof {
        reveal_strlit("#");
    }
    s.append(region);
    s
}

/// A check at `now_ms` is refused: the fingerprint was last let through less than
/// the cooldown before (an earlier clock reading counts as no time elapsed).
pub open spec fn is_limited(times: Map<Seq<char>, u64>, key: Seq<char>, now_ms: u64) -> bool {
    times.contains_key(key) && (now_ms as int) < times[key] + COOLDOWN_MS
}

/// The cache after a check at `now_ms`: a refused check changes nothing; an
/// allowed one records its time.
pub open spec fn after_check(times: Map<Seq<char>, u64>, key: Seq<char>, now_ms: u64) -> Map<
    Seq<char>,
    u64,
> {
    if is_limited(times, key, now_ms) {
        times
    } else {
        times.insert(key, now_ms)
    }
}

/// Remembers when each fingerprint was last let through. Entries are never evicted.
/// The entries are a vector holding each fingerprint once, not a `HashMap`: vstd
/// specifies `HashMap` only for keys that obey its key model (the primitive
/// types), and a `String` key could join it only by an unproved assumption.
pub struct RateLimitCache {
    entries: Vec<(String, u64)>,
    times: Ghost<Map<Seq<char>, u64>>,
}

impl View for RateLimitCache {
    type V = Map<Seq<char>, u64>;

    closed spec fn view(&self) -> Map<Seq<char>, u64> {
        self.times@
    }
}

impl RateLimitCache {
    /// The entries hold each fingerprint once, and the map records them.
    pub closed spec fn wf(&self) -> bool {
        &&& forall|i: int, j: int|
            0 <= i < j < self.entries.len() ==> #[trigger] self.entries@[i].0@
                != #[trigger] self.entries@[j].0@
        &&& forall|i: int|
            0 <= i < self.entries.len() ==> #[trigger] self.times@.contains_key(self.entries@[i].0@)
                && self.times@[self.entries@[i].0@] == self.entries@[i].1
        &&& forall|k: Seq<char>|
            #[trigger] self.times@.contains_key(k) ==> exists|i: int|
                0 <= i < self.entries.len() && self.entries@[i].0@ == k
    }

    /// An empty cache.
    pub fn new() -> (r: RateLimitCache)
        ensures
            r.wf(),
            r@ == Map::<Seq<char>, u64>::empty(),
    {
        RateLimitCache { entries: Vec::new(), times: Ghost(Map::empty()) }
    }

    /// Checks whether a live-match check for `fingerprint` at `now_ms` must wait,
    /// and records the time when it may go ahead. Returns `true` when it must wait.
    pub fn check_and_record(&mut self, fingerprint: &str, now_ms: u64) -> (r: bool)
        requires
            old(self).wf(),
        ensures
            final(self).wf(),
            r == is_limited(old(self)@, fingerprint@, now_ms),
            final(self)@ == after_check(old(self)@, fingerprint@, now_ms),
    {
        let key = String::from_str(fingerprint);
        let mut i: usize = 0;
        while i < self.entries.len()
            invariant
                self.wf(),
                self.entries@ == old(self).entries@,
                self.times@ == old(self).times@,
                key@ == fingerprint@,
                i <= self.entries.len(),
                forall|j: int| 0 <= j < i ==> #[trigger] self.entries@[j].0@ != key@,
            decreases self.entries.len() - i,
        {
            if self.entries[i].0 == key {
                let last = self.entries[i].1;
                assert(self.times@.contains_key(self.entries@[i as int].0@));
                assert(self.times@[fingerprint@] == last);
                if now_ms < last || now_ms - last < COOLDOWN_MS {
                    return true;
                }
                self.entries.set(i, (key, now_ms));
                self.times = Ghost(self.times@.insert(fingerprint@, now_ms));
                proof {
                    assert forall|k: Seq<char>| #[trigger] self.times@.contains_key(k) implies exists|
                        j: int,
                    |
                        0 <= j < self.entries.len() && self.entries@[j].0@ == k by {
                        if k != fingerprint@ {
                            let j = choose|j: int|
                                0 <= j < self.entries.len() && old(self).entries@[j].0@ == k;
                            assert(self.entries@[j].0@ == k);
                        } else {
                            assert(self.entries@[i as int].0@ == k);
                        }
                    }
                }
                return false;
            }
            i = i + 1;
        }
        assert(!self.times@.contains_key(fingerprint@));
        self.entries.push((key, now_ms));
        self.times = Ghost(self.times@.insert(fingerprint@, now_ms));
        proof {
            let n = self.entries.len() - 1;
            assert forall|k: Seq<char>| #[trigger] self.times@.contains_key(k) implies exists|j: int|
                0 <= j < self.entries.len() && self.entries@[j].0@ == k by {
                if k != fingerprint@ {
                    let j = choose|j: int|
                        0 <= j < old(self).entries.len() && old(self).entries@[j].0@ == k;
                    assert(self.entries@[j].0@ == k);
                } else {
                    assert(self.entries@[n].0@ == k);
                }
            }
        }
        false
    }
}

/// Two checks of one fingerprint less than the cooldown apart are never both let
/// through; and once a check is let through, the next one at least the cooldown
/// later is let through again, whatever was refused in between.
pub proof fn lemma_cooldown_window(
    times: Map<Seq<char>, u64>,
    key: Seq<char>,
    t1: u64,
    t2: u64,
    t3: u64,
)
    requires
        t2 < t1 + COOLDOWN_MS,
        t3 >= t1 + COOLDOWN_MS,
    ensures
        !is_limited(times, key, t1) ==> is_limited(after_check(times, key, t1), key, t2),
        !is_limited(times, key, t1) ==> !is_limited(
            after_check(after_check(times, key, t1), key, t2),
            key,
            t3,
        ),
{
}

} // verus!
