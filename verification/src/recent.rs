//! A record of when each of some texts was last seen, which can be swept of
//! what is too old to matter.

use vstd::hash_map::StringHashMap;
use vstd::prelude::*;

verus! {

/// The time from `since` to `now`; zero where `now` lies before `since`.
pub open spec fn elapsed(since: u128, now: u128) -> int {
    if now >= since {
        now - since
    } else {
        0
    }
}

/// The entries of `seen` that are less than `window` old at `now`.
pub open spec fn fresh(seen: Map<Seq<char>, u128>, now: u128, window: u128) -> Map<
    Seq<char>,
    u128,
> {
    Map::new(
        |key: Seq<char>| seen.contains_key(key) && elapsed(seen[key], now) < window,
        |key: Seq<char>| seen[key],
    )
}

/// The texts in `keys` are those on record in `moments`, each once.
pub open spec fn lists(keys: Seq<String>, moments: Map<Seq<char>, u128>) -> bool {
    &&& forall|key: Seq<char>|
        moments.contains_key(key) ==> exists|i: int|
            0 <= i < keys.len() && (#[trigger] keys[i])@ == key
    &&& forall|i: int| 0 <= i < keys.len() ==> moments.contains_key((#[trigger] keys[i])@)
    &&& forall|i: int, j: int|
        0 <= i < j < keys.len() ==> (#[trigger] keys[i])@ != (#[trigger] keys[j])@
}

/// For each text, the moment it was last recorded.
pub struct RecentMoments {
    moments: StringHashMap<u128>,
    /// The texts on record, each once.
    keys: Vec<String>,
}

impl View for RecentMoments {
    type V = Map<Seq<char>, u128>;

    closed spec fn view(&self) -> Map<Seq<char>, u128> {
        self.moments@
    }
}

impl RecentMoments {
    #[verifier::type_invariant]
    spec fn listed(self) -> bool {
        lists(self.keys@, self.moments@)
    }

    /// A record of nothing.
    pub fn new() -> (recent: Self)
        ensures
            recent@ == Map::<Seq<char>, u128>::empty(),
    {
        RecentMoments { moments: StringHashMap::new(), keys: Vec::new() }
    }

    /// How many texts are on record.
    pub fn len(&self) -> (count: usize)
        ensures
            count == self@.len(),
    {
        broadcast use vstd::hash_map::group_hash_map_axioms;

        self.moments.len()
    }

    /// The moment at which `key` was last recorded.
    pub fn get(&self, key: &str) -> (moment: Option<u128>)
        ensures
            moment == if self@.contains_key(key@) {
                Some(self@[key@])
            } else {
                None
            },
    {
        match self.moments.get(key) {
            Some(moment) => Some(*moment),
            None => None,
        }
    }

    /// Records `key` as seen at `now`.
    pub fn record(&mut self, key: &str, now: u128)
        ensures
            final(self)@ == old(self)@.insert(key@, now),
    {
        let mut taken = RecentMoments::new();
        std::mem::swap(self, &mut taken);
        proof {
            use_type_invariant(&taken);
        }
        let RecentMoments { mut moments, mut keys } = taken;
        let known = moments.contains_key(key);
        let ghost before = keys@;
        let ghost seen = moments@;
        if !known {
            keys.push(key.to_owned());
        }
        moments.insert(key.to_owned(), now);
        proof {
            let after = keys@;
            assert forall|k: Seq<char>| moments@.contains_key(k) implies exists|i: int|
                0 <= i < after.len() && (#[trigger] after[i])@ == k by {
                if k == key@ && !known {
                    assert(after[before.len() as int]@ == k);
                } else {
                    assert(seen.contains_key(k));
                    let i = choose|i: int| 0 <= i < before.len() && (#[trigger] before[i])@ == k;
                    assert(after[i]@ == k);
                }
            }
            assert forall|i: int| 0 <= i < after.len() implies moments@.contains_key(
                (#[trigger] after[i])@,
            ) by {
                if i < before.len() {
                    assert(after[i] == before[i]);
                    assert(seen.contains_key(before[i]@));
                }
            }
            assert forall|i: int, j: int| 0 <= i < j < after.len() implies (#[trigger] after[i])@
                != (#[trigger] after[j])@ by {
                if j < before.len() {
                    assert(after[i] == before[i] && after[j] == before[j]);
                } else {
                    assert(after[i] == before[i]);
                    assert(seen.contains_key(before[i]@));
                }
            }
            assert(lists(keys@, moments@));
        }
        *self = RecentMoments { moments, keys };
    }

    /// Drops every entry that is `window` or more old at `now`, and nothing
    /// else.
    pub fn sweep(&mut self, now: u128, window: u128)
        ensures
            final(self)@ == fresh(old(self)@, now, window),
    {
        let mut taken = RecentMoments::new();
        std::mem::swap(self, &mut taken);
        proof {
            use_type_invariant(&taken);
        }
        let RecentMoments { moments, keys } = taken;
        let ghost seen = moments@;
        let ghost all = keys@;
        let mut kept = StringHashMap::<u128>::new();
        let mut kept_keys: Vec<String> = Vec::new();
        let mut i: usize = 0;
        while i < keys.len()
            invariant
                i <= keys.len(),
                seen == moments@,
                all == keys@,
                lists(all, seen),
                lists(kept_keys@, kept@),
                forall|key: Seq<char>| #[trigger]
                    kept@.contains_key(key) ==> seen.contains_key(key) && elapsed(seen[key], now)
                        < window && kept@[key] == seen[key],
                forall|j: int|
                    0 <= j < i && elapsed(seen[(#[trigger] all[j])@], now) < window
                        ==> kept@.contains_key(all[j]@),
            decreases keys.len() - i,
        {
            let key = &keys[i];
            let ghost held = kept@;
            let ghost held_keys = kept_keys@;
            assert(seen.contains_key(all[i as int]@));
            let found: Option<u128> = match moments.get(key.as_str()) {
                Some(moment) => Some(*moment),
                None => None,
            };
            let at: u128 = match found {
                Some(moment) => moment,
                None => 0,
            };
            let age: u128 = if now >= at {
                now - at
            } else {
                0
            };
            if found.is_some() && age < window && !kept.contains_key(key.as_str()) {
                kept.insert(key.clone(), at);
                kept_keys.push(key.clone());
                proof {
                    let grown = kept_keys@;
                    assert forall|k: Seq<char>| kept@.contains_key(k) implies exists|j: int|
                        0 <= j < grown.len() && (#[trigger] grown[j])@ == k by {
                        if k == key@ {
                            assert(grown[held_keys.len() as int]@ == k);
                        } else {
                            assert(held.contains_key(k));
                            let j = choose|j: int|
                                0 <= j < held_keys.len() && (#[trigger] held_keys[j])@ == k;
                            assert(grown[j]@ == k);
                        }
                    }
                    assert forall|j: int| 0 <= j < grown.len() implies kept@.contains_key(
                        (#[trigger] grown[j])@,
                    ) by {
                        if j < held_keys.len() {
                            assert(grown[j] == held_keys[j]);
                            assert(held.contains_key(held_keys[j]@));
                        }
                    }
                    assert forall|a: int, b: int| 0 <= a < b < grown.len() implies (
                    #[trigger] grown[a])@ != (#[trigger] grown[b])@ by {
                        if b < held_keys.len() {
                            assert(grown[a] == held_keys[a] && grown[b] == held_keys[b]);
                        } else {
                            assert(grown[a] == held_keys[a]);
                            assert(held.contains_key(held_keys[a]@));
                        }
                    }
                }
            }
            i += 1;
        }
        proof {
            assert forall|k: Seq<char>| kept@.contains_key(k) <==> fresh(
                seen,
                now,
                window,
            ).contains_key(k) by {
                if seen.contains_key(k) && elapsed(seen[k], now) < window {
                    let j = choose|j: int| 0 <= j < all.len() && (#[trigger] all[j])@ == k;
                    assert(kept@.contains_key(all[j]@));
                }
            }
            assert(kept@ =~= fresh(seen, now, window));
        }
        *self = RecentMoments { moments: kept, keys: kept_keys };
    }
}

/// What a sweep leaves is younger than the window, and what it drops would
/// not count again: while the clock does not go back, an entry that is as old
/// as the window stays as old as the window.
pub proof fn law_sweep_drops_only_what_is_spent(
    seen: Map<Seq<char>, u128>,
    now: u128,
    window: u128,
    key: Seq<char>,
    later: u128,
)
    requires
        now <= later,
    ensures
        fresh(seen, now, window).contains_key(key) ==> elapsed(
            fresh(seen, now, window)[key],
            now,
        ) < window,
        (seen.contains_key(key) && !fresh(seen, now, window).contains_key(key)) ==> elapsed(
            seen[key],
            later,
        ) >= window,
{
}

} // verus!
