//! The rate-limit governor: fixed-window weight accounting per API, with
//! optional per-instrument, per-instrument-type and per-instrument-family
//! dimensions.
//!
//! Time enters as an explicit whole-second clock value, so every admission
//! decision is a function of the governor's state and its arguments.

use vstd::prelude::*;

use crate::kvtable::distinct_keys;
use crate::kvtable::entries_map;
use crate::kvtable::lemma_entries_map_contains;
use crate::kvtable::lemma_entries_map_index;
use crate::kvtable::lemma_entries_map_push;
use crate::kvtable::lemma_entries_map_update;
use crate::models::InstType;
use crate::strutil::str_eq;
use crate::OkxError;

verus! {

/// One weight limit: capacity, window length, and the current window's state.
#[derive(Clone, Copy, Debug)]
pub struct WeightLimit {
    pub total_weight: u32,
    pub refresh_seconds: u32,
    pub last_refresh_time: u32,
    pub used_weight: u32,
}

/// A record as it is first created: nothing used, window starting at zero.
pub open spec fn spec_fresh_limit(total_weight: u32, refresh_seconds: u32) -> WeightLimit {
    WeightLimit { total_weight, refresh_seconds, last_refresh_time: 0, used_weight: 0 }
}

/// Window roll: strictly past the window's end the usage resets and the
/// window restarts at `now`.  At the exact boundary the old window holds.
pub open spec fn spec_rolled(wl: WeightLimit, now: u32) -> WeightLimit {
    if now > wl.refresh_seconds + wl.last_refresh_time {
        WeightLimit {
            total_weight: wl.total_weight,
            refresh_seconds: wl.refresh_seconds,
            last_refresh_time: now,
            used_weight: 0,
        }
    } else {
        wl
    }
}

/// One admission attempt: roll the window, then deduct `weight` if it fits.
pub open spec fn spec_request_once(wl: WeightLimit, weight: u32, now: u32) -> (WeightLimit, bool) {
    let r = spec_rolled(wl, now);
    if r.used_weight + weight > r.total_weight {
        (r, false)
    } else {
        (
            WeightLimit {
                total_weight: r.total_weight,
                refresh_seconds: r.refresh_seconds,
                last_refresh_time: r.last_refresh_time,
                used_weight: (r.used_weight + weight) as u32,
            },
            true,
        )
    }
}

/// Like an admission attempt, but without the deduction.
pub open spec fn spec_check_valid(wl: WeightLimit, weight: u32, now: u32) -> (WeightLimit, bool) {
    let r = spec_rolled(wl, now);
    (r, r.used_weight + weight <= r.total_weight)
}

impl WeightLimit {
    pub fn new(total_weight: u32, refresh_seconds: u32) -> (r: Self)
        ensures
            r == spec_fresh_limit(total_weight, refresh_seconds),
    {
        Self { total_weight, refresh_seconds, last_refresh_time: 0, used_weight: 0 }
    }

    /// Admits and deducts `weight` at time `now_s`, or refuses.
    pub fn request_once(&mut self, weight: u32, now_s: u32) -> (ok: bool)
        ensures
            ({
                let s = spec_request_once(*old(self), weight, now_s);
                *final(self) == s.0 && ok == s.1
            }),
    {
        if (now_s as u64) > (self.refresh_seconds as u64) + (self.last_refresh_time as u64) {
            self.used_weight = 0;
            self.last_refresh_time = now_s;
        }
        if (self.used_weight as u64) + (weight as u64) > (self.total_weight as u64) {
            return false;
        }
        self.used_weight = self.used_weight + weight;
        true
    }

    /// Tells whether `weight` would be admitted at time `now_s`, rolling the
    /// window but deducting nothing.
    pub fn check_valid(&mut self, weight: u32, now_s: u32) -> (ok: bool)
        ensures
            ({
                let s = spec_check_valid(*old(self), weight, now_s);
                *final(self) == s.0 && ok == s.1
            }),
    {
        if (now_s as u64) > (self.refresh_seconds as u64) + (self.last_refresh_time as u64) {
            self.used_weight = 0;
            self.last_refresh_time = now_s;
        }
        if (self.used_weight as u64) + (weight as u64) > (self.total_weight as u64) {
            return false;
        }
        true
    }
}

/// `n` unit-weight admission attempts in a row at one instant, and how many
/// of them succeeded.
pub open spec fn spec_run_units(wl: WeightLimit, n: nat, now: u32) -> (WeightLimit, nat)
    decreases n,
{
    if n == 0 {
        (wl, 0)
    } else {
        let prev = spec_run_units(wl, (n - 1) as nat, now);
        let s = spec_request_once(prev.0, 1, now);
        (s.0, prev.1 + (if s.1 {
            1nat
        } else {
            0nat
        }))
    }
}

/// Of `n` unit-weight calls at one instant, exactly the remaining capacity
/// of the (rolled) window succeeds — no more, no fewer — and exactly that
/// much weight is deducted.
pub proof fn lemma_unit_calls_capacity(wl: WeightLimit, n: nat, now: u32)
    ensures
        ({
            let start = spec_rolled(wl, now);
            let free: int = if start.used_weight <= start.total_weight {
                start.total_weight - start.used_weight
            } else {
                0
            };
            let run = spec_run_units(wl, n, now);
            &&& run.1 == vstd::math::min(n as int, free)
            &&& n > 0 ==> {
                &&& run.0.used_weight == start.used_weight + run.1
                &&& run.0.total_weight == start.total_weight
                &&& run.0.refresh_seconds == start.refresh_seconds
                &&& run.0.last_refresh_time == start.last_refresh_time
            }
        }),
    decreases n,
{
    let start = spec_rolled(wl, now);
    if n > 0 {
        lemma_unit_calls_capacity(wl, (n - 1) as nat, now);
        let prev = spec_run_units(wl, (n - 1) as nat, now);
        if n == 1 {
            assert(prev.0 == wl);
        } else {
            // The window never rolls a second time at the same instant.
            assert(spec_rolled(prev.0, now) == prev.0);
        }
    }
}

/// Rate-limit capacity: from a fresh window, the first `C` unit calls all
/// succeed, and with the window full the next call fails.
pub proof fn lemma_rate_limit_capacity(total_weight: u32, refresh_seconds: u32, now: u32, k: nat)
    ensures
        ({
            let run = spec_run_units(spec_fresh_limit(total_weight, refresh_seconds), k, now);
            &&& (k <= total_weight ==> run.1 == k)
            &&& (k >= total_weight ==> !spec_request_once(run.0, 1, now).1)
        }),
{
    let wl = spec_fresh_limit(total_weight, refresh_seconds);
    lemma_unit_calls_capacity(wl, k, now);
}

/// Racing to exhaustion: any `n >= C` unit calls in one window see exactly
/// `C` successes; the remainder are refused.
pub proof fn lemma_rate_limit_exact_count(total_weight: u32, refresh_seconds: u32, now: u32, n: nat)
    requires
        n >= total_weight,
    ensures
        spec_run_units(spec_fresh_limit(total_weight, refresh_seconds), n, now).1 == total_weight,
{
    lemma_unit_calls_capacity(spec_fresh_limit(total_weight, refresh_seconds), n, now);
}

/// Waiting strictly past the window's end makes a unit call succeed again.
pub proof fn lemma_rate_limit_window_passes(wl: WeightLimit, later: u32)
    requires
        later > wl.last_refresh_time + wl.refresh_seconds,
        wl.total_weight >= 1,
    ensures
        spec_request_once(wl, 1, later).1,
{
}

/// A record lookup-or-create followed by one admission attempt, described on
/// the map of records.
pub open spec fn spec_checked_map<K>(
    m: Map<K, WeightLimit>,
    k: K,
    weight: u32,
    total_weight: u32,
    refresh_seconds: u32,
    now: u32,
) -> (Map<K, WeightLimit>, bool) {
    let prior = if m.contains_key(k) {
        m[k]
    } else {
        spec_fresh_limit(total_weight, refresh_seconds)
    };
    let s = spec_request_once(prior, weight, now);
    (m.insert(k, s.0), s.1)
}

/// The governor: four record tables, one per dimension kind.
#[derive(Debug)]
pub struct LimitMgr {
    plain_keys: Vec<u32>,
    plain_recs: Vec<WeightLimit>,
    id_keys: Vec<(u32, String)>,
    id_recs: Vec<WeightLimit>,
    type_keys: Vec<(u32, InstType)>,
    type_recs: Vec<WeightLimit>,
    family_keys: Vec<(u32, String)>,
    family_recs: Vec<WeightLimit>,
}

/// The spec shadow of a `(api_id, string key)` table key.
pub open spec fn id_key_views(keys: Seq<(u32, String)>) -> Seq<(u32, Seq<char>)> {
    keys.map_values(|p: (u32, String)| (p.0, p.1@))
}

impl LimitMgr {
    /// Records keyed by api id alone.
    pub closed spec fn plain_map(&self) -> Map<u32, WeightLimit> {
        entries_map(self.plain_keys@, self.plain_recs@)
    }

    /// Records keyed by api id and instrument id.
    pub closed spec fn inst_id_map(&self) -> Map<(u32, Seq<char>), WeightLimit> {
        entries_map(id_key_views(self.id_keys@), self.id_recs@)
    }

    /// Records keyed by api id and instrument type.
    pub closed spec fn inst_type_map(&self) -> Map<(u32, InstType), WeightLimit> {
        entries_map(self.type_keys@, self.type_recs@)
    }

    /// Records keyed by api id and instrument family.
    pub closed spec fn inst_family_map(&self) -> Map<(u32, Seq<char>), WeightLimit> {
        entries_map(id_key_views(self.family_keys@), self.family_recs@)
    }

    /// Table well-formedness: parallel lengths and pairwise-distinct keys.
    pub closed spec fn wf(&self) -> bool {
        &&& self.plain_keys@.len() == self.plain_recs@.len()
        &&& distinct_keys(self.plain_keys@)
        &&& self.id_keys@.len() == self.id_recs@.len()
        &&& distinct_keys(id_key_views(self.id_keys@))
        &&& self.type_keys@.len() == self.type_recs@.len()
        &&& distinct_keys(self.type_keys@)
        &&& self.family_keys@.len() == self.family_recs@.len()
        &&& distinct_keys(id_key_views(self.family_keys@))
    }

    pub fn new() -> (r: Self)
        ensures
            r.wf(),
            r.plain_map() == Map::<u32, WeightLimit>::empty(),
            r.inst_id_map() == Map::<(u32, Seq<char>), WeightLimit>::empty(),
            r.inst_type_map() == Map::<(u32, InstType), WeightLimit>::empty(),
            r.inst_family_map() == Map::<(u32, Seq<char>), WeightLimit>::empty(),
    {
        let r = Self {
            plain_keys: Vec::new(),
            plain_recs: Vec::new(),
            id_keys: Vec::new(),
            id_recs: Vec::new(),
            type_keys: Vec::new(),
            type_recs: Vec::new(),
            family_keys: Vec::new(),
            family_recs: Vec::new(),
        };
        proof {
            assert(id_key_views(r.id_keys@) =~= Seq::<(u32, Seq<char>)>::empty());
            assert(id_key_views(r.family_keys@) =~= Seq::<(u32, Seq<char>)>::empty());
        }
        r
    }

    fn find_plain(&self, api_id: u32) -> (r: Option<usize>)
        ensures
            match r {
                Some(i) => i < self.plain_keys@.len() && self.plain_keys@[i as int] == api_id,
                None => forall|j: int|
                    0 <= j < self.plain_keys@.len() ==> self.plain_keys@[j] != api_id,
            },
    {
        let n = self.plain_keys.len();
        let mut i: usize = 0;
        while i < n
            invariant
                0 <= i <= n,
                n == self.plain_keys@.len(),
                forall|j: int| 0 <= j < i ==> self.plain_keys@[j] != api_id,
            decreases n - i,
        {
            if self.plain_keys[i] == api_id {
                return Some(i);
            }
            i = i + 1;
        }
        None
    }

    /// Admits `weight` against the plain record of `api_id`, creating the
    /// record with the supplied capacity and window on first sight.
    pub fn check_limit(
        &mut self,
        api_id: u32,
        weight: u32,
        total_weight: u32,
        refresh_seconds: u32,
        now_s: u32,
    ) -> (r: Result<(), OkxError>)
        requires
            old(self).wf(),
        ensures
            final(self).wf(),
            ({
                let s = spec_checked_map(
                    old(self).plain_map(),
                    api_id,
                    weight,
                    total_weight,
                    refresh_seconds,
                    now_s,
                );
                &&& final(self).plain_map() == s.0
                &&& r is Ok <==> s.1
                &&& r is Err ==> r == Err::<(), OkxError>(OkxError::RateLimit)
            }),
            final(self).inst_id_map() == old(self).inst_id_map(),
            final(self).inst_type_map() == old(self).inst_type_map(),
            final(self).inst_family_map() == old(self).inst_family_map(),
    {
        let found = self.find_plain(api_id);
        let ok: bool;
        match found {
            Some(i) => {
                proof {
                    lemma_entries_map_index(self.plain_keys@, self.plain_recs@, i as int);
                }
                let mut wl = self.plain_recs[i];
                ok = wl.request_once(weight, now_s);
                proof {
                    lemma_entries_map_update(self.plain_keys@, self.plain_recs@, i as int, wl);
                }
                self.plain_recs[i] = wl;
            },
            None => {
                proof {
                    lemma_entries_map_contains(self.plain_keys@, self.plain_recs@, api_id);
                    lemma_entries_map_push(
                        self.plain_keys@,
                        self.plain_recs@,
                        api_id,
                        spec_request_once(
                            spec_fresh_limit(total_weight, refresh_seconds),
                            weight,
                            now_s,
                        ).0,
                    );
                }
                let mut wl = WeightLimit::new(total_weight, refresh_seconds);
                ok = wl.request_once(weight, now_s);
                self.plain_keys.push(api_id);
                self.plain_recs.push(wl);
            },
        }
        if ok {
            Ok(())
        } else {
            Err(OkxError::RateLimit)
        }
    }

    fn find_inst_id(&self, api_id: u32, inst_id: &str) -> (r: Option<usize>)
        ensures
            match r {
                Some(i) => i < self.id_keys@.len() && id_key_views(self.id_keys@)[i as int] == (
                    api_id,
                    inst_id@,
                ),
                None => forall|j: int|
                    0 <= j < self.id_keys@.len() ==> id_key_views(self.id_keys@)[j] != (
                        api_id,
                        inst_id@,
                    ),
            },
    {
        let n = self.id_keys.len();
        let mut i: usize = 0;
        while i < n
            invariant
                0 <= i <= n,
                n == self.id_keys@.len(),
                forall|j: int| 0 <= j < i ==> id_key_views(self.id_keys@)[j] != (api_id, inst_id@),
            decreases n - i,
        {
            let entry = &self.id_keys[i];
            if entry.0 == api_id && str_eq(entry.1.as_str(), inst_id) {
                return Some(i);
            }
            i = i + 1;
        }
        None
    }

    /// Admits `weight` against the record of `(api_id, inst_id)`.
    pub fn check_limit_with_inst_id(
        &mut self,
        api_id: u32,
        inst_id: &str,
        weight: u32,
        total_weight: u32,
        refresh_seconds: u32,
        now_s: u32,
    ) -> (r: Result<(), OkxError>)
        requires
            old(self).wf(),
        ensures
            final(self).wf(),
            ({
                let s = spec_checked_map(
                    old(self).inst_id_map(),
                    (api_id, inst_id@),
                    weight,
                    total_weight,
                    refresh_seconds,
                    now_s,
                );
                &&& final(self).inst_id_map() == s.0
                &&& r is Ok <==> s.1
                &&& r is Err ==> r == Err::<(), OkxError>(OkxError::RateLimit)
            }),
            final(self).plain_map() == old(self).plain_map(),
            final(self).inst_type_map() == old(self).inst_type_map(),
            final(self).inst_family_map() == old(self).inst_family_map(),
    {
        let found = self.find_inst_id(api_id, inst_id);
        let ok: bool;
        match found {
            Some(i) => {
                proof {
                    lemma_entries_map_index(id_key_views(self.id_keys@), self.id_recs@, i as int);
                }
                let mut wl = self.id_recs[i];
                ok = wl.request_once(weight, now_s);
                proof {
                    lemma_entries_map_update(
                        id_key_views(self.id_keys@),
                        self.id_recs@,
                        i as int,
                        wl,
                    );
                }
                self.id_recs[i] = wl;
            },
            None => {
                let ghost gk = id_key_views(self.id_keys@);
                let ghost gr = self.id_recs@;
                proof {
                    lemma_entries_map_contains(gk, gr, (api_id, inst_id@));
                }
                let mut wl = WeightLimit::new(total_weight, refresh_seconds);
                ok = wl.request_once(weight, now_s);
                self.id_keys.push((api_id, inst_id.to_owned()));
                self.id_recs.push(wl);
                proof {
                    assert(id_key_views(self.id_keys@) =~= gk.push((api_id, inst_id@)));
                    lemma_entries_map_push(gk, gr, (api_id, inst_id@), wl);
                }
            },
        }
        if ok {
            Ok(())
        } else {
            Err(OkxError::RateLimit)
        }
    }

    fn find_inst_type(&self, api_id: u32, inst_type: InstType) -> (r: Option<usize>)
        ensures
            match r {
                Some(i) => i < self.type_keys@.len() && self.type_keys@[i as int] == (
                    api_id,
                    inst_type,
                ),
                None => forall|j: int|
                    0 <= j < self.type_keys@.len() ==> self.type_keys@[j] != (api_id, inst_type),
            },
    {
        let n = self.type_keys.len();
        let mut i: usize = 0;
        while i < n
            invariant
                0 <= i <= n,
                n == self.type_keys@.len(),
                forall|j: int| 0 <= j < i ==> self.type_keys@[j] != (api_id, inst_type),
            decreases n - i,
        {
            let entry = &self.type_keys[i];
            if entry.0 == api_id && entry.1 == inst_type {
                return Some(i);
            }
            i = i + 1;
        }
        None
    }

    /// Admits `weight` against the record of `(api_id, inst_type)`.
    pub fn check_limit_with_inst_type(
        &mut self,
        api_id: u32,
        inst_type: InstType,
        weight: u32,
        total_weight: u32,
        refresh_seconds: u32,
        now_s: u32,
    ) -> (r: Result<(), OkxError>)
        requires
            old(self).wf(),
        ensures
            final(self).wf(),
            ({
                let s = spec_checked_map(
                    old(self).inst_type_map(),
                    (api_id, inst_type),
                    weight,
                    total_weight,
                    refresh_seconds,
                    now_s,
                );
                &&& final(self).inst_type_map() == s.0
                &&& r is Ok <==> s.1
                &&& r is Err ==> r == Err::<(), OkxError>(OkxError::RateLimit)
            }),
            final(self).plain_map() == old(self).plain_map(),
            final(self).inst_id_map() == old(self).inst_id_map(),
            final(self).inst_family_map() == old(self).inst_family_map(),
    {
        let found = self.find_inst_type(api_id, inst_type);
        let ok: bool;
        match found {
            Some(i) => {
                proof {
                    lemma_entries_map_index(self.type_keys@, self.type_recs@, i as int);
                }
                let mut wl = self.type_recs[i];
                ok = wl.request_once(weight, now_s);
                proof {
                    lemma_entries_map_update(self.type_keys@, self.type_recs@, i as int, wl);
                }
                self.type_recs[i] = wl;
            },
            None => {
                proof {
                    lemma_entries_map_contains(self.type_keys@, self.type_recs@, (api_id, inst_type));
                    lemma_entries_map_push(
                        self.type_keys@,
                        self.type_recs@,
                        (api_id, inst_type),
                        spec_request_once(
                            spec_fresh_limit(total_weight, refresh_seconds),
                            weight,
                            now_s,
                        ).0,
                    );
                }
                let mut wl = WeightLimit::new(total_weight, refresh_seconds);
                ok = wl.request_once(weight, now_s);
                self.type_keys.push((api_id, inst_type));
                self.type_recs.push(wl);
            },
        }
        if ok {
            Ok(())
        } else {
            Err(OkxError::RateLimit)
        }
    }

    fn find_inst_family(&self, api_id: u32, inst_family: &str) -> (r: Option<usize>)
        ensures
            match r {
                Some(i) => i < self.family_keys@.len() && id_key_views(self.family_keys@)[i as int]
                    == (api_id, inst_family@),
                None => forall|j: int|
                    0 <= j < self.family_keys@.len() ==> id_key_views(self.family_keys@)[j] != (
                        api_id,
                        inst_family@,
                    ),
            },
    {
        let n = self.family_keys.len();
        let mut i: usize = 0;
        while i < n
            invariant
                0 <= i <= n,
                n == self.family_keys@.len(),
                forall|j: int|
                    0 <= j < i ==> id_key_views(self.family_keys@)[j] != (api_id, inst_family@),
            decreases n - i,
        {
            let entry = &self.family_keys[i];
            if entry.0 == api_id && str_eq(entry.1.as_str(), inst_family) {
                return Some(i);
            }
            i = i + 1;
        }
        None
    }

    /// Admits `weight` against the record of `(api_id, inst_family)`.
    pub fn check_limit_with_inst_family(
        &mut self,
        api_id: u32,
        inst_family: &str,
        weight: u32,
        total_weight: u32,
        refresh_seconds: u32,
        now_s: u32,
    ) -> (r: Result<(), OkxError>)
        requires
            old(self).wf(),
        ensures
            final(self).wf(),
            ({
                let s = spec_checked_map(
                    old(self).inst_family_map(),
                    (api_id, inst_family@),
                    weight,
                    total_weight,
                    refresh_seconds,
                    now_s,
                );
                &&& final(self).inst_family_map() == s.0
                &&& r is Ok <==> s.1
                &&& r is Err ==> r == Err::<(), OkxError>(OkxError::RateLimit)
            }),
            final(self).plain_map() == old(self).plain_map(),
            final(self).inst_id_map() == old(self).inst_id_map(),
            final(self).inst_type_map() == old(self).inst_type_map(),
    {
        let found = self.find_inst_family(api_id, inst_family);
        let ok: bool;
        match found {
            Some(i) => {
                proof {
                    lemma_entries_map_index(
                        id_key_views(self.family_keys@),
                        self.family_recs@,
                        i as int,
                    );
                }
                let mut wl = self.family_recs[i];
                ok = wl.request_once(weight, now_s);
                proof {
                    lemma_entries_map_update(
                        id_key_views(self.family_keys@),
                        self.family_recs@,
                        i as int,
                        wl,
                    );
                }
                self.family_recs[i] = wl;
            },
            None => {
                let ghost gk = id_key_views(self.family_keys@);
                let ghost gr = self.family_recs@;
                proof {
                    lemma_entries_map_contains(gk, gr, (api_id, inst_family@));
                }
                let mut wl = WeightLimit::new(total_weight, refresh_seconds);
                ok = wl.request_once(weight, now_s);
                self.family_keys.push((api_id, inst_family.to_owned()));
                self.family_recs.push(wl);
                proof {
                    assert(id_key_views(self.family_keys@) =~= gk.push((api_id, inst_family@)));
                    lemma_entries_map_push(gk, gr, (api_id, inst_family@), wl);
                }
            },
        }
        if ok {
            Ok(())
        } else {
            Err(OkxError::RateLimit)
        }
    }
}

/// Dimension isolation: one admission touches one key's record; every other
/// key keeps its record, in the same table and in the other tables.
pub proof fn lemma_dimension_isolation<K>(
    m: Map<K, WeightLimit>,
    k: K,
    other: K,
    weight: u32,
    total_weight: u32,
    refresh_seconds: u32,
    now: u32,
)
    requires
        other != k,
    ensures
        ({
            let s = spec_checked_map(m, k, weight, total_weight, refresh_seconds, now);
            &&& s.0.contains_key(other) == m.contains_key(other)
            &&& m.contains_key(other) ==> s.0[other] == m[other]
        }),
{
}

} // verus!
