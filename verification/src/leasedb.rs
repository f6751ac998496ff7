//! The lease cache: active v4/v6 leases keyed by reservation, and the
//! time-expiring MAC to Option 82 binding table used as a DHCPv6 fallback.
//!
//! Each table is an association list with pairwise-distinct keys, abstracted
//! as a map.  Times are milliseconds; eviction drops entries by age and
//! drops bindings whose Option 82 value no longer has a reservation.

use vstd::prelude::*;

use crate::index::{lemma_map_of_absent, lemma_map_of_found, map_of, ReservationDb,
    ReservationKeyV};
use crate::mac::{mac_eq, Mac};
use crate::types::{opt_str_clone, LeaseV4, LeaseV4V, LeaseV6, LeaseV6V, Option82, Option82V,
    Reservation, ReservationV};

verus! {

/// One MAC to Option 82 binding, with the time it was last confirmed.
#[derive(Debug)]
pub struct Opt82Binding {
    pub opt82: Option82,
    pub last_seen: u64,
}

/// The abstract value of an [`Opt82Binding`].
pub struct Opt82BindingV {
    pub opt82: Option82V,
    pub last_seen: u64,
}

impl View for Opt82Binding {
    type V = Opt82BindingV;

    open spec fn view(&self) -> Opt82BindingV {
        Opt82BindingV { opt82: self.opt82@, last_seen: self.last_seen }
    }
}

/// Pairwise-distinct key views in an association list.
pub open spec fn unique_keys<K: View, U: View>(s: Seq<(K, U)>) -> bool {
    forall|i: int, j: int|
        0 <= i < j < s.len() ==> (#[trigger] s[i]).0@ != (#[trigger] s[j]).0@
}

/// The entries whose values satisfy `pv`, in order.
pub open spec fn filter_entries<K: View, U: View>(
    s: Seq<(K, U)>,
    pv: spec_fn(U::V) -> bool,
) -> Seq<(K, U)>
    decreases s.len(),
{
    if s.len() == 0 {
        Seq::empty()
    } else if pv(s.last().1@) {
        filter_entries(s.drop_last(), pv).push(s.last())
    } else {
        filter_entries(s.drop_last(), pv)
    }
}

/// Every key of a filtered list occurs in the original.
pub proof fn lemma_filter_entries_keys<K: View, U: View>(
    s: Seq<(K, U)>,
    pv: spec_fn(U::V) -> bool,
    k: K::V,
)
    requires
        exists|j: int|
            0 <= j < filter_entries(s, pv).len() && (#[trigger] filter_entries(s, pv)[j]).0@ == k,
    ensures
        exists|i: int| 0 <= i < s.len() && (#[trigger] s[i]).0@ == k,
    decreases s.len(),
{
    let f = filter_entries(s, pv);
    if s.len() > 0 {
        let fp = filter_entries(s.drop_last(), pv);
        let j = choose|j: int| 0 <= j < f.len() && (#[trigger] f[j]).0@ == k;
        if pv(s.last().1@) && j == f.len() - 1 {
            assert(s[s.len() - 1].0@ == k);
        } else {
            assert(fp[j].0@ == k);
            lemma_filter_entries_keys(s.drop_last(), pv, k);
            let i = choose|i: int|
                0 <= i < s.drop_last().len() && (#[trigger] s.drop_last()[i]).0@ == k;
            assert(s[i].0@ == k);
        }
    }
}

/// Filtering keeps keys pairwise distinct.
pub proof fn lemma_filter_entries_unique<K: View, U: View>(
    s: Seq<(K, U)>,
    pv: spec_fn(U::V) -> bool,
)
    requires
        unique_keys(s),
    ensures
        unique_keys(filter_entries(s, pv)),
    decreases s.len(),
{
    if s.len() > 0 {
        let sp = s.drop_last();
        assert(forall|i: int, j: int|
            0 <= i < j < sp.len() ==> (#[trigger] sp[i]).0@ != (#[trigger] sp[j]).0@);
        lemma_filter_entries_unique(sp, pv);
        if pv(s.last().1@) {
            let f = filter_entries(s, pv);
            let fp = filter_entries(sp, pv);
            assert forall|i: int, j: int| 0 <= i < j < f.len() implies (#[trigger] f[i]).0@ != (
            #[trigger] f[j]).0@ by {
                if j == f.len() - 1 {
                    if f[i].0@ == s.last().0@ {
                        lemma_filter_entries_keys(sp, pv, f[i].0@);
                        let x = choose|x: int| 0 <= x < sp.len() && (#[trigger] sp[x]).0@ == f[i].0@;
                        assert(s[x].0@ == s[s.len() - 1].0@);
                    }
                } else {
                    assert(f[i] == fp[i] && f[j] == fp[j]);
                }
            }
        }
    }
}

/// Updating an entry in place rewrites that key's binding in the map.
pub proof fn lemma_map_of_update<K: View, U: View>(s: Seq<(K, U)>, i: int, e: (K, U))
    requires
        0 <= i < s.len(),
        e.0@ == s[i].0@,
        forall|j: int| i < j < s.len() ==> (#[trigger] s[j]).0@ != s[i].0@,
    ensures
        map_of(s.update(i, e)) == map_of(s).insert(e.0@, e.1@),
    decreases s.len(),
{
    let su = s.update(i, e);
    if i == s.len() - 1 {
        assert(su.drop_last() =~= s.drop_last());
        assert(su.last() == e);
        assert(map_of(s.drop_last()).insert(e.0@, e.1@) =~= map_of(s.drop_last()).insert(
            s.last().0@,
            s.last().1@,
        ).insert(e.0@, e.1@));
    } else {
        assert(su.drop_last() =~= s.drop_last().update(i, e));
        assert(su.last() == s.last());
        assert(s.drop_last()[i] == s[i]);
        lemma_map_of_update(s.drop_last(), i, e);
        assert(s.last().0@ != e.0@);
        assert(map_of(s.drop_last()).insert(e.0@, e.1@).insert(s.last().0@, s.last().1@)
            =~= map_of(s.drop_last()).insert(s.last().0@, s.last().1@).insert(e.0@, e.1@));
    }
}

/// A filtered list is never longer than the original.
pub proof fn lemma_filter_entries_len<K: View, U: View>(s: Seq<(K, U)>, pv: spec_fn(U::V) -> bool)
    ensures
        filter_entries(s, pv).len() <= s.len(),
    decreases s.len(),
{
    if s.len() > 0 {
        lemma_filter_entries_len(s.drop_last(), pv);
    }
}

/// How old a timestamp is, saturating at zero for future stamps.
pub open spec fn age_of(now: u64, then: u64) -> u64 {
    if now >= then {
        (now - then) as u64
    } else {
        0u64
    }
}

/// Bindings confirmed within the age bound.
pub open spec fn binding_fresh(now: u64, max_age_ms: u64) -> spec_fn(Opt82BindingV) -> bool {
    |b: Opt82BindingV| age_of(now, b.last_seen) < max_age_ms
}

/// Bindings whose Option 82 value still has a reservation.
pub open spec fn binding_reserved(resmap: Map<ReservationKeyV, ReservationV>) -> spec_fn(
    Opt82BindingV,
) -> bool {
    |b: Opt82BindingV| resmap.contains_key(ReservationKeyV::Opt82(b.opt82))
}

/// Leases touched within their validity.
pub open spec fn lease_v4_live(now: u64) -> spec_fn(LeaseV4V) -> bool {
    |l: LeaseV4V| age_of(now, l.last_leased) < l.valid_ms
}

/// Leases touched within their validity.
pub open spec fn lease_v6_live(now: u64) -> spec_fn(LeaseV6V) -> bool {
    |l: LeaseV6V| age_of(now, l.last_leased) < l.valid_ms
}

/// The lease cache.  The entry lists are public so that specifications can
/// speak about them; callers go through the methods.
pub struct LeaseDb {
    pub v4: Vec<(Reservation, LeaseV4)>,
    pub v6: Vec<(Reservation, LeaseV6)>,
    pub mac_to_opt82: Vec<(Mac, Opt82Binding)>,
}

impl LeaseDb {
    /// All three tables have pairwise-distinct keys.
    pub open spec fn wf(self) -> bool {
        &&& unique_keys(self.v4@)
        &&& unique_keys(self.v6@)
        &&& unique_keys(self.mac_to_opt82@)
    }

    /// The active v4 leases, by reservation.
    pub open spec fn v4_map(self) -> Map<ReservationV, LeaseV4V> {
        map_of(self.v4@)
    }

    /// The active v6 leases, by reservation.
    pub open spec fn v6_map(self) -> Map<ReservationV, LeaseV6V> {
        map_of(self.v6@)
    }

    /// The MAC to Option 82 bindings, by MAC.
    pub open spec fn binding_map(self) -> Map<Seq<u8>, Opt82BindingV> {
        map_of(self.mac_to_opt82@)
    }

    /// An empty cache.
    pub fn new() -> (r: LeaseDb)
        ensures
            r.wf(),
            r.v4_map() == Map::<ReservationV, LeaseV4V>::empty(),
            r.v6_map() == Map::<ReservationV, LeaseV6V>::empty(),
            r.binding_map() == Map::<Seq<u8>, Opt82BindingV>::empty(),
    {
        LeaseDb { v4: Vec::new(), v6: Vec::new(), mac_to_opt82: Vec::new() }
    }

    /// What refreshing a binding leaves under the MAC: a fresh `last_seen`,
    /// and the already-bound Option 82 value if one is present.
    pub open spec fn spec_insert_binding(self, mac: Seq<u8>, opt: Option82V, now: u64) -> Map<
        Seq<u8>,
        Opt82BindingV,
    > {
        if self.binding_map().contains_key(mac) {
            self.binding_map().insert(
                mac,
                Opt82BindingV { opt82: self.binding_map()[mac].opt82, last_seen: now },
            )
        } else {
            self.binding_map().insert(mac, Opt82BindingV { opt82: opt, last_seen: now })
        }
    }

    /// Inserts or refreshes the MAC to Option 82 binding: a new binding
    /// carries `opt`; an existing one keeps its value and is re-stamped.
    pub fn insert_mac_option82_binding(&mut self, mac: &Mac, opt: &Option82, now: u64)
        requires
            old(self).wf(),
        ensures
            final(self).wf(),
            final(self).binding_map() == old(self).spec_insert_binding(mac@, opt@, now),
            final(self).v4@ == old(self).v4@,
            final(self).v6@ == old(self).v6@,
    {
        let n = self.mac_to_opt82.len();
        let mut i = n;
        while i > 0
            invariant
                0 <= i <= n,
                *self == *old(self),
                n == self.mac_to_opt82@.len(),
                forall|j: int| i <= j < n ==> (#[trigger] self.mac_to_opt82@[j]).0@ != mac@,
            decreases i,
        {
            i = i - 1;
            if mac_eq(&self.mac_to_opt82[i].0, mac) {
                let key = self.mac_to_opt82[i].0;
                let kept = Option82 {
                    circuit: opt_str_clone(&self.mac_to_opt82[i].1.opt82.circuit),
                    remote: opt_str_clone(&self.mac_to_opt82[i].1.opt82.remote),
                    subscriber: opt_str_clone(&self.mac_to_opt82[i].1.opt82.subscriber),
                };
                proof {
                    lemma_map_of_found(self.mac_to_opt82@, i as int);
                }
                let ghost prev = self.mac_to_opt82@;
                let entry = (key, Opt82Binding { opt82: kept, last_seen: now });
                proof {
                    assert(entry.1@.opt82 == map_of(prev)[mac@].opt82);
                }
                self.mac_to_opt82[i] = entry;
                proof {
                    lemma_map_of_update(prev, i as int, entry);
                    assert forall|a: int, b: int|
                        0 <= a < b < self.mac_to_opt82@.len() implies (
                    #[trigger] self.mac_to_opt82@[a]).0@ != (#[trigger] self.mac_to_opt82@[b]).0@ by {
                        assert(prev[a].0@ == self.mac_to_opt82@[a].0@);
                        assert(prev[b].0@ == self.mac_to_opt82@[b].0@);
                    }
                }
                return ;
            }
        }
        proof {
            lemma_map_of_absent(self.mac_to_opt82@, mac@);
        }
        let ghost prev = self.mac_to_opt82@;
        self.mac_to_opt82.push((*mac, Opt82Binding { opt82: opt.clone(), last_seen: now }));
        proof {
            assert(self.mac_to_opt82@.drop_last() =~= prev);
            assert forall|a: int, b: int| 0 <= a < b < self.mac_to_opt82@.len() implies (
            #[trigger] self.mac_to_opt82@[a]).0@ != (#[trigger] self.mac_to_opt82@[b]).0@ by {
                if b == self.mac_to_opt82@.len() - 1 {
                    assert(prev[a].0@ != mac@);
                }
            }
        }
    }

    /// The Option 82 value bound to a MAC, if any.
    pub fn get_opt82_by_mac(&self, mac: &Mac) -> (r: Option<Option82>)
        ensures
            match r {
                Some(o) => self.binding_map().contains_key(mac@) && o@
                    == self.binding_map()[mac@].opt82,
                None => !self.binding_map().contains_key(mac@),
            },
    {
        let n = self.mac_to_opt82.len();
        let mut i = n;
        while i > 0
            invariant
                0 <= i <= n,
                n == self.mac_to_opt82@.len(),
                forall|j: int| i <= j < n ==> (#[trigger] self.mac_to_opt82@[j]).0@ != mac@,
            decreases i,
        {
            i = i - 1;
            if mac_eq(&self.mac_to_opt82[i].0, mac) {
                proof {
                    lemma_map_of_found(self.mac_to_opt82@, i as int);
                }
                return Some(self.mac_to_opt82[i].1.opt82.clone());
            }
        }
        proof {
            lemma_map_of_absent(self.mac_to_opt82@, mac@);
        }
        None
    }

    /// What recording a v4 lease leaves under the reservation: an existing
    /// lease is re-stamped, a new one starts now.
    pub open spec fn spec_lease_v4(
        self,
        r: ReservationV,
        mac: Seq<u8>,
        option82: Option<Option82V>,
        valid_ms: u64,
        now: u64,
    ) -> Map<ReservationV, LeaseV4V> {
        if self.v4_map().contains_key(r) {
            self.v4_map().insert(r, LeaseV4V { last_leased: now, ..self.v4_map()[r] })
        } else {
            self.v4_map().insert(
                r,
                LeaseV4V {
                    first_leased: now,
                    last_leased: now,
                    valid_ms: valid_ms,
                    mac: mac,
                    option82: option82,
                },
            )
        }
    }

    /// Records a v4 lease for the reservation, and inserts or refreshes the
    /// MAC to Option 82 binding when an Option 82 value is given.
    pub fn lease_v4(
        &mut self,
        reservation: &Reservation,
        mac: Mac,
        option82: Option<Option82>,
        valid_ms: u64,
        now: u64,
    )
        requires
            old(self).wf(),
        ensures
            final(self).wf(),
            final(self).v4_map() == old(self).spec_lease_v4(
                reservation@,
                mac@,
                crate::types::opt82_view(option82),
                valid_ms,
                now,
            ),
            final(self).v6@ == old(self).v6@,
            final(self).binding_map() == match option82 {
                Some(ref o) => old(self).spec_insert_binding(mac@, o@, now),
                None => old(self).binding_map(),
            },
    {
        if let Some(o) = &option82 {
            self.insert_mac_option82_binding(&mac, o, now);
        }
        let ghost mid = *self;
        let n = self.v4.len();
        let mut i = n;
        while i > 0
            invariant
                0 <= i <= n,
                *self == mid,
                n == self.v4@.len(),
                forall|j: int| i <= j < n ==> (#[trigger] self.v4@[j]).0@ != reservation@,
            decreases i,
        {
            i = i - 1;
            if crate::types::res_eq(&self.v4[i].0, reservation) {
                proof {
                    lemma_map_of_found(self.v4@, i as int);
                }
                let key = self.v4[i].0.clone();
                let lease = LeaseV4 {
                    first_leased: self.v4[i].1.first_leased,
                    last_leased: now,
                    valid_ms: self.v4[i].1.valid_ms,
                    mac: self.v4[i].1.mac,
                    option82: match &self.v4[i].1.option82 {
                        Some(o) => Some(o.clone()),
                        None => None,
                    },
                };
                let ghost prev = self.v4@;
                let entry = (key, lease);
                proof {
                    assert(entry.0@ == prev[i as int].0@);
                    assert(entry.1@ == LeaseV4V { last_leased: now, ..map_of(prev)[reservation@] });
                }
                self.v4[i] = entry;
                proof {
                    lemma_map_of_update(prev, i as int, entry);
                    assert forall|a: int, b: int| 0 <= a < b < self.v4@.len() implies (
                    #[trigger] self.v4@[a]).0@ != (#[trigger] self.v4@[b]).0@ by {
                        assert(prev[a].0@ == self.v4@[a].0@);
                        assert(prev[b].0@ == self.v4@[b].0@);
                    }
                }
                return ;
            }
        }
        proof {
            lemma_map_of_absent(self.v4@, reservation@);
        }
        let ghost prev = self.v4@;
        let lease = LeaseV4 {
            first_leased: now,
            last_leased: now,
            valid_ms: valid_ms,
            mac: mac,
            option82: option82,
        };
        self.v4.push((reservation.clone(), lease));
        proof {
            assert(self.v4@.drop_last() =~= prev);
            assert forall|a: int, b: int| 0 <= a < b < self.v4@.len() implies (
            #[trigger] self.v4@[a]).0@ != (#[trigger] self.v4@[b]).0@ by {
                if b == self.v4@.len() - 1 {
                    assert(prev[a].0@ != reservation@);
                }
            }
        }
    }

    /// Evicts in three passes: MAC bindings older than `opt82_max_age_ms`,
    /// then MAC bindings whose Option 82 value has no reservation in the
    /// current snapshot, then v4 and v6 leases idle past their validity.
    /// Returns how many entries each pass dropped: aged-out bindings,
    /// orphaned bindings, v4 leases, v6 leases.
    pub fn evict_expired(
        &mut self,
        now: u64,
        opt82_max_age_ms: u64,
        reservations: &ReservationDb,
    ) -> (counts: (usize, usize, usize, usize))
        requires
            old(self).wf(),
        ensures
            final(self).wf(),
            final(self).mac_to_opt82@ == filter_entries(
                filter_entries(old(self).mac_to_opt82@, binding_fresh(now, opt82_max_age_ms)),
                binding_reserved(reservations@),
            ),
            final(self).v4@ == filter_entries(old(self).v4@, lease_v4_live(now)),
            final(self).v6@ == filter_entries(old(self).v6@, lease_v6_live(now)),
            counts.0 == old(self).mac_to_opt82@.len() - filter_entries(
                old(self).mac_to_opt82@,
                binding_fresh(now, opt82_max_age_ms),
            ).len(),
            counts.1 == filter_entries(
                old(self).mac_to_opt82@,
                binding_fresh(now, opt82_max_age_ms),
            ).len() - final(self).mac_to_opt82@.len(),
            counts.2 == old(self).v4@.len() - final(self).v4@.len(),
            counts.3 == old(self).v6@.len() - final(self).v6@.len(),
    {
        // Pass one: drop bindings not confirmed within the age bound.
        let mut src_b: Vec<(Mac, Opt82Binding)> = Vec::new();
        core::mem::swap(&mut self.mac_to_opt82, &mut src_b);
        let ghost orig_b = src_b@;
        let before_bindings = src_b.len();
        let mut kept_b: Vec<(Mac, Opt82Binding)> = Vec::new();
        let mut i: usize = 0;
        let n = src_b.len();
        while i < n
            invariant
                0 <= i <= n,
                n == orig_b.len(),
                src_b@ == orig_b.skip(i as int),
                kept_b@ == filter_entries(orig_b.take(i as int), binding_fresh(
                    now,
                    opt82_max_age_ms,
                )),
            decreases n - i,
        {
            let e = src_b.remove(0);
            proof {
                assert(orig_b.skip(i as int)[0] == orig_b[i as int]);
                assert(orig_b.skip(i as int).remove(0) =~= orig_b.skip(i as int + 1));
                assert(orig_b.take(i + 1).drop_last() =~= orig_b.take(i as int));
                assert(orig_b.take(i + 1).last() == orig_b[i as int]);
            }
            let age = if now >= e.1.last_seen {
                now - e.1.last_seen
            } else {
                0
            };
            if age < opt82_max_age_ms {
                kept_b.push(e);
            }
            i = i + 1;
        }
        proof {
            assert(orig_b.take(n as int) =~= orig_b);
            lemma_filter_entries_len(orig_b, binding_fresh(now, opt82_max_age_ms));
            lemma_filter_entries_unique(orig_b, binding_fresh(now, opt82_max_age_ms));
        }
        let after_fresh = kept_b.len();
        let expired = before_bindings - after_fresh;

        // Pass two: drop bindings whose Option 82 value has no reservation.
        let ghost fresh_b = kept_b@;
        let mut kept_b2: Vec<(Mac, Opt82Binding)> = Vec::new();
        let mut i2: usize = 0;
        let n2 = kept_b.len();
        while i2 < n2
            invariant
                0 <= i2 <= n2,
                n2 == fresh_b.len(),
                kept_b@ == fresh_b.skip(i2 as int),
                kept_b2@ == filter_entries(fresh_b.take(i2 as int), binding_reserved(
                    reservations@,
                )),
            decreases n2 - i2,
        {
            let e = kept_b.remove(0);
            proof {
                assert(fresh_b.skip(i2 as int)[0] == fresh_b[i2 as int]);
                assert(fresh_b.skip(i2 as int).remove(0) =~= fresh_b.skip(i2 as int + 1));
                assert(fresh_b.take(i2 + 1).drop_last() =~= fresh_b.take(i2 as int));
                assert(fresh_b.take(i2 + 1).last() == fresh_b[i2 as int]);
            }
            if reservations.has_opt82(&e.1.opt82) {
                kept_b2.push(e);
            }
            i2 = i2 + 1;
        }
        proof {
            assert(fresh_b.take(n2 as int) =~= fresh_b);
            lemma_filter_entries_len(fresh_b, binding_reserved(reservations@));
            lemma_filter_entries_unique(fresh_b, binding_reserved(reservations@));
        }
        let orphaned = after_fresh - kept_b2.len();
        self.mac_to_opt82 = kept_b2;

        // Pass three: drop idle v4 and v6 leases.
        let mut src4: Vec<(Reservation, LeaseV4)> = Vec::new();
        core::mem::swap(&mut self.v4, &mut src4);
        let ghost orig4 = src4@;
        let before_v4 = src4.len();
        let mut kept4: Vec<(Reservation, LeaseV4)> = Vec::new();
        let mut i4: usize = 0;
        let n4 = src4.len();
        while i4 < n4
            invariant
                0 <= i4 <= n4,
                n4 == orig4.len(),
                src4@ == orig4.skip(i4 as int),
                kept4@ == filter_entries(orig4.take(i4 as int), lease_v4_live(now)),
            decreases n4 - i4,
        {
            let e = src4.remove(0);
            proof {
                assert(orig4.skip(i4 as int)[0] == orig4[i4 as int]);
                assert(orig4.skip(i4 as int).remove(0) =~= orig4.skip(i4 as int + 1));
                assert(orig4.take(i4 + 1).drop_last() =~= orig4.take(i4 as int));
                assert(orig4.take(i4 + 1).last() == orig4[i4 as int]);
            }
            let age = if now >= e.1.last_leased {
                now - e.1.last_leased
            } else {
                0
            };
            if age < e.1.valid_ms {
                kept4.push(e);
            }
            i4 = i4 + 1;
        }
        proof {
            assert(orig4.take(n4 as int) =~= orig4);
            lemma_filter_entries_len(orig4, lease_v4_live(now));
            lemma_filter_entries_unique(orig4, lease_v4_live(now));
        }
        let v4_evicted = before_v4 - kept4.len();
        self.v4 = kept4;

        let mut src6: Vec<(Reservation, LeaseV6)> = Vec::new();
        core::mem::swap(&mut self.v6, &mut src6);
        let ghost orig6 = src6@;
        let before_v6 = src6.len();
        let mut kept6: Vec<(Reservation, LeaseV6)> = Vec::new();
        let mut i6: usize = 0;
        let n6 = src6.len();
        while i6 < n6
            invariant
                0 <= i6 <= n6,
                n6 == orig6.len(),
                src6@ == orig6.skip(i6 as int),
                kept6@ == filter_entries(orig6.take(i6 as int), lease_v6_live(now)),
            decreases n6 - i6,
        {
            let e = src6.remove(0);
            proof {
                assert(orig6.skip(i6 as int)[0] == orig6[i6 as int]);
                assert(orig6.skip(i6 as int).remove(0) =~= orig6.skip(i6 as int + 1));
                assert(orig6.take(i6 + 1).drop_last() =~= orig6.take(i6 as int));
                assert(orig6.take(i6 + 1).last() == orig6[i6 as int]);
            }
            let age = if now >= e.1.last_leased {
                now - e.1.last_leased
            } else {
                0
            };
            if age < e.1.valid_ms {
                kept6.push(e);
            }
            i6 = i6 + 1;
        }
        proof {
            assert(orig6.take(n6 as int) =~= orig6);
            lemma_filter_entries_len(orig6, lease_v6_live(now));
            lemma_filter_entries_unique(orig6, lease_v6_live(now));
        }
        let v6_evicted = before_v6 - kept6.len();
        self.v6 = kept6;

        (expired, orphaned, v4_evicted, v6_evicted)
    }

    /// Records a v6 lease for the reservation, replacing any existing one.
    pub fn leased_new_v6(&mut self, reservation: &Reservation, lease: LeaseV6)
        requires
            old(self).wf(),
        ensures
            final(self).wf(),
            final(self).v6_map() == old(self).v6_map().insert(reservation@, lease@),
            final(self).v4@ == old(self).v4@,
            final(self).mac_to_opt82@ == old(self).mac_to_opt82@,
    {
        let ghost lv = lease@;
        let n = self.v6.len();
        let mut i = n;
        while i > 0
            invariant
                0 <= i <= n,
                *self == *old(self),
                n == self.v6@.len(),
                forall|j: int| i <= j < n ==> (#[trigger] self.v6@[j]).0@ != reservation@,
            decreases i,
        {
            i = i - 1;
            if crate::types::res_eq(&self.v6[i].0, reservation) {
                let key = self.v6[i].0.clone();
                let ghost prev = self.v6@;
                let entry = (key, lease);
                self.v6[i] = entry;
                proof {
                    lemma_map_of_update(prev, i as int, entry);
                    assert forall|a: int, b: int| 0 <= a < b < self.v6@.len() implies (
                    #[trigger] self.v6@[a]).0@ != (#[trigger] self.v6@[b]).0@ by {
                        assert(prev[a].0@ == self.v6@[a].0@);
                        assert(prev[b].0@ == self.v6@[b].0@);
                    }
                }
                return ;
            }
        }
        proof {
            lemma_map_of_absent(self.v6@, reservation@);
        }
        let ghost prev = self.v6@;
        self.v6.push((reservation.clone(), lease));
        proof {
            assert(self.v6@.drop_last() =~= prev);
            assert forall|a: int, b: int| 0 <= a < b < self.v6@.len() implies (
            #[trigger] self.v6@[a]).0@ != (#[trigger] self.v6@[b]).0@ by {
                if b == self.v6@.len() - 1 {
                    assert(prev[a].0@ != reservation@);
                }
            }
        }
    }
}

} // verus!
