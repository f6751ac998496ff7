//! The multi-key reservation index.
//!
//! The index maps a tagged key — MAC, DUID, Option 82 tuple or Option 18/37
//! tuple — to a reservation.  It is abstracted as a mathematical map from
//! key values to reservation values; inserting a reservation writes it under
//! each key it carries, last writer wins.

use vstd::prelude::*;

use crate::duid::{duid_eq, Duid};
use crate::mac::{mac_eq, Mac};
use crate::types::{opt1837_eq, opt82_eq, Option1837, Option1837V, Option82, Option82V,
    Reservation, ReservationV};

verus! {

/// The map held by an association list, last writer wins.
pub open spec fn map_of<K: View, U: View>(s: Seq<(K, U)>) -> Map<K::V, U::V>
    decreases s.len(),
{
    if s.len() == 0 {
        Map::empty()
    } else {
        map_of(s.drop_last()).insert(s.last().0@, s.last().1@)
    }
}

/// In an association list, the latest entry for a key decides its value.
pub proof fn lemma_map_of_found<K: View, U: View>(s: Seq<(K, U)>, i: int)
    requires
        0 <= i < s.len(),
        forall|j: int| i < j < s.len() ==> (#[trigger] s[j]).0@ != s[i].0@,
    ensures
        map_of(s).contains_key(s[i].0@),
        map_of(s)[s[i].0@] == s[i].1@,
    decreases s.len(),
{
    if i == s.len() - 1 {
    } else {
        assert(s.last().0@ != s[i].0@);
        assert(s.drop_last()[i] == s[i]);
        lemma_map_of_found(s.drop_last(), i);
    }
}

/// A key no entry carries is not in the map.
pub proof fn lemma_map_of_absent<K: View, U: View>(s: Seq<(K, U)>, k: K::V)
    requires
        forall|j: int| 0 <= j < s.len() ==> (#[trigger] s[j]).0@ != k,
    ensures
        !map_of(s).contains_key(k),
    decreases s.len(),
{
    if s.len() > 0 {
        assert(s.last() == s[s.len() - 1]);
        lemma_map_of_absent(s.drop_last(), k);
    }
}

/// A lookup key of the reservation index.
#[derive(Debug, PartialEq, Eq, Hash)]
pub enum ReservationKey {
    Mac(Mac),
    Duid(Duid),
    Opt82(Option82),
    Opt1837(Option1837),
}

/// The abstract value of a [`ReservationKey`].
pub enum ReservationKeyV {
    Mac(Seq<u8>),
    Duid(Seq<u8>),
    Opt82(Option82V),
    Opt1837(Option1837V),
}

impl View for ReservationKey {
    type V = ReservationKeyV;

    open spec fn view(&self) -> ReservationKeyV {
        match self {
            ReservationKey::Mac(m) => ReservationKeyV::Mac(m@),
            ReservationKey::Duid(d) => ReservationKeyV::Duid(d@),
            ReservationKey::Opt82(o) => ReservationKeyV::Opt82(o@),
            ReservationKey::Opt1837(o) => ReservationKeyV::Opt1837(o@),
        }
    }
}

/// Equality of index keys, by content.
pub fn key_eq(a: &ReservationKey, b: &ReservationKey) -> (r: bool)
    ensures
        r == (a@ == b@),
{
    match (a, b) {
        (ReservationKey::Mac(x), ReservationKey::Mac(y)) => mac_eq(x, y),
        (ReservationKey::Duid(x), ReservationKey::Duid(y)) => duid_eq(x, y),
        (ReservationKey::Opt82(x), ReservationKey::Opt82(y)) => opt82_eq(x, y),
        (ReservationKey::Opt1837(x), ReservationKey::Opt1837(y)) => opt1837_eq(x, y),
        _ => false,
    }
}

/// The multi-key reservation index.  The entry list is public so that
/// specifications can speak about it; callers go through the methods.
pub struct ReservationDb {
    pub entries: Vec<(ReservationKey, Reservation)>,
}

impl View for ReservationDb {
    type V = Map<ReservationKeyV, ReservationV>;

    open spec fn view(&self) -> Map<ReservationKeyV, ReservationV> {
        map_of(self.entries@)
    }
}

/// What inserting one reservation does to the index: it is written under
/// each key it carries — MAC, DUID, Option 82, Option 18/37, in that order.
pub open spec fn spec_insert_reservation(
    m: Map<ReservationKeyV, ReservationV>,
    r: ReservationV,
) -> Map<ReservationKeyV, ReservationV> {
    let m1 = match r.mac {
        Some(mac) => m.insert(ReservationKeyV::Mac(mac), r),
        None => m,
    };
    let m2 = match r.duid {
        Some(d) => m1.insert(ReservationKeyV::Duid(d), r),
        None => m1,
    };
    let m3 = match r.option82 {
        Some(o) => m2.insert(ReservationKeyV::Opt82(o), r),
        None => m2,
    };
    match r.option1837 {
        Some(o) => m3.insert(ReservationKeyV::Opt1837(o), r),
        None => m3,
    }
}

/// What loading a snapshot does: each reservation inserted in order.
pub open spec fn spec_load(
    m: Map<ReservationKeyV, ReservationV>,
    rs: Seq<ReservationV>,
) -> Map<ReservationKeyV, ReservationV>
    decreases rs.len(),
{
    if rs.len() == 0 {
        m
    } else {
        spec_load(spec_insert_reservation(m, rs.first()), rs.drop_first())
    }
}

/// The abstract values of a sequence of reservations.
pub open spec fn res_views(rs: Seq<Reservation>) -> Seq<ReservationV>
    decreases rs.len(),
{
    if rs.len() == 0 {
        Seq::empty()
    } else {
        seq![rs.first()@] + res_views(rs.drop_first())
    }
}

impl ReservationDb {
    /// An empty index.
    pub fn new() -> (r: ReservationDb)
        ensures
            r@ == Map::<ReservationKeyV, ReservationV>::empty(),
    {
        ReservationDb { entries: Vec::new() }
    }

    /// Inserts a reservation under each key it carries, replacing what an
    /// earlier reservation claimed under the same key.
    pub fn insert(&mut self, reservation: Reservation)
        ensures
            final(self)@ == spec_insert_reservation(old(self)@, reservation@),
    {
        let ghost rv = reservation@;
        if let Some(m) = reservation.mac {
            let ghost prev = self.entries@;
            self.entries.push((ReservationKey::Mac(m), reservation.clone()));
            proof {
                assert(self.entries@.drop_last() =~= prev);
                assert(self@ == map_of(prev).insert(ReservationKeyV::Mac(m@), rv));
            }
        }
        if let Some(d) = &reservation.duid {
            let ghost prev = self.entries@;
            self.entries.push((ReservationKey::Duid(d.clone()), reservation.clone()));
            proof {
                assert(self.entries@.drop_last() =~= prev);
                assert(self@ == map_of(prev).insert(ReservationKeyV::Duid(d@), rv));
            }
        }
        if let Some(o) = &reservation.option82 {
            let ghost prev = self.entries@;
            self.entries.push((ReservationKey::Opt82(o.clone()), reservation.clone()));
            proof {
                assert(self.entries@.drop_last() =~= prev);
                assert(self@ == map_of(prev).insert(ReservationKeyV::Opt82(o@), rv));
            }
        }
        if let Some(o) = &reservation.option1837 {
            let ghost prev = self.entries@;
            self.entries.push((ReservationKey::Opt1837(o.clone()), reservation));
            proof {
                assert(self.entries@.drop_last() =~= prev);
                assert(self@ == map_of(prev).insert(ReservationKeyV::Opt1837(o@), rv));
            }
        }
    }

    /// Loads a snapshot: every reservation of the vector, in order.
    pub fn load_reservations(&mut self, reservations: Vec<Reservation>)
        ensures
            final(self)@ == spec_load(old(self)@, res_views(reservations@)),
    {
        let ghost m0 = self@;
        let ghost all = reservations@;
        let n = reservations.len();
        let mut rest = reservations;
        let mut i: usize = 0;
        proof {
            lemma_res_views_skip(all, 0);
            assert(all.skip(0) =~= all);
        }
        while i < n
            invariant
                n == all.len(),
                rest@ == all.skip(i as int),
                0 <= i <= n,
                spec_load(m0, res_views(all)) == spec_load(self@, res_views(all.skip(i as int))),
            decreases n - i,
        {
            let r = rest.remove(0);
            proof {
                assert(all.skip(i as int).first() == r);
                assert(rest@ =~= all.skip(i as int).drop_first());
                assert(all.skip(i as int).drop_first() =~= all.skip(i as int + 1));
                lemma_res_views_skip(all, i as int);
            }
            self.insert(r);
            i = i + 1;
        }
        proof {
            assert(all.skip(n as int) =~= Seq::<Reservation>::empty());
        }
    }

    /// Looks a key up: the latest reservation inserted under it, if any.
    pub fn get(&self, key: &ReservationKey) -> (r: Option<Reservation>)
        ensures
            match r {
                Some(res) => self@.contains_key(key@) && res@ == self@[key@],
                None => !self@.contains_key(key@),
            },
    {
        let n = self.entries.len();
        let mut i = n;
        while i > 0
            invariant
                0 <= i <= n,
                n == self.entries@.len(),
                forall|j: int| i <= j < n ==> (#[trigger] self.entries@[j]).0@ != key@,
            decreases i,
        {
            i = i - 1;
            if key_eq(&self.entries[i].0, key) {
                proof {
                    lemma_map_of_found(self.entries@, i as int);
                }
                return Some(self.entries[i].1.clone());
            }
        }
        proof {
            lemma_map_of_absent(self.entries@, key@);
        }
        None
    }

    /// Looks a reservation up by MAC address.
    pub fn by_mac(&self, mac: Mac) -> (r: Option<Reservation>)
        ensures
            match r {
                Some(res) => self@.contains_key(ReservationKeyV::Mac(mac@)) && res@
                    == self@[ReservationKeyV::Mac(mac@)],
                None => !self@.contains_key(ReservationKeyV::Mac(mac@)),
            },
    {
        self.get(&ReservationKey::Mac(mac))
    }

    /// Looks a reservation up by DUID.
    pub fn by_duid(&self, duid: &Duid) -> (r: Option<Reservation>)
        ensures
            match r {
                Some(res) => self@.contains_key(ReservationKeyV::Duid(duid@)) && res@
                    == self@[ReservationKeyV::Duid(duid@)],
                None => !self@.contains_key(ReservationKeyV::Duid(duid@)),
            },
    {
        self.get(&ReservationKey::Duid(duid.clone()))
    }

    /// Looks a reservation up by Option 82 value.
    pub fn by_opt82(&self, opt: &Option82) -> (r: Option<Reservation>)
        ensures
            match r {
                Some(res) => self@.contains_key(ReservationKeyV::Opt82(opt@)) && res@
                    == self@[ReservationKeyV::Opt82(opt@)],
                None => !self@.contains_key(ReservationKeyV::Opt82(opt@)),
            },
    {
        self.get(&ReservationKey::Opt82(opt.clone()))
    }

    /// Looks a reservation up by Option 18/37 value.
    pub fn by_opt1837(&self, opt: &Option1837) -> (r: Option<Reservation>)
        ensures
            match r {
                Some(res) => self@.contains_key(ReservationKeyV::Opt1837(opt@)) && res@
                    == self@[ReservationKeyV::Opt1837(opt@)],
                None => !self@.contains_key(ReservationKeyV::Opt1837(opt@)),
            },
    {
        self.get(&ReservationKey::Opt1837(opt.clone()))
    }

    /// Whether any reservation is indexed under this Option 82 value.
    pub fn has_opt82(&self, opt: &Option82) -> (r: bool)
        ensures
            r == self@.contains_key(ReservationKeyV::Opt82(opt@)),
    {
        match self.by_opt82(opt) {
            Some(_) => true,
            None => false,
        }
    }

    /// The number of key entries the index holds.
    pub fn len(&self) -> (r: usize)
        ensures
            r == self.entries@.len(),
    {
        self.entries.len()
    }
}

/// Peeling the first reservation off a suffix peels its view off the views.
pub proof fn lemma_res_views_skip(rs: Seq<Reservation>, i: int)
    requires
        0 <= i <= rs.len(),
    ensures
        i < rs.len() ==> res_views(rs.skip(i)).len() > 0 && res_views(rs.skip(i)).first() == rs[i]@
            && res_views(rs.skip(i)).drop_first() == res_views(rs.skip(i + 1)),
        i == rs.len() ==> res_views(rs.skip(i)).len() == 0,
{
    if i < rs.len() {
        let s = rs.skip(i);
        assert(s.len() > 0);
        assert(res_views(s) == seq![s.first()@] + res_views(s.drop_first()));
        assert(res_views(s).first() == s.first()@);
        assert(s.first() == rs[i]);
        assert(s.drop_first() =~= rs.skip(i + 1));
        assert(res_views(s).drop_first() =~= res_views(s.drop_first()));
    } else {
        assert(rs.skip(i).len() == 0);
    }
}

} // verus!
