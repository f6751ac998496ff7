//! The data model: reservations, their lookup keys, and leases.

use vstd::prelude::*;

use crate::duid::Duid;
use crate::mac::{mac_eq, Mac};

verus! {

/// An IPv6 prefix: an address and a prefix length of at most 128.
#[derive(Clone, Copy, Debug, PartialEq, Eq, Hash)]
pub struct V6Prefix {
    pub addr: u128,
    pub prefix_len: u8,
}

impl V6Prefix {
    /// A prefix length never exceeds an IPv6 address's 128 bits.
    pub open spec fn wf(self) -> bool {
        self.prefix_len <= 128
    }
}

/// The IPv6 pair a reservation assigns: a non-temporary address and a
/// delegated prefix.
#[derive(Clone, Copy, Debug, PartialEq, Eq, Hash)]
pub struct V6Ip {
    pub ia_na: u128,
    pub ia_pd: V6Prefix,
}

/// The view of an optional string: its characters, if present.
pub open spec fn opt_str_view(o: Option<String>) -> Option<Seq<char>> {
    match o {
        Some(s) => Some(s@),
        None => None,
    }
}

/// Equality of optional strings, by content.
pub fn opt_str_eq(a: &Option<String>, b: &Option<String>) -> (r: bool)
    ensures
        r == (opt_str_view(*a) == opt_str_view(*b)),
{
    match (a, b) {
        (Some(x), Some(y)) => x.eq(y),
        (None, None) => true,
        _ => false,
    }
}

/// Clones an optional string.
pub fn opt_str_clone(a: &Option<String>) -> (r: Option<String>)
    ensures
        opt_str_view(r) == opt_str_view(*a),
{
    match a {
        Some(x) => Some(x.clone()),
        None => None,
    }
}

/// DHCPv4 relay-agent information: the three Option 82 subfields.
#[derive(Debug, PartialEq, Eq, Hash)]
pub struct Option82 {
    pub circuit: Option<String>,
    pub remote: Option<String>,
    pub subscriber: Option<String>,
}

/// The abstract value of an [`Option82`].
pub struct Option82V {
    pub circuit: Option<Seq<char>>,
    pub remote: Option<Seq<char>>,
    pub subscriber: Option<Seq<char>>,
}

impl View for Option82 {
    type V = Option82V;

    open spec fn view(&self) -> Option82V {
        Option82V {
            circuit: opt_str_view(self.circuit),
            remote: opt_str_view(self.remote),
            subscriber: opt_str_view(self.subscriber),
        }
    }
}

impl Clone for Option82 {
    fn clone(&self) -> (r: Self)
        ensures
            r@ == self@,
    {
        Option82 {
            circuit: opt_str_clone(&self.circuit),
            remote: opt_str_clone(&self.remote),
            subscriber: opt_str_clone(&self.subscriber),
        }
    }
}

/// Equality of Option 82 values, by content.
pub fn opt82_eq(a: &Option82, b: &Option82) -> (r: bool)
    ensures
        r == (a@ == b@),
{
    opt_str_eq(&a.circuit, &b.circuit) && opt_str_eq(&a.remote, &b.remote) && opt_str_eq(
        &a.subscriber,
        &b.subscriber,
    )
}

/// DHCPv6 relay information: the Interface-ID (Option 18) and Remote-ID
/// (Option 37) subfields, with the Remote-ID's enterprise number.
#[derive(Debug, PartialEq, Eq, Hash)]
pub struct Option1837 {
    pub interface: Option<String>,
    pub remote: Option<String>,
    pub enterprise_number: Option<u32>,
}

/// The abstract value of an [`Option1837`].
pub struct Option1837V {
    pub interface: Option<Seq<char>>,
    pub remote: Option<Seq<char>>,
    pub enterprise_number: Option<u32>,
}

impl View for Option1837 {
    type V = Option1837V;

    open spec fn view(&self) -> Option1837V {
        Option1837V {
            interface: opt_str_view(self.interface),
            remote: opt_str_view(self.remote),
            enterprise_number: self.enterprise_number,
        }
    }
}

impl Clone for Option1837 {
    fn clone(&self) -> (r: Self)
        ensures
            r@ == self@,
    {
        Option1837 {
            interface: opt_str_clone(&self.interface),
            remote: opt_str_clone(&self.remote),
            enterprise_number: self.enterprise_number,
        }
    }
}

/// Equality of Option 18/37 values, by content.
pub fn opt1837_eq(a: &Option1837, b: &Option1837) -> (r: bool)
    ensures
        r == (a@ == b@),
{
    opt_str_eq(&a.interface, &b.interface) && opt_str_eq(&a.remote, &b.remote)
        && opt_u32_eq(&a.enterprise_number, &b.enterprise_number)
}

/// Equality of optional numbers.
pub fn opt_u32_eq(a: &Option<u32>, b: &Option<u32>) -> (r: bool)
    ensures
        r == (*a == *b),
{
    match (a, b) {
        (Some(x), Some(y)) => x == y,
        (None, None) => true,
        _ => false,
    }
}

/// The view of an optional MAC: its bytes, if present.
pub open spec fn opt_mac_view(o: Option<Mac>) -> Option<Seq<u8>> {
    match o {
        Some(m) => Some(m@),
        None => None,
    }
}

/// Equality of optional MAC addresses.
pub fn opt_mac_eq(a: &Option<Mac>, b: &Option<Mac>) -> (r: bool)
    ensures
        r == (opt_mac_view(*a) == opt_mac_view(*b)),
{
    match (a, b) {
        (Some(x), Some(y)) => mac_eq(x, y),
        (None, None) => true,
        _ => false,
    }
}

/// The view of an optional DUID: its bytes, if present.
pub open spec fn opt_duid_view(o: Option<Duid>) -> Option<Seq<u8>> {
    match o {
        Some(d) => Some(d@),
        None => None,
    }
}

/// The view of an optional Option 82.
pub open spec fn opt82_view(o: Option<Option82>) -> Option<Option82V> {
    match o {
        Some(x) => Some(x@),
        None => None,
    }
}

/// The view of an optional Option 18/37.
pub open spec fn opt1837_view(o: Option<Option1837>) -> Option<Option1837V> {
    match o {
        Some(x) => Some(x@),
        None => None,
    }
}

/// A static assignment: the addresses handed to one subscriber, and the
/// keys under which the subscriber is recognized.
#[derive(Debug, PartialEq, Eq, Hash)]
pub struct Reservation {
    pub ipv4: u32,
    pub ipv6_na: u128,
    pub ipv6_pd: V6Prefix,
    pub mac: Option<Mac>,
    pub duid: Option<Duid>,
    pub option82: Option<Option82>,
    pub option1837: Option<Option1837>,
}

/// The abstract value of a [`Reservation`].
pub struct ReservationV {
    pub ipv4: u32,
    pub ipv6_na: u128,
    pub ipv6_pd: V6Prefix,
    pub mac: Option<Seq<u8>>,
    pub duid: Option<Seq<u8>>,
    pub option82: Option<Option82V>,
    pub option1837: Option<Option1837V>,
}

impl View for Reservation {
    type V = ReservationV;

    open spec fn view(&self) -> ReservationV {
        ReservationV {
            ipv4: self.ipv4,
            ipv6_na: self.ipv6_na,
            ipv6_pd: self.ipv6_pd,
            mac: opt_mac_view(self.mac),
            duid: opt_duid_view(self.duid),
            option82: opt82_view(self.option82),
            option1837: opt1837_view(self.option1837),
        }
    }
}

impl Clone for Reservation {
    fn clone(&self) -> (r: Self)
        ensures
            r@ == self@,
    {
        Reservation {
            ipv4: self.ipv4,
            ipv6_na: self.ipv6_na,
            ipv6_pd: self.ipv6_pd,
            mac: self.mac,
            duid: match &self.duid {
                Some(d) => Some(d.clone()),
                None => None,
            },
            option82: match &self.option82 {
                Some(o) => Some(o.clone()),
                None => None,
            },
            option1837: match &self.option1837 {
                Some(o) => Some(o.clone()),
                None => None,
            },
        }
    }
}

impl Reservation {
    /// A reservation is well formed when its delegated prefix is valid and
    /// it carries at least one key.
    pub open spec fn wf(self) -> bool {
        &&& self.ipv6_pd.wf()
        &&& (self.mac is Some || self.duid is Some || self.option82 is Some
            || self.option1837 is Some)
    }

    /// The key this reservation answers DHCPv4 lookups under: the MAC when
    /// present, else the Option 82 value.
    pub open spec fn spec_v4_key(self) -> Option<V4KeyV> {
        match self.mac {
            Some(m) => Some(V4KeyV::Mac(m@)),
            None => match self.option82 {
                Some(ref o) => Some(V4KeyV::Option82(o@)),
                None => None,
            },
        }
    }

    /// Returns the DHCPv4 key: MAC address first, else Option 82.
    pub fn v4_key(&self) -> (r: Option<V4Key>)
        ensures
            v4_key_opt_view(r) == self.spec_v4_key(),
    {
        match self.mac {
            Some(m) => Some(V4Key::Mac(m)),
            None => match &self.option82 {
                Some(o) => Some(V4Key::Option82(o.clone())),
                None => None,
            },
        }
    }

    /// The key this reservation answers DHCPv6 lookups under: the DUID when
    /// present, else the MAC.
    pub open spec fn spec_v6_key(self) -> Option<V6KeyV> {
        match self.duid {
            Some(ref d) => Some(V6KeyV::Duid(d@)),
            None => match self.mac {
                Some(m) => Some(V6KeyV::Mac(m@)),
                None => None,
            },
        }
    }

    /// Returns the DHCPv6 key: DUID first, else MAC address.
    pub fn v6_key(&self) -> (r: Option<V6Key>)
        ensures
            v6_key_opt_view(r) == self.spec_v6_key(),
    {
        match &self.duid {
            Some(d) => Some(V6Key::Duid(d.clone())),
            None => match self.mac {
                Some(m) => Some(V6Key::Mac(m)),
                None => None,
            },
        }
    }
}

/// Equality of reservations, by content.
pub fn res_eq(a: &Reservation, b: &Reservation) -> (r: bool)
    ensures
        r == (a@ == b@),
{
    a.ipv4 == b.ipv4 && a.ipv6_na == b.ipv6_na && a.ipv6_pd.addr == b.ipv6_pd.addr
        && a.ipv6_pd.prefix_len == b.ipv6_pd.prefix_len && opt_mac_eq(
        &a.mac,
        &b.mac,
    ) && opt_duid_eq(&a.duid, &b.duid) && opt_opt82_eq(&a.option82, &b.option82) && opt_opt1837_eq(
        &a.option1837,
        &b.option1837,
    )
}

/// Equality of optional DUIDs.
pub fn opt_duid_eq(a: &Option<Duid>, b: &Option<Duid>) -> (r: bool)
    ensures
        r == (opt_duid_view(*a) == opt_duid_view(*b)),
{
    match (a, b) {
        (Some(x), Some(y)) => crate::duid::duid_eq(x, y),
        (None, None) => true,
        _ => false,
    }
}

/// Equality of optional Option 82 values.
pub fn opt_opt82_eq(a: &Option<Option82>, b: &Option<Option82>) -> (r: bool)
    ensures
        r == (opt82_view(*a) == opt82_view(*b)),
{
    match (a, b) {
        (Some(x), Some(y)) => opt82_eq(x, y),
        (None, None) => true,
        _ => false,
    }
}

/// Equality of optional Option 18/37 values.
pub fn opt_opt1837_eq(a: &Option<Option1837>, b: &Option<Option1837>) -> (r: bool)
    ensures
        r == (opt1837_view(*a) == opt1837_view(*b)),
{
    match (a, b) {
        (Some(x), Some(y)) => opt1837_eq(x, y),
        (None, None) => true,
        _ => false,
    }
}

/// A DHCPv4 lookup key.
#[derive(Debug, PartialEq, Eq, Hash)]
pub enum V4Key {
    Mac(Mac),
    Option82(Option82),
}

/// The abstract value of a [`V4Key`].
pub enum V4KeyV {
    Mac(Seq<u8>),
    Option82(Option82V),
}

impl View for V4Key {
    type V = V4KeyV;

    open spec fn view(&self) -> V4KeyV {
        match self {
            V4Key::Mac(m) => V4KeyV::Mac(m@),
            V4Key::Option82(o) => V4KeyV::Option82(o@),
        }
    }
}

/// The view of an optional DHCPv4 key.
pub open spec fn v4_key_opt_view(o: Option<V4Key>) -> Option<V4KeyV> {
    match o {
        Some(k) => Some(k@),
        None => None,
    }
}

/// A DHCPv6 lookup key.
#[derive(Debug, PartialEq, Eq, Hash)]
pub enum V6Key {
    Duid(Duid),
    Mac(Mac),
}

/// The abstract value of a [`V6Key`].
pub enum V6KeyV {
    Duid(Seq<u8>),
    Mac(Seq<u8>),
}

impl View for V6Key {
    type V = V6KeyV;

    open spec fn view(&self) -> V6KeyV {
        match self {
            V6Key::Duid(d) => V6KeyV::Duid(d@),
            V6Key::Mac(m) => V6KeyV::Mac(m@),
        }
    }
}

/// The view of an optional DHCPv6 key.
pub open spec fn v6_key_opt_view(o: Option<V6Key>) -> Option<V6KeyV> {
    match o {
        Some(k) => Some(k@),
        None => None,
    }
}

/// An active DHCPv4 lease.  Times are milliseconds since the epoch; the
/// validity is a duration in milliseconds.
#[derive(Debug)]
pub struct LeaseV4 {
    pub first_leased: u64,
    pub last_leased: u64,
    pub valid_ms: u64,
    pub mac: Mac,
    pub option82: Option<Option82>,
}

/// The abstract value of a [`LeaseV4`].
pub struct LeaseV4V {
    pub first_leased: u64,
    pub last_leased: u64,
    pub valid_ms: u64,
    pub mac: Seq<u8>,
    pub option82: Option<Option82V>,
}

impl View for LeaseV4 {
    type V = LeaseV4V;

    open spec fn view(&self) -> LeaseV4V {
        LeaseV4V {
            first_leased: self.first_leased,
            last_leased: self.last_leased,
            valid_ms: self.valid_ms,
            mac: self.mac@,
            option82: opt82_view(self.option82),
        }
    }
}

/// An active DHCPv6 lease, in the same units as [`LeaseV4`].
#[derive(Debug)]
pub struct LeaseV6 {
    pub first_leased: u64,
    pub last_leased: u64,
    pub valid_ms: u64,
    pub duid: Duid,
    pub mac: Option<Mac>,
}

/// The abstract value of a [`LeaseV6`].
pub struct LeaseV6V {
    pub first_leased: u64,
    pub last_leased: u64,
    pub valid_ms: u64,
    pub duid: Seq<u8>,
    pub mac: Option<Seq<u8>>,
}

impl View for LeaseV6 {
    type V = LeaseV6V;

    open spec fn view(&self) -> LeaseV6V {
        LeaseV6V {
            first_leased: self.first_leased,
            last_leased: self.last_leased,
            valid_ms: self.valid_ms,
            duid: self.duid@,
            mac: opt_mac_view(self.mac),
        }
    }
}

} // verus!
