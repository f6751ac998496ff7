//! The Option 18/37 extractor pipeline: the DHCPv6 counterpart of the
//! Option 82 extractors, rewriting relay Interface-ID / Remote-ID values
//! into normalized lookup keys.

use vstd::prelude::*;

use crate::strutil::str_eq;
use crate::types::{opt_str_clone, Option1837, Option1837V};

verus! {

/// What `interface_only` yields: the Interface-ID alone, if present.
pub open spec fn spec_interface_only(o: Option1837V) -> Option<Option1837V> {
    match o.interface {
        Some(i) => Some(
            Option1837V { interface: Some(i), remote: None, enterprise_number: None },
        ),
        None => None,
    }
}

/// Projects the Interface-ID (Option 18), if it exists.
pub fn interface_only(opt: &Option1837) -> (r: Option<Option1837>)
    ensures
        crate::types::opt1837_view(r) == spec_interface_only(opt@),
{
    match &opt.interface {
        Some(s) => Some(
            Option1837 { interface: Some(s.clone()), remote: None, enterprise_number: None },
        ),
        None => None,
    }
}

/// What `remote_only` yields: the Remote-ID alone, if present.
pub open spec fn spec_remote_only_1837(o: Option1837V) -> Option<Option1837V> {
    match o.remote {
        Some(r) => Some(
            Option1837V { interface: None, remote: Some(r), enterprise_number: None },
        ),
        None => None,
    }
}

/// Projects the Remote-ID (Option 37), if it exists.
pub fn remote_only(opt: &Option1837) -> (r: Option<Option1837>)
    ensures
        crate::types::opt1837_view(r) == spec_remote_only_1837(opt@),
{
    match &opt.remote {
        Some(s) => Some(
            Option1837 { interface: None, remote: Some(s.clone()), enterprise_number: None },
        ),
        None => None,
    }
}

/// What `interface_and_remote` yields: both subfields, when both exist.
pub open spec fn spec_interface_and_remote(o: Option1837V) -> Option<Option1837V> {
    if o.interface is Some && o.remote is Some {
        Some(Option1837V { interface: o.interface, remote: o.remote, enterprise_number: None })
    } else {
        None
    }
}

/// Keeps Interface-ID and Remote-ID together, requiring both.
pub fn interface_and_remote(opt: &Option1837) -> (r: Option<Option1837>)
    ensures
        crate::types::opt1837_view(r) == spec_interface_and_remote(opt@),
{
    if opt.interface.is_some() && opt.remote.is_some() {
        Some(
            Option1837 {
                interface: opt_str_clone(&opt.interface),
                remote: opt_str_clone(&opt.remote),
                enterprise_number: None,
            },
        )
    } else {
        None
    }
}

/// What `remote_with_enterprise` yields: the Remote-ID together with its
/// enterprise number, when both exist.
pub open spec fn spec_remote_with_enterprise(o: Option1837V) -> Option<Option1837V> {
    if o.remote is Some && o.enterprise_number is Some {
        Some(
            Option1837V {
                interface: None,
                remote: o.remote,
                enterprise_number: o.enterprise_number,
            },
        )
    } else {
        None
    }
}

/// Keeps the Remote-ID with its enterprise number, requiring both.
pub fn remote_with_enterprise(opt: &Option1837) -> (r: Option<Option1837>)
    ensures
        crate::types::opt1837_view(r) == spec_remote_with_enterprise(opt@),
{
    if opt.remote.is_some() && opt.enterprise_number.is_some() {
        Some(
            Option1837 {
                interface: None,
                remote: opt_str_clone(&opt.remote),
                enterprise_number: opt.enterprise_number,
            },
        )
    } else {
        None
    }
}

/// What `all_fields` yields: the whole value, when any subfield exists.
pub open spec fn spec_all_fields(o: Option1837V) -> Option<Option1837V> {
    if o.interface is Some || o.remote is Some {
        Some(o)
    } else {
        None
    }
}

/// Keeps every subfield, requiring at least one of the two identifiers.
pub fn all_fields(opt: &Option1837) -> (r: Option<Option1837>)
    ensures
        crate::types::opt1837_view(r) == spec_all_fields(opt@),
{
    if opt.interface.is_some() || opt.remote.is_some() {
        Some(opt.clone())
    } else {
        None
    }
}

/// One named Option 18/37 extractor.
#[derive(Clone, Copy, Debug, PartialEq, Eq)]
pub enum Option1837Extractor {
    InterfaceOnly,
    RemoteOnly,
    InterfaceAndRemote,
    RemoteWithEnterprise,
    AllFields,
}

impl Option1837Extractor {
    /// What this extractor yields on a given Option 18/37 value.
    pub open spec fn spec_apply(self, o: Option1837V) -> Option<Option1837V> {
        match self {
            Option1837Extractor::InterfaceOnly => spec_interface_only(o),
            Option1837Extractor::RemoteOnly => spec_remote_only_1837(o),
            Option1837Extractor::InterfaceAndRemote => spec_interface_and_remote(o),
            Option1837Extractor::RemoteWithEnterprise => spec_remote_with_enterprise(o),
            Option1837Extractor::AllFields => spec_all_fields(o),
        }
    }

    /// Applies this extractor.
    pub fn apply(&self, opt: &Option1837) -> (r: Option<Option1837>)
        ensures
            crate::types::opt1837_view(r) == self.spec_apply(opt@),
    {
        match self {
            Option1837Extractor::InterfaceOnly => interface_only(opt),
            Option1837Extractor::RemoteOnly => remote_only(opt),
            Option1837Extractor::InterfaceAndRemote => interface_and_remote(opt),
            Option1837Extractor::RemoteWithEnterprise => remote_with_enterprise(opt),
            Option1837Extractor::AllFields => all_fields(opt),
        }
    }

    /// This extractor's configuration name.
    pub open spec fn name_spec(self) -> Seq<char> {
        match self {
            Option1837Extractor::InterfaceOnly => "interface_only"@,
            Option1837Extractor::RemoteOnly => "remote_only"@,
            Option1837Extractor::InterfaceAndRemote => "interface_and_remote"@,
            Option1837Extractor::RemoteWithEnterprise => "remote_with_enterprise"@,
            Option1837Extractor::AllFields => "all_fields"@,
        }
    }

    /// The name this extractor is configured under.
    pub fn name(&self) -> (r: &'static str)
        ensures
            r@ == self.name_spec(),
    {
        match self {
            Option1837Extractor::InterfaceOnly => "interface_only",
            Option1837Extractor::RemoteOnly => "remote_only",
            Option1837Extractor::InterfaceAndRemote => "interface_and_remote",
            Option1837Extractor::RemoteWithEnterprise => "remote_with_enterprise",
            Option1837Extractor::AllFields => "all_fields",
        }
    }

    /// The extractor configured under a name, if the name is known; an
    /// unknown name is a fatal configuration error for the caller.
    pub fn from_name(s: &str) -> (r: Option<Option1837Extractor>)
        ensures
            match r {
                Some(e) => e.name_spec() == s@,
                None => forall|e: Option1837Extractor| e.name_spec() != s@,
            },
    {
        let all = get_all_extractors();
        for i in 0..all.len()
            invariant
                all@ == all_option1837_extractors(),
                forall|j: int| 0 <= j < i ==> (#[trigger] all@[j]).name_spec() != s@,
        {
            if str_eq(all[i].name(), s) {
                return Some(all[i]);
            }
        }
        proof {
            assert forall|e: Option1837Extractor| e.name_spec() != s@ by {
                let all = all_option1837_extractors();
                match e {
                    Option1837Extractor::InterfaceOnly => assert(all[0] == e),
                    Option1837Extractor::RemoteOnly => assert(all[1] == e),
                    Option1837Extractor::InterfaceAndRemote => assert(all[2] == e),
                    Option1837Extractor::RemoteWithEnterprise => assert(all[3] == e),
                    Option1837Extractor::AllFields => assert(all[4] == e),
                }
            }
        }
        None
    }
}

/// Every Option 18/37 extractor, in registry order.
pub open spec fn all_option1837_extractors() -> Seq<Option1837Extractor> {
    seq![
        Option1837Extractor::InterfaceOnly,
        Option1837Extractor::RemoteOnly,
        Option1837Extractor::InterfaceAndRemote,
        Option1837Extractor::RemoteWithEnterprise,
        Option1837Extractor::AllFields,
    ]
}

/// The registry of Option 18/37 extractors.
pub fn get_all_extractors() -> (r: Vec<Option1837Extractor>)
    ensures
        r@ == all_option1837_extractors(),
{
    let mut v: Vec<Option1837Extractor> = Vec::new();
    v.push(Option1837Extractor::InterfaceOnly);
    v.push(Option1837Extractor::RemoteOnly);
    v.push(Option1837Extractor::InterfaceAndRemote);
    v.push(Option1837Extractor::RemoteWithEnterprise);
    v.push(Option1837Extractor::AllFields);
    proof {
        assert(v@ =~= all_option1837_extractors());
    }
    v
}

} // verus!
