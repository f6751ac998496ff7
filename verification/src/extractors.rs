//! The Option 82 extractor pipeline: named pure functions that rewrite a
//! relay-agent Option 82 value into the normalized key a reservation is
//! filed under.  Extractors are chosen by name in the configuration and
//! tried in order.

use vstd::prelude::*;
use vstd::string::StrSliceExecFns;

use crate::mac::{mac_canonical_string, mac_parse, spec_mac_canonical, spec_mac_parse};
use crate::strutil::{nul_pred, drop_while_back, str_eq, trim, trim_spec, trim_trailing_nuls};
use crate::types::{opt_str_clone, Option82, Option82V};

verus! {

/// What `remote_only` yields: the Remote-ID alone, if present.
pub open spec fn spec_remote_only(o: Option82V) -> Option<Option82V> {
    match o.remote {
        Some(r) => Some(Option82V { circuit: None, remote: Some(r), subscriber: None }),
        None => None,
    }
}

/// Projects the Remote-ID subfield, if it exists.
pub fn remote_only(opt: &Option82) -> (r: Option<Option82>)
    ensures
        crate::types::opt82_view(r) == spec_remote_only(opt@),
{
    match &opt.remote {
        Some(s) => Some(
            Option82 { circuit: None, remote: Some(s.clone()), subscriber: None },
        ),
        None => None,
    }
}

/// What `remote_only_trim` yields: the Remote-ID with surrounding
/// whitespace and trailing NULs stripped.
pub open spec fn spec_remote_only_trim(o: Option82V) -> Option<Option82V> {
    match o.remote {
        Some(r) => Some(
            Option82V {
                circuit: None,
                remote: Some(drop_while_back(trim_spec(r), nul_pred())),
                subscriber: None,
            },
        ),
        None => None,
    }
}

/// Projects the Remote-ID, stripping whitespace and trailing NULs.
pub fn remote_only_trim(opt: &Option82) -> (r: Option<Option82>)
    ensures
        crate::types::opt82_view(r) == spec_remote_only_trim(opt@),
{
    match &opt.remote {
        Some(s) => {
            let t = trim(s.as_str());
            let t2 = trim_trailing_nuls(t.as_str());
            Some(Option82 { circuit: None, remote: Some(t2), subscriber: None })
        },
        None => None,
    }
}

/// What `circuit_only` yields: the Circuit-ID alone, if present.
pub open spec fn spec_circuit_only(o: Option82V) -> Option<Option82V> {
    match o.circuit {
        Some(c) => Some(Option82V { circuit: Some(c), remote: None, subscriber: None }),
        None => None,
    }
}

/// Projects the Circuit-ID subfield, if it exists.
pub fn circuit_only(opt: &Option82) -> (r: Option<Option82>)
    ensures
        crate::types::opt82_view(r) == spec_circuit_only(opt@),
{
    match &opt.circuit {
        Some(s) => Some(
            Option82 { circuit: Some(s.clone()), remote: None, subscriber: None },
        ),
        None => None,
    }
}

/// What `circuit_and_remote` yields: both subfields, when both exist.
pub open spec fn spec_circuit_and_remote(o: Option82V) -> Option<Option82V> {
    if o.circuit is Some && o.remote is Some {
        Some(Option82V { circuit: o.circuit, remote: o.remote, subscriber: None })
    } else {
        None
    }
}

/// Keeps Circuit-ID and Remote-ID together, requiring both.
pub fn circuit_and_remote(opt: &Option82) -> (r: Option<Option82>)
    ensures
        crate::types::opt82_view(r) == spec_circuit_and_remote(opt@),
{
    if opt.circuit.is_some() && opt.remote.is_some() {
        Some(
            Option82 {
                circuit: opt_str_clone(&opt.circuit),
                remote: opt_str_clone(&opt.remote),
                subscriber: None,
            },
        )
    } else {
        None
    }
}

/// What `subscriber_only` yields: the Subscriber-ID alone, if present.
pub open spec fn spec_subscriber_only(o: Option82V) -> Option<Option82V> {
    match o.subscriber {
        Some(s) => Some(Option82V { circuit: None, remote: None, subscriber: Some(s) }),
        None => None,
    }
}

/// Projects the Subscriber-ID subfield, if it exists.
pub fn subscriber_only(opt: &Option82) -> (r: Option<Option82>)
    ensures
        crate::types::opt82_view(r) == spec_subscriber_only(opt@),
{
    match &opt.subscriber {
        Some(s) => Some(
            Option82 { circuit: None, remote: None, subscriber: Some(s.clone()) },
        ),
        None => None,
    }
}

/// What `remote_first_12` yields: the first twelve characters of the
/// Remote-ID read as a bare-hex MAC, re-emitted in canonical dash form.
pub open spec fn spec_remote_first_12(o: Option82V) -> Option<Option82V> {
    match o.remote {
        Some(r) => if r.len() >= 12 && spec_mac_parse(r.take(12)) is Some {
            Some(
                Option82V {
                    circuit: None,
                    remote: Some(spec_mac_canonical(spec_mac_parse(r.take(12))->Some_0)),
                    subscriber: None,
                },
            )
        } else {
            None
        },
        None => None,
    }
}

/// Reads the first twelve characters of the Remote-ID as a MAC address and
/// re-emits it in canonical dash form.
pub fn remote_first_12(opt: &Option82) -> (r: Option<Option82>)
    ensures
        crate::types::opt82_view(r) == spec_remote_first_12(opt@),
{
    match &opt.remote {
        Some(s) => {
            if s.as_str().unicode_len() >= 12 {
                let head = s.as_str().substring_char(0, 12);
                proof {
                    assert(head@ =~= s@.take(12));
                }
                match mac_parse(head) {
                    Some(mac) => Some(
                        Option82 {
                            circuit: None,
                            remote: Some(mac_canonical_string(&mac)),
                            subscriber: None,
                        },
                    ),
                    None => None,
                }
            } else {
                None
            }
        },
        None => None,
    }
}

/// What `normalize_remote_mac` yields: the whole Remote-ID parsed as a MAC
/// in any accepted form, re-emitted in canonical dash form.
pub open spec fn spec_normalize_remote_mac(o: Option82V) -> Option<Option82V> {
    match o.remote {
        Some(r) => if spec_mac_parse(r) is Some {
            Some(
                Option82V {
                    circuit: None,
                    remote: Some(spec_mac_canonical(spec_mac_parse(r)->Some_0)),
                    subscriber: None,
                },
            )
        } else {
            None
        },
        None => None,
    }
}

/// Parses the entire Remote-ID as a MAC address and re-emits it in
/// canonical dash form.
pub fn normalize_remote_mac(opt: &Option82) -> (r: Option<Option82>)
    ensures
        crate::types::opt82_view(r) == spec_normalize_remote_mac(opt@),
{
    match &opt.remote {
        Some(s) => match mac_parse(s.as_str()) {
            Some(mac) => Some(
                Option82 {
                    circuit: None,
                    remote: Some(mac_canonical_string(&mac)),
                    subscriber: None,
                },
            ),
            None => None,
        },
        None => None,
    }
}

/// One named Option 82 extractor.
#[derive(Clone, Copy, Debug, PartialEq, Eq)]
pub enum Option82Extractor {
    RemoteOnly,
    RemoteOnlyTrim,
    CircuitOnly,
    CircuitAndRemote,
    SubscriberOnly,
    RemoteFirst12,
    NormalizeRemoteMac,
}

impl Option82Extractor {
    /// What this extractor yields on a given Option 82 value.
    pub open spec fn spec_apply(self, o: Option82V) -> Option<Option82V> {
        match self {
            Option82Extractor::RemoteOnly => spec_remote_only(o),
            Option82Extractor::RemoteOnlyTrim => spec_remote_only_trim(o),
            Option82Extractor::CircuitOnly => spec_circuit_only(o),
            Option82Extractor::CircuitAndRemote => spec_circuit_and_remote(o),
            Option82Extractor::SubscriberOnly => spec_subscriber_only(o),
            Option82Extractor::RemoteFirst12 => spec_remote_first_12(o),
            Option82Extractor::NormalizeRemoteMac => spec_normalize_remote_mac(o),
        }
    }

    /// Applies this extractor.
    pub fn apply(&self, opt: &Option82) -> (r: Option<Option82>)
        ensures
            crate::types::opt82_view(r) == self.spec_apply(opt@),
    {
        match self {
            Option82Extractor::RemoteOnly => remote_only(opt),
            Option82Extractor::RemoteOnlyTrim => remote_only_trim(opt),
            Option82Extractor::CircuitOnly => circuit_only(opt),
            Option82Extractor::CircuitAndRemote => circuit_and_remote(opt),
            Option82Extractor::SubscriberOnly => subscriber_only(opt),
            Option82Extractor::RemoteFirst12 => remote_first_12(opt),
            Option82Extractor::NormalizeRemoteMac => normalize_remote_mac(opt),
        }
    }

    /// This extractor's configuration name.
    pub open spec fn name_spec(self) -> Seq<char> {
        match self {
            Option82Extractor::RemoteOnly => "remote_only"@,
            Option82Extractor::RemoteOnlyTrim => "remote_only_trim"@,
            Option82Extractor::CircuitOnly => "circuit_only"@,
            Option82Extractor::CircuitAndRemote => "circuit_and_remote"@,
            Option82Extractor::SubscriberOnly => "subscriber_only"@,
            Option82Extractor::RemoteFirst12 => "remote_first_12"@,
            Option82Extractor::NormalizeRemoteMac => "normalize_remote_mac"@,
        }
    }

    /// The name this extractor is configured under.
    pub fn name(&self) -> (r: &'static str)
        ensures
            r@ == self.name_spec(),
    {
        match self {
            Option82Extractor::RemoteOnly => "remote_only",
            Option82Extractor::RemoteOnlyTrim => "remote_only_trim",
            Option82Extractor::CircuitOnly => "circuit_only",
            Option82Extractor::CircuitAndRemote => "circuit_and_remote",
            Option82Extractor::SubscriberOnly => "subscriber_only",
            Option82Extractor::RemoteFirst12 => "remote_first_12",
            Option82Extractor::NormalizeRemoteMac => "normalize_remote_mac",
        }
    }

    /// The extractor configured under a name, if the name is known; an
    /// unknown name is a fatal configuration error for the caller.
    pub fn from_name(s: &str) -> (r: Option<Option82Extractor>)
        ensures
            match r {
                Some(e) => e.name_spec() == s@,
                None => forall|e: Option82Extractor| e.name_spec() != s@,
            },
    {
        let all = get_all_extractors();
        for i in 0..all.len()
            invariant
                all@ == all_option82_extractors(),
                forall|j: int| 0 <= j < i ==> (#[trigger] all@[j]).name_spec() != s@,
        {
            if str_eq(all[i].name(), s) {
                return Some(all[i]);
            }
        }
        proof {
            assert forall|e: Option82Extractor| e.name_spec() != s@ by {
                assert(all_option82_extractors().contains(e)) by {
                    let all = all_option82_extractors();
                    match e {
                        Option82Extractor::RemoteOnly => assert(all[0] == e),
                        Option82Extractor::RemoteOnlyTrim => assert(all[1] == e),
                        Option82Extractor::CircuitOnly => assert(all[2] == e),
                        Option82Extractor::CircuitAndRemote => assert(all[3] == e),
                        Option82Extractor::SubscriberOnly => assert(all[4] == e),
                        Option82Extractor::RemoteFirst12 => assert(all[5] == e),
                        Option82Extractor::NormalizeRemoteMac => assert(all[6] == e),
                    }
                }
            }
        }
        None
    }
}

/// Every Option 82 extractor, in registry order.
pub open spec fn all_option82_extractors() -> Seq<Option82Extractor> {
    seq![
        Option82Extractor::RemoteOnly,
        Option82Extractor::RemoteOnlyTrim,
        Option82Extractor::CircuitOnly,
        Option82Extractor::CircuitAndRemote,
        Option82Extractor::SubscriberOnly,
        Option82Extractor::RemoteFirst12,
        Option82Extractor::NormalizeRemoteMac,
    ]
}

/// The registry of Option 82 extractors.
pub fn get_all_extractors() -> (r: Vec<Option82Extractor>)
    ensures
        r@ == all_option82_extractors(),
{
    let mut v: Vec<Option82Extractor> = Vec::new();
    v.push(Option82Extractor::RemoteOnly);
    v.push(Option82Extractor::RemoteOnlyTrim);
    v.push(Option82Extractor::CircuitOnly);
    v.push(Option82Extractor::CircuitAndRemote);
    v.push(Option82Extractor::SubscriberOnly);
    v.push(Option82Extractor::RemoteFirst12);
    v.push(Option82Extractor::NormalizeRemoteMac);
    proof {
        assert(v@ =~= all_option82_extractors());
    }
    v
}

} // verus!
