//! How a reservation was matched, for the event pipeline.

use vstd::prelude::*;

use crate::extractors::Option82Extractor;
use crate::mac_extractors::MacExtractor;
use vstd::string::StringExecFns;

verus! {

/// The method by which the resolver found a reservation.
#[derive(Clone, Copy, Debug, PartialEq, Eq)]
pub enum ReservationMatch {
    /// Looked up directly by the client's MAC address.
    Mac,
    /// Looked up by an extracted Option 82 key; carries the extractor.
    Option82(Option82Extractor),
    /// Looked up directly by the client's DUID.
    Duid,
    /// Looked up by an extracted Option 18/37 key; carries the extractor.
    Option1837(crate::extractors_v6::Option1837Extractor),
    /// Looked up by a MAC taken from the relay message; carries the method.
    MacExtracted(MacExtractor),
    /// Looked up by the Option 82 value remembered for an extracted MAC.
    Option82LeaseFallback,
}

impl ReservationMatch {
    /// The method name recorded in events.
    pub open spec fn method_spec(self) -> Seq<char> {
        match self {
            ReservationMatch::Mac => "mac"@,
            ReservationMatch::Option82(e) => "option82:"@ + e.name_spec(),
            ReservationMatch::Duid => "duid"@,
            ReservationMatch::Option1837(e) => "option1837:"@ + e.name_spec(),
            ReservationMatch::MacExtracted(e) => "mac:"@ + e.name_spec(),
            ReservationMatch::Option82LeaseFallback => "option82:lease_fallback"@,
        }
    }

    /// Renders the method name recorded in events.
    pub fn method(&self) -> (r: String)
        ensures
            r@ == self.method_spec(),
    {
        match self {
            ReservationMatch::Mac => String::from_str("mac"),
            ReservationMatch::Option82(e) => String::from_str("option82:").concat(e.name()),
            ReservationMatch::Duid => String::from_str("duid"),
            ReservationMatch::Option1837(e) => String::from_str("option1837:").concat(e.name()),
            ReservationMatch::MacExtracted(e) => String::from_str("mac:").concat(e.name()),
            ReservationMatch::Option82LeaseFallback => String::from_str("option82:lease_fallback"),
        }
    }
}

} // verus!
