//! The validated server configuration the handlers consume.

use vstd::prelude::*;

use crate::duid::Duid;
use crate::extractors::Option82Extractor;
use crate::extractors_v6::Option1837Extractor;
use crate::mac_extractors::MacExtractor;
use crate::net::V4Subnet;

verus! {

/// Server-wide configuration: identities, subnets, DNS servers and the
/// ordered extractor pipelines.
pub struct Config {
    pub v4_server_id: u32,
    pub dns_v4: Vec<u32>,
    pub subnets_v4: Vec<V4Subnet>,
    pub v6_server_id: Duid,
    pub option82_extractors: Vec<Option82Extractor>,
    pub option1837_extractors: Vec<Option1837Extractor>,
    pub mac_extractors: Vec<MacExtractor>,
}

/// The abstract value of a [`Config`].
pub struct ConfigV {
    pub v4_server_id: u32,
    pub dns_v4: Seq<u32>,
    pub subnets_v4: Seq<V4Subnet>,
    pub v6_server_id: Seq<u8>,
    pub option82_extractors: Seq<Option82Extractor>,
    pub option1837_extractors: Seq<Option1837Extractor>,
    pub mac_extractors: Seq<MacExtractor>,
}

impl View for Config {
    type V = ConfigV;

    open spec fn view(&self) -> ConfigV {
        ConfigV {
            v4_server_id: self.v4_server_id,
            dns_v4: self.dns_v4@,
            subnets_v4: self.subnets_v4@,
            v6_server_id: self.v6_server_id@,
            option82_extractors: self.option82_extractors@,
            option1837_extractors: self.option1837_extractors@,
            mac_extractors: self.mac_extractors@,
        }
    }
}

impl Config {
    /// A configuration is well formed when every subnet is.
    pub open spec fn wf(self) -> bool {
        forall|i: int| 0 <= i < self.subnets_v4@.len() ==> (#[trigger] self.subnets_v4@[i]).wf()
    }
}

impl Default for Config {
    /// An empty configuration: no subnets, no DNS, no extractors, zero
    /// identities.
    fn default() -> (r: Config)
        ensures
            r.wf(),
            r@.v4_server_id == 0,
            r@.dns_v4 == Seq::<u32>::empty(),
            r@.subnets_v4 == Seq::<V4Subnet>::empty(),
            r@.v6_server_id == Seq::<u8>::empty(),
            r@.option82_extractors == Seq::<Option82Extractor>::empty(),
            r@.option1837_extractors == Seq::<Option1837Extractor>::empty(),
            r@.mac_extractors == Seq::<MacExtractor>::empty(),
    {
        Config {
            v4_server_id: 0,
            dns_v4: Vec::new(),
            subnets_v4: Vec::new(),
            v6_server_id: Duid { bytes: Vec::new() },
            option82_extractors: Vec::new(),
            option1837_extractors: Vec::new(),
            mac_extractors: Vec::new(),
        }
    }
}

} // verus!
