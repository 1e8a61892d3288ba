//! Satellite configurations with a narrow validated surface: the server
//! addresses, the storage data directory, the consensus subsystem's engine
//! path, the coordination-service endpoints, and the metrics push settings.

use vstd::prelude::*;

use crate::errors::ConfigError;
use crate::paths::{spec_valid_addr, check_addr};
use crate::units::ReadableDuration;
use crate::bytestr::bytes_of;

verus! {

/// The engine-wide placeholder data directory; a deployment that keeps it
/// gets no derived backup directory.
pub open spec fn spec_default_data_dir() -> Seq<u8> {
    seq![47u8, 116, 109, 112, 47, 116, 105, 107, 118, 47, 115, 116, 111, 114, 101]  // "/tmp/tikv/store"
}

/// Produces the placeholder data directory.
pub fn default_data_dir() -> (r: Vec<u8>)
    ensures
        r@ == spec_default_data_dir(),
{
    bytes_of([47u8, 116, 109, 112, 47, 116, 105, 107, 118, 47, 115, 116, 111, 114, 101].as_slice())  // "/tmp/tikv/store"
}

/// The fixed name of the main engine's on-disk subdirectory.
pub open spec fn spec_kv_db_sub_dir() -> Seq<u8> {
    seq![100u8, 98]  // "db"
}

/// The fixed name of the consensus-log engine's on-disk subdirectory.
pub open spec fn spec_raft_sub_dir() -> Seq<u8> {
    seq![114u8, 97, 102, 116]  // "raft"
}

/// Network configuration of the serving process; only address syntax is
/// validated here.
#[derive(Debug, Clone, PartialEq)]
pub struct ServerConfig {
    pub addr: Vec<u8>,
    pub advertise_addr: Vec<u8>,
}

/// The mathematical value of a [`ServerConfig`].
#[verifier::ext_equal]
pub struct ServerConfigView {
    pub addr: Seq<u8>,
    pub advertise_addr: Seq<u8>,
}

impl View for ServerConfig {
    type V = ServerConfigView;

    open spec fn view(&self) -> ServerConfigView {
        ServerConfigView { addr: self.addr@, advertise_addr: self.advertise_addr@ }
    }
}

impl ServerConfig {
    /// The compiled-in defaults: a loopback listen address and no
    /// advertised address.
    pub open spec fn spec_defaults() -> ServerConfigView {
        ServerConfigView {
            addr: seq![49u8, 50, 55, 46, 48, 46, 48, 46, 49, 58, 50, 48, 49, 54, 48],  // "127.0.0.1:20160"
            advertise_addr: Seq::empty(),
        }
    }

    pub fn defaults() -> (r: ServerConfig)
        ensures
            r@ == Self::spec_defaults(),
    {
        let r = ServerConfig {
            addr: bytes_of([49u8, 50, 55, 46, 48, 46, 48, 46, 49, 58, 50, 48, 49, 54, 48].as_slice()),  // "127.0.0.1:20160"
            advertise_addr: Vec::new(),
        };
        proof {
            assert(r@ =~= Self::spec_defaults());
        }
        r
    }

    /// What validation yields: the listen address must parse; the advertised
    /// address must be empty or parse.
    pub open spec fn spec_validate(s: ServerConfigView) -> Result<(), ConfigError> {
        if !spec_valid_addr(s.addr) {
            Err(ConfigError::BadAddr)
        } else if s.advertise_addr.len() > 0 && !spec_valid_addr(s.advertise_addr) {
            Err(ConfigError::BadAdvertiseAddr)
        } else {
            Ok(())
        }
    }

    /// Validates the address syntax.
    pub fn validate(&self) -> (r: Result<(), ConfigError>)
        ensures
            r == Self::spec_validate(self@),
    {
        if !check_addr(self.addr.as_slice()) {
            Err(ConfigError::BadAddr)
        } else if self.advertise_addr.len() > 0 && !check_addr(self.advertise_addr.as_slice()) {
            Err(ConfigError::BadAdvertiseAddr)
        } else {
            Ok(())
        }
    }
}

/// Storage configuration; only the data directory is consumed here.
#[derive(Debug, Clone, PartialEq)]
pub struct StorageConfig {
    pub data_dir: Vec<u8>,
}

/// The mathematical value of a [`StorageConfig`].
#[verifier::ext_equal]
pub struct StorageConfigView {
    pub data_dir: Seq<u8>,
}

impl View for StorageConfig {
    type V = StorageConfigView;

    open spec fn view(&self) -> StorageConfigView {
        StorageConfigView { data_dir: self.data_dir@ }
    }
}

impl StorageConfig {
    /// The compiled-in default: the placeholder data directory.
    pub open spec fn spec_defaults() -> StorageConfigView {
        StorageConfigView { data_dir: spec_default_data_dir() }
    }

    pub fn defaults() -> (r: StorageConfig)
        ensures
            r@ == Self::spec_defaults(),
    {
        let r = StorageConfig { data_dir: default_data_dir() };
        proof {
            assert(r@ =~= Self::spec_defaults());
        }
        r
    }

    /// What validation yields: an empty data directory is rejected.
    pub open spec fn spec_validate(s: StorageConfigView) -> Result<(), ConfigError> {
        if s.data_dir.len() == 0 {
            Err(ConfigError::EmptyDataDir)
        } else {
            Ok(())
        }
    }

    /// Rejects an empty data directory.
    pub fn validate(&self) -> (r: Result<(), ConfigError>)
        ensures
            r == Self::spec_validate(self@),
    {
        if self.data_dir.len() == 0 {
            Err(ConfigError::EmptyDataDir)
        } else {
            Ok(())
        }
    }
}

/// Consensus subsystem configuration; only the engine path is consumed here.
#[derive(Debug, Clone, PartialEq)]
pub struct RaftstoreConfig {
    pub raftdb_path: Vec<u8>,
}

/// The mathematical value of a [`RaftstoreConfig`].
#[verifier::ext_equal]
pub struct RaftstoreConfigView {
    pub raftdb_path: Seq<u8>,
}

impl View for RaftstoreConfig {
    type V = RaftstoreConfigView;

    open spec fn view(&self) -> RaftstoreConfigView {
        RaftstoreConfigView { raftdb_path: self.raftdb_path@ }
    }
}

impl RaftstoreConfig {
    /// The compiled-in default: an unset path, derived during validation.
    pub open spec fn spec_defaults() -> RaftstoreConfigView {
        RaftstoreConfigView { raftdb_path: Seq::empty() }
    }

    pub fn defaults() -> (r: RaftstoreConfig)
        ensures
            r@ == Self::spec_defaults(),
    {
        let r = RaftstoreConfig { raftdb_path: Vec::new() };
        proof {
            assert(r@ =~= Self::spec_defaults());
        }
        r
    }
}

/// The coordination-service endpoint list.
#[derive(Debug, Clone, PartialEq)]
pub struct PdConfig {
    pub endpoints: Vec<Vec<u8>>,
}

/// The mathematical value of a [`PdConfig`].
#[verifier::ext_equal]
pub struct PdConfigView {
    pub endpoints: Seq<Seq<u8>>,
}

impl View for PdConfig {
    type V = PdConfigView;

    open spec fn view(&self) -> PdConfigView {
        PdConfigView { endpoints: self.endpoints.deep_view() }
    }
}

impl PdConfig {
    /// The compiled-in default: no endpoints (validation then fails until
    /// the operator supplies some).
    pub open spec fn spec_defaults() -> PdConfigView {
        PdConfigView { endpoints: Seq::empty() }
    }

    pub fn defaults() -> (r: PdConfig)
        ensures
            r@ == Self::spec_defaults(),
    {
        let r = PdConfig { endpoints: Vec::new() };
        proof {
            assert(r@.endpoints =~= Seq::<Seq<u8>>::empty());
            assert(r@ =~= Self::spec_defaults());
        }
        r
    }

    /// What validation yields: an empty list is rejected, and so is any
    /// entry that does not parse as a network address.
    pub open spec fn spec_validate(p: PdConfigView) -> Result<(), ConfigError> {
        if p.endpoints.len() == 0 {
            Err(ConfigError::EmptyEndpoints)
        } else if forall|i: int|
            0 <= i < p.endpoints.len() ==> spec_valid_addr(#[trigger] p.endpoints[i]) {
            Ok(())
        } else {
            Err(ConfigError::BadEndpoint)
        }
    }

    /// Rejects an empty endpoint list and malformed endpoint addresses.
    pub fn validate(&self) -> (r: Result<(), ConfigError>)
        ensures
            r == Self::spec_validate(self@),
    {
        if self.endpoints.len() == 0 {
            return Err(ConfigError::EmptyEndpoints);
        }
        let mut i: usize = 0;
        while i < self.endpoints.len()
            invariant
                0 <= i <= self.endpoints@.len(),
                forall|j: int|
                    0 <= j < i ==> spec_valid_addr(#[trigger] self@.endpoints[j]),
            decreases self.endpoints@.len() - i,
        {
            proof {
                assert(self@.endpoints[i as int] == self.endpoints@[i as int]@);
            }
            if !check_addr(self.endpoints[i].as_slice()) {
                proof {
                    assert(!spec_valid_addr(self@.endpoints[i as int]));
                }
                return Err(ConfigError::BadEndpoint);
            }
            i = i + 1;
        }
        Ok(())
    }
}

/// Metrics push settings.
#[derive(Debug, Clone, PartialEq)]
pub struct MetricConfig {
    pub interval: ReadableDuration,
    pub address: Vec<u8>,
    pub job: Vec<u8>,
}

/// The mathematical value of a [`MetricConfig`].
#[verifier::ext_equal]
pub struct MetricConfigView {
    pub interval: ReadableDuration,
    pub address: Seq<u8>,
    pub job: Seq<u8>,
}

impl View for MetricConfig {
    type V = MetricConfigView;

    open spec fn view(&self) -> MetricConfigView {
        MetricConfigView { interval: self.interval, address: self.address@, job: self.job@ }
    }
}

impl MetricConfig {
    /// The compiled-in defaults: a fifteen-second interval, no push address,
    /// and the store's own job name.
    pub open spec fn spec_defaults() -> MetricConfigView {
        MetricConfigView {
            interval: ReadableDuration::secs(15),
            address: Seq::empty(),
            job: seq![116u8, 105, 107, 118],  // "tikv"
        }
    }

    pub fn defaults() -> (r: MetricConfig)
        ensures
            r@ == Self::spec_defaults(),
    {
        let r = MetricConfig {
            interval: ReadableDuration::secs(15),
            address: Vec::new(),
            job: bytes_of([116u8, 105, 107, 118].as_slice()),  // "tikv"
        };
        proof {
            assert(r@ =~= Self::spec_defaults());
        }
        r
    }
}

} // verus!
