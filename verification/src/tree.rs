//! The top-level configuration tree and its validation pass.
//!
//! The tree is built once from defaults, overridden by the user's document,
//! validated exactly once (deriving a small number of path fields in place
//! and failing fast on inconsistency), and read-only afterwards.

use vstd::prelude::*;

use crate::db::{DbConfig, DbConfigView, RaftDbConfig, RaftDbConfigView};
use crate::errors::ConfigError;
use crate::memory::host_memory_total_bytes;
use crate::paths::{spec_join_path, spec_normalize_path, join_path, normalize_path};
use crate::satellites::{
    spec_default_data_dir, spec_kv_db_sub_dir, spec_raft_sub_dir, MetricConfig, MetricConfigView,
    PdConfig, PdConfigView, RaftstoreConfig, RaftstoreConfigView, ServerConfig, ServerConfigView,
    StorageConfig, StorageConfigView,
};
use crate::bytestr::{bytes_eq, bytes_of};

verus! {

/// The process-wide logging threshold.
#[derive(Debug, Clone, Copy, PartialEq, Eq, Structural)]
pub enum LogLevel {
    Info,
    Trace,
    Debug,
    Warn,
    Error,
    Off,
}

/// The textual name of a logging threshold.
pub open spec fn spec_log_level_name(l: LogLevel) -> Seq<u8> {
    match l {
        LogLevel::Info => seq![105u8, 110, 102, 111],  // "info"
        LogLevel::Trace => seq![116u8, 114, 97, 99, 101],  // "trace"
        LogLevel::Debug => seq![100u8, 101, 98, 117, 103],  // "debug"
        LogLevel::Warn => seq![119u8, 97, 114, 110],  // "warn"
        LogLevel::Error => seq![101u8, 114, 114, 111, 114],  // "error"
        LogLevel::Off => seq![111u8, 102, 102],  // "off"
    }
}

/// The logging threshold a textual name denotes, if any.
pub open spec fn spec_log_level_from_name(s: Seq<u8>) -> Option<LogLevel> {
    if s == spec_log_level_name(LogLevel::Info) {
        Some(LogLevel::Info)
    } else if s == spec_log_level_name(LogLevel::Trace) {
        Some(LogLevel::Trace)
    } else if s == spec_log_level_name(LogLevel::Debug) {
        Some(LogLevel::Debug)
    } else if s == spec_log_level_name(LogLevel::Warn) {
        Some(LogLevel::Warn)
    } else if s == spec_log_level_name(LogLevel::Error) {
        Some(LogLevel::Error)
    } else if s == spec_log_level_name(LogLevel::Off) {
        Some(LogLevel::Off)
    } else {
        None
    }
}

pub fn log_level_name(l: LogLevel) -> (r: Vec<u8>)
    ensures
        r@ == spec_log_level_name(l),
{
    match l {
        LogLevel::Info => bytes_of([105u8, 110, 102, 111].as_slice()),  // "info"
        LogLevel::Trace => bytes_of([116u8, 114, 97, 99, 101].as_slice()),  // "trace"
        LogLevel::Debug => bytes_of([100u8, 101, 98, 117, 103].as_slice()),  // "debug"
        LogLevel::Warn => bytes_of([119u8, 97, 114, 110].as_slice()),  // "warn"
        LogLevel::Error => bytes_of([101u8, 114, 114, 111, 114].as_slice()),  // "error"
        LogLevel::Off => bytes_of([111u8, 102, 102].as_slice()),  // "off"
    }
}

pub fn log_level_from_name(s: &[u8]) -> (r: Option<LogLevel>)
    ensures
        r == spec_log_level_from_name(s@),
{
    if bytes_eq(s, [105u8, 110, 102, 111].as_slice()) {
        Some(LogLevel::Info)
    } else if bytes_eq(s, [116u8, 114, 97, 99, 101].as_slice()) {
        Some(LogLevel::Trace)
    } else if bytes_eq(s, [100u8, 101, 98, 117, 103].as_slice()) {
        Some(LogLevel::Debug)
    } else if bytes_eq(s, [119u8, 97, 114, 110].as_slice()) {
        Some(LogLevel::Warn)
    } else if bytes_eq(s, [101u8, 114, 114, 111, 114].as_slice()) {
        Some(LogLevel::Error)
    } else if bytes_eq(s, [111u8, 102, 102].as_slice()) {
        Some(LogLevel::Off)
    } else {
        None
    }
}

/// The name of a logging threshold reads back as that threshold.
pub proof fn lemma_log_level_name_round_trip(l: LogLevel)
    ensures
        spec_log_level_from_name(spec_log_level_name(l)) == Some(l),
{
    match l {
        LogLevel::Info => {
            assert(spec_log_level_from_name(spec_log_level_name(l)) == Some(l));
        },
        LogLevel::Trace => {
            assert(spec_log_level_from_name(spec_log_level_name(l)) == Some(l));
        },
        LogLevel::Debug => {
            assert(spec_log_level_name(LogLevel::Trace)[0]
                != spec_log_level_name(LogLevel::Debug)[0]);
            assert(spec_log_level_from_name(spec_log_level_name(l)) == Some(l));
        },
        LogLevel::Warn => {
            assert(spec_log_level_name(LogLevel::Info)[0] != spec_log_level_name(LogLevel::Warn)[0]);
            assert(spec_log_level_from_name(spec_log_level_name(l)) == Some(l));
        },
        LogLevel::Error => {
            assert(spec_log_level_name(LogLevel::Trace)[0]
                != spec_log_level_name(LogLevel::Error)[0]);
            assert(spec_log_level_name(LogLevel::Debug)[0]
                != spec_log_level_name(LogLevel::Error)[0]);
            assert(spec_log_level_from_name(spec_log_level_name(l)) == Some(l));
        },
        LogLevel::Off => {
            assert(spec_log_level_from_name(spec_log_level_name(l)) == Some(l));
        },
    }
}

/// The top-level configuration tree.
#[derive(Debug, Clone, PartialEq)]
pub struct TiKvConfig {
    pub log_level: LogLevel,
    pub log_file: Vec<u8>,
    pub server: ServerConfig,
    pub storage: StorageConfig,
    pub pd: PdConfig,
    pub metric: MetricConfig,
    pub raft_store: RaftstoreConfig,
    pub rocksdb: DbConfig,
    pub raftdb: RaftDbConfig,
}

/// The mathematical value of a [`TiKvConfig`].
#[verifier::ext_equal]
pub struct TiKvConfigView {
    pub log_level: LogLevel,
    pub log_file: Seq<u8>,
    pub server: ServerConfigView,
    pub storage: StorageConfigView,
    pub pd: PdConfigView,
    pub metric: MetricConfigView,
    pub raft_store: RaftstoreConfigView,
    pub rocksdb: DbConfigView,
    pub raftdb: RaftDbConfigView,
}

impl View for TiKvConfig {
    type V = TiKvConfigView;

    open spec fn view(&self) -> TiKvConfigView {
        TiKvConfigView {
            log_level: self.log_level,
            log_file: self.log_file@,
            server: self.server@,
            storage: self.storage@,
            pd: self.pd@,
            metric: self.metric@,
            raft_store: self.raft_store@,
            rocksdb: self.rocksdb@,
            raftdb: self.raftdb@,
        }
    }
}

impl TiKvConfig {
    /// The compiled-in default tree, given total host memory in bytes.
    pub open spec fn spec_defaults(total_mem_bytes: u64) -> TiKvConfigView {
        TiKvConfigView {
            log_level: LogLevel::Info,
            log_file: Seq::empty(),
            server: ServerConfig::spec_defaults(),
            storage: StorageConfig::spec_defaults(),
            pd: PdConfig::spec_defaults(),
            metric: MetricConfig::spec_defaults(),
            raft_store: RaftstoreConfig::spec_defaults(),
            rocksdb: DbConfig::spec_defaults(total_mem_bytes),
            raftdb: RaftDbConfig::spec_defaults(total_mem_bytes),
        }
    }

    pub fn defaults(total_mem_bytes: u64) -> (r: TiKvConfig)
        ensures
            r@ == Self::spec_defaults(total_mem_bytes),
    {
        let r = TiKvConfig {
            log_level: LogLevel::Info,
            log_file: Vec::new(),
            server: ServerConfig::defaults(),
            storage: StorageConfig::defaults(),
            pd: PdConfig::defaults(),
            metric: MetricConfig::defaults(),
            raft_store: RaftstoreConfig::defaults(),
            rocksdb: DbConfig::defaults(total_mem_bytes),
            raftdb: RaftDbConfig::defaults(total_mem_bytes),
        };
        proof {
            assert(r@ =~= Self::spec_defaults(total_mem_bytes));
        }
        r
    }

    /// Queries the host once for its total memory and builds the default
    /// tree from it; yields the memory total alongside the tree.
    pub fn defaults_from_host() -> (r: Option<(u64, TiKvConfig)>)
        ensures
            r matches Some(p) ==> p.1@ == Self::spec_defaults(p.0),
    {
        match host_memory_total_bytes() {
            None => None,
            Some(total) => Some((total, Self::defaults(total))),
        }
    }

    /// The tree after the validation pass's derivation steps: an empty
    /// backup directory is derived as `backup` under a non-placeholder data
    /// directory, and the consensus-log engine path is derived as `raft`
    /// under the data directory when unset, or brought to normal form when
    /// set.
    #[verifier::opaque]
    pub open spec fn spec_derived(t: TiKvConfigView) -> TiKvConfigView {
        let t1 = if t.rocksdb.backup_dir.len() == 0 && t.storage.data_dir
            != spec_default_data_dir() {
            TiKvConfigView {
                rocksdb: DbConfigView {
                    backup_dir: spec_join_path(
                        t.storage.data_dir,
                        seq![98u8, 97, 99, 107, 117, 112],
                    ),  // "backup"
                    ..t.rocksdb
                },
                ..t
            }
        } else {
            t
        };
        let raft_path = if t1.raft_store.raftdb_path.len() == 0 {
            spec_join_path(t1.storage.data_dir, spec_raft_sub_dir())
        } else {
            spec_normalize_path(t1.raft_store.raftdb_path)
        };
        TiKvConfigView { raft_store: RaftstoreConfigView { raftdb_path: raft_path }, ..t1 }
    }

    /// Performs the derivation steps in place.
    fn apply_derivations(&mut self)
        ensures
            final(self)@ == Self::spec_derived(old(self)@),
    {
        proof {
            reveal(TiKvConfig::spec_derived);
        }
        if self.rocksdb.backup_dir.len() == 0 && !bytes_eq(
            self.storage.data_dir.as_slice(),
            [47u8, 116, 109, 112, 47, 116, 105, 107, 118, 47, 115, 116, 111, 114, 101].as_slice(),  // "/tmp/tikv/store"
        ) {
            let backup = join_path(
                self.storage.data_dir.as_slice(),
                [98u8, 97, 99, 107, 117, 112].as_slice(),  // "backup"
            );
            self.rocksdb.backup_dir = backup;
        }
        let ghost t1 = self@;
        let raft_path = if self.raft_store.raftdb_path.len() == 0 {
            join_path(
                self.storage.data_dir.as_slice(),
                [114u8, 97, 102, 116].as_slice(),  // "raft"
            )
        } else {
            normalize_path(self.raft_store.raftdb_path.as_slice())
        };
        self.raft_store.raftdb_path = raft_path;
    }

    /// What the validation pass yields: the tree after its derivation steps,
    /// and the first failure if any.
    ///
    /// In order: the storage subtree is validated; the backup and
    /// consensus-log paths are derived ([`Self::spec_derived`]); a collision
    /// of the consensus-log path with the main engine's derived subdirectory
    /// fails; inconsistent on-disk presence of the two engines fails; the
    /// main engine's own validation runs; then the server and
    /// coordination-endpoint checks.
    pub open spec fn spec_validate(t: TiKvConfigView, kv_data_exists: bool, raft_data_exists: bool)
        -> (TiKvConfigView, Result<(), ConfigError>) {
        match StorageConfig::spec_validate(t.storage) {
            Err(e) => (t, Err(e)),
            Ok(()) => {
                let t2 = Self::spec_derived(t);
                let kv_db_path = spec_join_path(t2.storage.data_dir, spec_kv_db_sub_dir());
                if kv_db_path == t2.raft_store.raftdb_path {
                    (t2, Err(ConfigError::RaftDbPathConflict))
                } else if kv_data_exists && !raft_data_exists {
                    (t2, Err(ConfigError::KvEngineExistsWithoutRaftEngine))
                } else if !kv_data_exists && raft_data_exists {
                    (t2, Err(ConfigError::RaftEngineExistsWithoutKvEngine))
                } else {
                    let (db2, dbres) = DbConfig::spec_validate(t2.rocksdb);
                    let t3 = TiKvConfigView { rocksdb: db2, ..t2 };
                    match dbres {
                        Err(e) => (t3, Err(e)),
                        Ok(()) => match ServerConfig::spec_validate(t3.server) {
                            Err(e) => (t3, Err(e)),
                            Ok(()) => match PdConfig::spec_validate(t3.pd) {
                                Err(e) => (t3, Err(e)),
                                Ok(()) => (t3, Ok(())),
                            },
                        },
                    }
                }
            },
        }
    }

    /// Runs the validation pass once, writing derived paths back into the
    /// tree and stopping at the first failure.
    ///
    /// The caller supplies whether each engine's data is present on disk.
    /// On success the consensus-log path differs from the main engine's
    /// derived subdirectory, and the two engines' on-disk presence agrees.
    #[verifier::spinoff_prover]
    pub fn validate(&mut self, kv_data_exists: bool, raft_data_exists: bool) -> (r: Result<
        (),
        ConfigError,
    >)
        ensures
            ({
                let (t2, res) = Self::spec_validate(old(self)@, kv_data_exists, raft_data_exists);
                final(self)@ == t2 && r == res
            }),
            r is Ok ==> final(self)@.raft_store.raftdb_path != spec_join_path(
                final(self)@.storage.data_dir,
                spec_kv_db_sub_dir(),
            ),
            r is Ok ==> kv_data_exists == raft_data_exists,
    {
        match self.storage.validate() {
            Err(e) => {
                return Err(e);
            },
            Ok(()) => {},
        }
        self.apply_derivations();
        let kv_db_path = join_path(
            self.storage.data_dir.as_slice(),
            [100u8, 98].as_slice(),  // "db"
        );
        if bytes_eq(kv_db_path.as_slice(), self.raft_store.raftdb_path.as_slice()) {
            return Err(ConfigError::RaftDbPathConflict);
        }
        if kv_data_exists && !raft_data_exists {
            return Err(ConfigError::KvEngineExistsWithoutRaftEngine);
        }
        if !kv_data_exists && raft_data_exists {
            return Err(ConfigError::RaftEngineExistsWithoutKvEngine);
        }
        let dbres = self.rocksdb.validate();
        match dbres {
            Err(e) => {
                return Err(e);
            },
            Ok(()) => {},
        }
        match self.server.validate() {
            Err(e) => {
                return Err(e);
            },
            Ok(()) => {},
        }
        match self.pd.validate() {
            Err(e) => {
                return Err(e);
            },
            Ok(()) => {},
        }
        Ok(())
    }
}

} // verus!
