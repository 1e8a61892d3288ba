//! The two Engine Configs: the main engine bundling four column families and
//! engine-wide knobs, and the consensus-log engine bundling one column family
//! and its own knobs. Each builds an engine-wide option object and an ordered
//! list of (column-family name, options) pairs.
//!
//! Engine option-object instances of one process share a default execution
//! environment, so only the main engine sets global background-job
//! parallelism; the consensus-log engine leaves that knob alone.

use vstd::prelude::*;

use crate::cf::{
    CfConfigView, DefaultCfConfig, LockCfConfig, RaftCfConfig, RaftDefaultCfConfig, WriteCfConfig,
};
use crate::engine::{CfOptions, DbOptions, DbOptionsView, RecoveryMode};
use crate::errors::ConfigError;
use crate::paths::{spec_is_absolute, spec_normalize_path, is_absolute, normalize_path};
use crate::units::{ReadableSize, ReadableDuration};
use crate::bytestr::bytes_of;

verus! {

/// The fixed column-family name `default`.
pub open spec fn spec_cf_default() -> Seq<u8> {
    seq![100u8, 101, 102, 97, 117, 108, 116]  // "default"
}

/// Produces the column-family name `default`.
pub fn cf_default() -> (r: Vec<u8>)
    ensures
        r@ == spec_cf_default(),
{
    bytes_of([100u8, 101, 102, 97, 117, 108, 116].as_slice())  // "default"
}

/// The fixed column-family name `lock`.
pub open spec fn spec_cf_lock() -> Seq<u8> {
    seq![108u8, 111, 99, 107]  // "lock"
}

/// Produces the column-family name `lock`.
pub fn cf_lock() -> (r: Vec<u8>)
    ensures
        r@ == spec_cf_lock(),
{
    bytes_of([108u8, 111, 99, 107].as_slice())  // "lock"
}

/// The fixed column-family name `write`.
pub open spec fn spec_cf_write() -> Seq<u8> {
    seq![119u8, 114, 105, 116, 101]  // "write"
}

/// Produces the column-family name `write`.
pub fn cf_write() -> (r: Vec<u8>)
    ensures
        r@ == spec_cf_write(),
{
    bytes_of([119u8, 114, 105, 116, 101].as_slice())  // "write"
}

/// The fixed column-family name `raft`.
pub open spec fn spec_cf_raft() -> Seq<u8> {
    seq![114u8, 97, 102, 116]  // "raft"
}

/// Produces the column-family name `raft`.
pub fn cf_raft() -> (r: Vec<u8>)
    ensures
        r@ == spec_cf_raft(),
{
    bytes_of([114u8, 97, 102, 116].as_slice())  // "raft"
}

/// The main engine's configuration: engine-wide knobs plus the four column families.
#[derive(Debug, Clone, PartialEq)]
pub struct DbConfig {
    pub wal_recovery_mode: RecoveryMode,
    pub wal_dir: Vec<u8>,
    pub wal_ttl_seconds: u64,
    pub wal_size_limit: ReadableSize,
    pub max_total_wal_size: ReadableSize,
    pub max_background_jobs: i32,
    pub max_manifest_file_size: ReadableSize,
    pub create_if_missing: bool,
    pub max_open_files: i32,
    pub enable_statistics: bool,
    pub stats_dump_period: ReadableDuration,
    pub compaction_readahead_size: ReadableSize,
    pub info_log_max_size: ReadableSize,
    pub info_log_roll_time: ReadableDuration,
    pub info_log_dir: Vec<u8>,
    pub rate_bytes_per_sec: ReadableSize,
    pub max_sub_compactions: u32,
    pub writable_file_max_buffer_size: ReadableSize,
    pub use_direct_io_for_flush_and_compaction: bool,
    pub enable_pipelined_write: bool,
    pub backup_dir: Vec<u8>,
    pub defaultcf: DefaultCfConfig,
    pub writecf: WriteCfConfig,
    pub lockcf: LockCfConfig,
    pub raftcf: RaftCfConfig,
}

/// The mathematical value of a [`DbConfig`].
#[verifier::ext_equal]
pub struct DbConfigView {
    pub wal_recovery_mode: RecoveryMode,
    pub wal_dir: Seq<u8>,
    pub wal_ttl_seconds: u64,
    pub wal_size_limit: ReadableSize,
    pub max_total_wal_size: ReadableSize,
    pub max_background_jobs: i32,
    pub max_manifest_file_size: ReadableSize,
    pub create_if_missing: bool,
    pub max_open_files: i32,
    pub enable_statistics: bool,
    pub stats_dump_period: ReadableDuration,
    pub compaction_readahead_size: ReadableSize,
    pub info_log_max_size: ReadableSize,
    pub info_log_roll_time: ReadableDuration,
    pub info_log_dir: Seq<u8>,
    pub rate_bytes_per_sec: ReadableSize,
    pub max_sub_compactions: u32,
    pub writable_file_max_buffer_size: ReadableSize,
    pub use_direct_io_for_flush_and_compaction: bool,
    pub enable_pipelined_write: bool,
    pub backup_dir: Seq<u8>,
    pub defaultcf: CfConfigView,
    pub writecf: CfConfigView,
    pub lockcf: CfConfigView,
    pub raftcf: CfConfigView,
}

impl View for DbConfig {
    type V = DbConfigView;

    open spec fn view(&self) -> DbConfigView {
        DbConfigView {
            wal_recovery_mode: self.wal_recovery_mode,
            wal_dir: self.wal_dir@,
            wal_ttl_seconds: self.wal_ttl_seconds,
            wal_size_limit: self.wal_size_limit,
            max_total_wal_size: self.max_total_wal_size,
            max_background_jobs: self.max_background_jobs,
            max_manifest_file_size: self.max_manifest_file_size,
            create_if_missing: self.create_if_missing,
            max_open_files: self.max_open_files,
            enable_statistics: self.enable_statistics,
            stats_dump_period: self.stats_dump_period,
            compaction_readahead_size: self.compaction_readahead_size,
            info_log_max_size: self.info_log_max_size,
            info_log_roll_time: self.info_log_roll_time,
            info_log_dir: self.info_log_dir@,
            rate_bytes_per_sec: self.rate_bytes_per_sec,
            max_sub_compactions: self.max_sub_compactions,
            writable_file_max_buffer_size: self.writable_file_max_buffer_size,
            use_direct_io_for_flush_and_compaction: self.use_direct_io_for_flush_and_compaction,
            enable_pipelined_write: self.enable_pipelined_write,
            backup_dir: self.backup_dir@,
            defaultcf: self.defaultcf@,
            writecf: self.writecf@,
            lockcf: self.lockcf@,
            raftcf: self.raftcf@,
        }
    }
}

impl DbConfig {
    /// The compiled-in default knobs, given total host memory in bytes.
    pub open spec fn spec_defaults(total_mem_bytes: u64) -> DbConfigView {
        DbConfigView {
            wal_recovery_mode: RecoveryMode::PointInTime,
            wal_dir: Seq::empty(),
            wal_ttl_seconds: 0,
            wal_size_limit: ReadableSize::kb(0),
            max_total_wal_size: ReadableSize::gb(4),
            max_background_jobs: 6,
            max_manifest_file_size: ReadableSize::mb(20),
            create_if_missing: true,
            max_open_files: 40960,
            enable_statistics: true,
            stats_dump_period: ReadableDuration::minutes(10),
            compaction_readahead_size: ReadableSize::kb(0),
            info_log_max_size: ReadableSize::kb(0),
            info_log_roll_time: ReadableDuration::secs(0),
            info_log_dir: Seq::empty(),
            rate_bytes_per_sec: ReadableSize::kb(0),
            max_sub_compactions: 1,
            writable_file_max_buffer_size: ReadableSize::mb(1),
            use_direct_io_for_flush_and_compaction: false,
            enable_pipelined_write: true,
            backup_dir: Seq::empty(),
            defaultcf: DefaultCfConfig::spec_defaults(total_mem_bytes),
            writecf: WriteCfConfig::spec_defaults(total_mem_bytes),
            lockcf: LockCfConfig::spec_defaults(total_mem_bytes),
            raftcf: RaftCfConfig::spec_defaults(),
        }
    }

    pub fn defaults(total_mem_bytes: u64) -> (r: DbConfig)
        ensures
            r@ == Self::spec_defaults(total_mem_bytes),
    {
        let r = DbConfig {
            wal_recovery_mode: RecoveryMode::PointInTime,
            wal_dir: Vec::new(),
            wal_ttl_seconds: 0,
            wal_size_limit: ReadableSize::kb(0),
            max_total_wal_size: ReadableSize::gb(4),
            max_background_jobs: 6,
            max_manifest_file_size: ReadableSize::mb(20),
            create_if_missing: true,
            max_open_files: 40960,
            enable_statistics: true,
            stats_dump_period: ReadableDuration::minutes(10),
            compaction_readahead_size: ReadableSize::kb(0),
            info_log_max_size: ReadableSize::kb(0),
            info_log_roll_time: ReadableDuration::secs(0),
            info_log_dir: Vec::new(),
            rate_bytes_per_sec: ReadableSize::kb(0),
            max_sub_compactions: 1,
            writable_file_max_buffer_size: ReadableSize::mb(1),
            use_direct_io_for_flush_and_compaction: false,
            enable_pipelined_write: true,
            backup_dir: Vec::new(),
            defaultcf: DefaultCfConfig::defaults(total_mem_bytes),
            writecf: WriteCfConfig::defaults(total_mem_bytes),
            lockcf: LockCfConfig::defaults(total_mem_bytes),
            raftcf: RaftCfConfig::defaults(),
        };
        proof {
            assert(r@ =~= Self::spec_defaults(total_mem_bytes));
        }
        r
    }

    /// What the main engine's builder produces.
    ///
    /// The write-ahead-log directory and the info-log directory are set only
    /// when non-empty (empty means the engine's default location); the
    /// statistics dump period only when statistics are enabled; and a rate
    /// limiter only when the configured rate is positive. The option object
    /// is tagged for the main engine.
    pub open spec fn spec_build_opt(c: DbConfigView) -> DbOptionsView {
        DbOptionsView {
            wal_recovery_mode: c.wal_recovery_mode,
            wal_dir: if c.wal_dir.len() == 0 {
                None
            } else {
                Some(c.wal_dir)
            },
            wal_ttl_seconds: c.wal_ttl_seconds,
            wal_size_limit_mb: c.wal_size_limit.spec_as_mb(),
            max_total_wal_size: c.max_total_wal_size.0,
            max_background_jobs: Some(c.max_background_jobs),
            max_manifest_file_size: c.max_manifest_file_size.0,
            create_if_missing: c.create_if_missing,
            max_open_files: c.max_open_files,
            stats_dump_period_secs: if c.enable_statistics {
                Some(c.stats_dump_period.spec_as_secs())
            } else {
                None
            },
            compaction_readahead_size: c.compaction_readahead_size.0,
            max_log_file_size: c.info_log_max_size.0,
            log_file_time_to_roll_secs: c.info_log_roll_time.spec_as_secs(),
            info_log_dir: if c.info_log_dir.len() == 0 {
                None
            } else {
                Some(c.info_log_dir)
            },
            rate_bytes_per_sec: if c.rate_bytes_per_sec.0 > 0 {
                Some(c.rate_bytes_per_sec.0 as i64)
            } else {
                None
            },
            max_subcompactions: c.max_sub_compactions,
            writable_file_max_buffer_size: c.writable_file_max_buffer_size.0 as i32,
            use_direct_io_for_flush_and_compaction: c.use_direct_io_for_flush_and_compaction,
            enable_pipelined_write: c.enable_pipelined_write,
            allow_concurrent_memtable_write: None,
            event_listener_tag: seq![107u8, 118],  // "kv"
        }
    }

    /// Builds the main engine's engine-wide option object.
    ///
    /// A zero configured rate attaches no rate limiter; a positive rate
    /// attaches one with exactly that byte rate.
    pub fn build_opt(&self) -> (r: DbOptions)
        ensures
            r@ == Self::spec_build_opt(self@),
            self.rate_bytes_per_sec.0 == 0 ==> r@.rate_bytes_per_sec is None,
            self.rate_bytes_per_sec.0 > 0 ==> r@.rate_bytes_per_sec == Some(
                self.rate_bytes_per_sec.0 as i64,
            ),
    {
        let r = DbOptions {
            wal_recovery_mode: self.wal_recovery_mode,
            wal_dir: if self.wal_dir.len() == 0 {
                None
            } else {
                Some(bytes_of(self.wal_dir.as_slice()))
            },
            wal_ttl_seconds: self.wal_ttl_seconds,
            wal_size_limit_mb: self.wal_size_limit.as_mb(),
            max_total_wal_size: self.max_total_wal_size.0,
            max_background_jobs: Some(self.max_background_jobs),
            max_manifest_file_size: self.max_manifest_file_size.0,
            create_if_missing: self.create_if_missing,
            max_open_files: self.max_open_files,
            stats_dump_period_secs: if self.enable_statistics {
                Some(self.stats_dump_period.as_secs())
            } else {
                None
            },
            compaction_readahead_size: self.compaction_readahead_size.0,
            max_log_file_size: self.info_log_max_size.0,
            log_file_time_to_roll_secs: self.info_log_roll_time.as_secs(),
            info_log_dir: if self.info_log_dir.len() == 0 {
                None
            } else {
                Some(bytes_of(self.info_log_dir.as_slice()))
            },
            rate_bytes_per_sec: if self.rate_bytes_per_sec.0 > 0 {
                Some(self.rate_bytes_per_sec.0 as i64)
            } else {
                None
            },
            max_subcompactions: self.max_sub_compactions,
            writable_file_max_buffer_size: self.writable_file_max_buffer_size.0 as i32,
            use_direct_io_for_flush_and_compaction: self.use_direct_io_for_flush_and_compaction,
            enable_pipelined_write: self.enable_pipelined_write,
            allow_concurrent_memtable_write: None,
            event_listener_tag: bytes_of([107u8, 118].as_slice()),  // "kv"
        };
        proof {
            assert(r@ =~= Self::spec_build_opt(self@));
        }
        r
    }

    /// Builds the ordered (name, options) pairs of exactly the four fixed
    /// column families, each delegating to its own builder.
    pub fn build_cf_opts(&self) -> (r: Vec<CfOptions>)
        ensures
            r@.len() == 4,
            r@[0]@.cf == spec_cf_default(),
            r@[0]@.options == DefaultCfConfig::spec_build_opt(self.defaultcf@),
            r@[1]@.cf == spec_cf_lock(),
            r@[1]@.options == LockCfConfig::spec_build_opt(self.lockcf@),
            r@[2]@.cf == spec_cf_write(),
            r@[2]@.options == WriteCfConfig::spec_build_opt(self.writecf@),
            r@[3]@.cf == spec_cf_raft(),
            r@[3]@.options == RaftCfConfig::spec_build_opt(self.raftcf@),
    {
        let mut r: Vec<CfOptions> = Vec::new();
        r.push(CfOptions { cf: cf_default(), options: self.defaultcf.build_opt() });
        r.push(CfOptions { cf: cf_lock(), options: self.lockcf.build_opt() });
        r.push(CfOptions { cf: cf_write(), options: self.writecf.build_opt() });
        r.push(CfOptions { cf: cf_raft(), options: self.raftcf.build_opt() });
        r
    }

    /// What validation yields: a set backup directory must be absolute and
    /// is written back in normal form; an empty one is left alone.
    pub open spec fn spec_validate(c: DbConfigView) -> (DbConfigView, Result<(), ConfigError>) {
        if c.backup_dir.len() == 0 {
            (c, Ok(()))
        } else if !spec_is_absolute(c.backup_dir) {
            (c, Err(ConfigError::BackupDirNotAbsolute))
        } else {
            (DbConfigView { backup_dir: spec_normalize_path(c.backup_dir), ..c }, Ok(()))
        }
    }

    /// Normalizes the backup directory, rejecting a relative one.
    pub fn validate(&mut self) -> (r: Result<(), ConfigError>)
        ensures
            ({
                let (c2, res) = Self::spec_validate(old(self)@);
                final(self)@ == c2 && r == res
            }),
    {
        if self.backup_dir.len() == 0 {
            Ok(())
        } else if !is_absolute(self.backup_dir.as_slice()) {
            Err(ConfigError::BackupDirNotAbsolute)
        } else {
            let nb = normalize_path(self.backup_dir.as_slice());
            self.backup_dir = nb;
            proof {
                assert(self@ =~= Self::spec_validate(old(self)@).0);
            }
            Ok(())
        }
    }
}

/// The consensus-log engine's configuration: engine-wide knobs plus its one column family.
#[derive(Debug, Clone, PartialEq)]
pub struct RaftDbConfig {
    pub wal_recovery_mode: RecoveryMode,
    pub wal_dir: Vec<u8>,
    pub wal_ttl_seconds: u64,
    pub wal_size_limit: ReadableSize,
    pub max_total_wal_size: ReadableSize,
    pub max_manifest_file_size: ReadableSize,
    pub create_if_missing: bool,
    pub max_open_files: i32,
    pub enable_statistics: bool,
    pub stats_dump_period: ReadableDuration,
    pub compaction_readahead_size: ReadableSize,
    pub info_log_max_size: ReadableSize,
    pub info_log_roll_time: ReadableDuration,
    pub info_log_dir: Vec<u8>,
    pub max_sub_compactions: u32,
    pub writable_file_max_buffer_size: ReadableSize,
    pub use_direct_io_for_flush_and_compaction: bool,
    pub enable_pipelined_write: bool,
    pub allow_concurrent_memtable_write: bool,
    pub defaultcf: RaftDefaultCfConfig,
}

/// The mathematical value of a [`RaftDbConfig`].
#[verifier::ext_equal]
pub struct RaftDbConfigView {
    pub wal_recovery_mode: RecoveryMode,
    pub wal_dir: Seq<u8>,
    pub wal_ttl_seconds: u64,
    pub wal_size_limit: ReadableSize,
    pub max_total_wal_size: ReadableSize,
    pub max_manifest_file_size: ReadableSize,
    pub create_if_missing: bool,
    pub max_open_files: i32,
    pub enable_statistics: bool,
    pub stats_dump_period: ReadableDuration,
    pub compaction_readahead_size: ReadableSize,
    pub info_log_max_size: ReadableSize,
    pub info_log_roll_time: ReadableDuration,
    pub info_log_dir: Seq<u8>,
    pub max_sub_compactions: u32,
    pub writable_file_max_buffer_size: ReadableSize,
    pub use_direct_io_for_flush_and_compaction: bool,
    pub enable_pipelined_write: bool,
    pub allow_concurrent_memtable_write: bool,
    pub defaultcf: CfConfigView,
}

impl View for RaftDbConfig {
    type V = RaftDbConfigView;

    open spec fn view(&self) -> RaftDbConfigView {
        RaftDbConfigView {
            wal_recovery_mode: self.wal_recovery_mode,
            wal_dir: self.wal_dir@,
            wal_ttl_seconds: self.wal_ttl_seconds,
            wal_size_limit: self.wal_size_limit,
            max_total_wal_size: self.max_total_wal_size,
            max_manifest_file_size: self.max_manifest_file_size,
            create_if_missing: self.create_if_missing,
            max_open_files: self.max_open_files,
            enable_statistics: self.enable_statistics,
            stats_dump_period: self.stats_dump_period,
            compaction_readahead_size: self.compaction_readahead_size,
            info_log_max_size: self.info_log_max_size,
            info_log_roll_time: self.info_log_roll_time,
            info_log_dir: self.info_log_dir@,
            max_sub_compactions: self.max_sub_compactions,
            writable_file_max_buffer_size: self.writable_file_max_buffer_size,
            use_direct_io_for_flush_and_compaction: self.use_direct_io_for_flush_and_compaction,
            enable_pipelined_write: self.enable_pipelined_write,
            allow_concurrent_memtable_write: self.allow_concurrent_memtable_write,
            defaultcf: self.defaultcf@,
        }
    }
}

impl RaftDbConfig {
    /// The compiled-in default knobs, given total host memory in bytes.
    pub open spec fn spec_defaults(total_mem_bytes: u64) -> RaftDbConfigView {
        RaftDbConfigView {
            wal_recovery_mode: RecoveryMode::PointInTime,
            wal_dir: Seq::empty(),
            wal_ttl_seconds: 0,
            wal_size_limit: ReadableSize::kb(0),
            max_total_wal_size: ReadableSize::gb(4),
            max_manifest_file_size: ReadableSize::mb(20),
            create_if_missing: true,
            max_open_files: 40960,
            enable_statistics: true,
            stats_dump_period: ReadableDuration::minutes(10),
            compaction_readahead_size: ReadableSize::kb(0),
            info_log_max_size: ReadableSize::kb(0),
            info_log_roll_time: ReadableDuration::secs(0),
            info_log_dir: Seq::empty(),
            max_sub_compactions: 1,
            writable_file_max_buffer_size: ReadableSize::mb(1),
            use_direct_io_for_flush_and_compaction: false,
            enable_pipelined_write: true,
            allow_concurrent_memtable_write: false,
            defaultcf: RaftDefaultCfConfig::spec_defaults(total_mem_bytes),
        }
    }

    pub fn defaults(total_mem_bytes: u64) -> (r: RaftDbConfig)
        ensures
            r@ == Self::spec_defaults(total_mem_bytes),
    {
        let r = RaftDbConfig {
            wal_recovery_mode: RecoveryMode::PointInTime,
            wal_dir: Vec::new(),
            wal_ttl_seconds: 0,
            wal_size_limit: ReadableSize::kb(0),
            max_total_wal_size: ReadableSize::gb(4),
            max_manifest_file_size: ReadableSize::mb(20),
            create_if_missing: true,
            max_open_files: 40960,
            enable_statistics: true,
            stats_dump_period: ReadableDuration::minutes(10),
            compaction_readahead_size: ReadableSize::kb(0),
            info_log_max_size: ReadableSize::kb(0),
            info_log_roll_time: ReadableDuration::secs(0),
            info_log_dir: Vec::new(),
            max_sub_compactions: 1,
            writable_file_max_buffer_size: ReadableSize::mb(1),
            use_direct_io_for_flush_and_compaction: false,
            enable_pipelined_write: true,
            allow_concurrent_memtable_write: false,
            defaultcf: RaftDefaultCfConfig::defaults(total_mem_bytes),
        };
        proof {
            assert(r@ =~= Self::spec_defaults(total_mem_bytes));
        }
        r
    }

    /// What the consensus-log engine's builder produces.
    ///
    /// The same shape as the main engine's builder, minus the rate limiter
    /// and background-job parallelism, plus the concurrent-memtable-write
    /// toggle. The option object is tagged for the consensus-log engine.
    pub open spec fn spec_build_opt(c: RaftDbConfigView) -> DbOptionsView {
        DbOptionsView {
            wal_recovery_mode: c.wal_recovery_mode,
            wal_dir: if c.wal_dir.len() == 0 {
                None
            } else {
                Some(c.wal_dir)
            },
            wal_ttl_seconds: c.wal_ttl_seconds,
            wal_size_limit_mb: c.wal_size_limit.spec_as_mb(),
            max_total_wal_size: c.max_total_wal_size.0,
            max_background_jobs: None,
            max_manifest_file_size: c.max_manifest_file_size.0,
            create_if_missing: c.create_if_missing,
            max_open_files: c.max_open_files,
            stats_dump_period_secs: if c.enable_statistics {
                Some(c.stats_dump_period.spec_as_secs())
            } else {
                None
            },
            compaction_readahead_size: c.compaction_readahead_size.0,
            max_log_file_size: c.info_log_max_size.0,
            log_file_time_to_roll_secs: c.info_log_roll_time.spec_as_secs(),
            info_log_dir: if c.info_log_dir.len() == 0 {
                None
            } else {
                Some(c.info_log_dir)
            },
            rate_bytes_per_sec: None,
            max_subcompactions: c.max_sub_compactions,
            writable_file_max_buffer_size: c.writable_file_max_buffer_size.0 as i32,
            use_direct_io_for_flush_and_compaction: c.use_direct_io_for_flush_and_compaction,
            enable_pipelined_write: c.enable_pipelined_write,
            allow_concurrent_memtable_write: Some(c.allow_concurrent_memtable_write),
            event_listener_tag: seq![114u8, 97, 102, 116],  // "raft"
        }
    }

    /// Builds the consensus-log engine's engine-wide option object.
    pub fn build_opt(&self) -> (r: DbOptions)
        ensures
            r@ == Self::spec_build_opt(self@),
    {
        let r = DbOptions {
            wal_recovery_mode: self.wal_recovery_mode,
            wal_dir: if self.wal_dir.len() == 0 {
                None
            } else {
                Some(bytes_of(self.wal_dir.as_slice()))
            },
            wal_ttl_seconds: self.wal_ttl_seconds,
            wal_size_limit_mb: self.wal_size_limit.as_mb(),
            max_total_wal_size: self.max_total_wal_size.0,
            max_background_jobs: None,
            max_manifest_file_size: self.max_manifest_file_size.0,
            create_if_missing: self.create_if_missing,
            max_open_files: self.max_open_files,
            stats_dump_period_secs: if self.enable_statistics {
                Some(self.stats_dump_period.as_secs())
            } else {
                None
            },
            compaction_readahead_size: self.compaction_readahead_size.0,
            max_log_file_size: self.info_log_max_size.0,
            log_file_time_to_roll_secs: self.info_log_roll_time.as_secs(),
            info_log_dir: if self.info_log_dir.len() == 0 {
                None
            } else {
                Some(bytes_of(self.info_log_dir.as_slice()))
            },
            rate_bytes_per_sec: None,
            max_subcompactions: self.max_sub_compactions,
            writable_file_max_buffer_size: self.writable_file_max_buffer_size.0 as i32,
            use_direct_io_for_flush_and_compaction: self.use_direct_io_for_flush_and_compaction,
            enable_pipelined_write: self.enable_pipelined_write,
            allow_concurrent_memtable_write: Some(self.allow_concurrent_memtable_write),
            event_listener_tag: bytes_of([114u8, 97, 102, 116].as_slice()),  // "raft"
        };
        proof {
            assert(r@ =~= Self::spec_build_opt(self@));
        }
        r
    }

    /// Builds the one (name, options) pair of the consensus-log engine.
    pub fn build_cf_opts(&self) -> (r: Vec<CfOptions>)
        ensures
            r@.len() == 1,
            r@[0]@.cf == spec_cf_default(),
            r@[0]@.options == RaftDefaultCfConfig::spec_build_opt(self.defaultcf@),
    {
        let mut r: Vec<CfOptions> = Vec::new();
        r.push(CfOptions { cf: cf_default(), options: self.defaultcf.build_opt() });
        r
    }
}

} // verus!
