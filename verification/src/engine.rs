//! A model of the storage engine's option surface.
//!
//! The engine itself is an external collaborator consumed only through an
//! options-acceptance interface, so the option objects its open routine takes
//! are modelled here as plain data: every knob a builder sets is a field, and
//! a knob the builder leaves alone is `None`. Registered collectors and
//! extractors are carried by their stable names.

use vstd::prelude::*;

verus! {

/// A per-level compression codec.
#[derive(Debug, Clone, Copy, PartialEq, Eq, Structural)]
pub enum CompressionType {
    No,
    Snappy,
    Zlib,
    Bz2,
    Lz4,
    Lz4hc,
    Zstd,
}

/// The write-ahead-log recovery mode of an engine.
#[derive(Debug, Clone, Copy, PartialEq, Eq, Structural)]
pub enum RecoveryMode {
    TolerateCorruptedTailRecords,
    AbsoluteConsistency,
    PointInTime,
    SkipAnyCorruptedRecords,
}

/// The priority rule by which compaction picks files.
#[derive(Debug, Clone, Copy, PartialEq, Eq, Structural)]
pub enum CompactionPriority {
    ByCompensatedSize,
    OldestLargestSeqFirst,
    OldestSmallestSeqFirst,
    MinOverlappingRatio,
}

/// A table-properties collector attached to a column family.
#[derive(Debug, Clone, Copy, PartialEq, Eq, Structural)]
pub enum PropertiesCollector {
    SizeProperties,
    MvccProperties,
}

/// How a prefix extractor derives the indexing key from a full key.
#[derive(Debug, Clone, Copy, PartialEq, Eq, Structural)]
pub enum SliceTransform {
    FixedSuffix(usize),
    FixedPrefix(usize),
    Noop,
}

/// Where a registered prefix extractor takes effect.
#[derive(Debug, Clone, Copy, PartialEq, Eq, Structural)]
pub enum ExtractorRole {
    PrefixSeek,
    MemtableInsertHint,
}

/// The small-integer wire form of a recovery mode.
pub open spec fn spec_recovery_mode_wire(m: RecoveryMode) -> i64 {
    match m {
        RecoveryMode::TolerateCorruptedTailRecords => 0,
        RecoveryMode::AbsoluteConsistency => 1,
        RecoveryMode::PointInTime => 2,
        RecoveryMode::SkipAnyCorruptedRecords => 3,
    }
}

/// The recovery mode a small integer denotes, if any.
pub open spec fn spec_recovery_mode_from_wire(n: i64) -> Option<RecoveryMode> {
    if n == 0 {
        Some(RecoveryMode::TolerateCorruptedTailRecords)
    } else if n == 1 {
        Some(RecoveryMode::AbsoluteConsistency)
    } else if n == 2 {
        Some(RecoveryMode::PointInTime)
    } else if n == 3 {
        Some(RecoveryMode::SkipAnyCorruptedRecords)
    } else {
        None
    }
}

#[verifier::when_used_as_spec(spec_recovery_mode_wire)]
pub fn recovery_mode_wire(m: RecoveryMode) -> (r: i64)
    ensures
        r == spec_recovery_mode_wire(m),
{
    match m {
        RecoveryMode::TolerateCorruptedTailRecords => 0,
        RecoveryMode::AbsoluteConsistency => 1,
        RecoveryMode::PointInTime => 2,
        RecoveryMode::SkipAnyCorruptedRecords => 3,
    }
}

pub fn recovery_mode_from_wire(n: i64) -> (r: Option<RecoveryMode>)
    ensures
        r == spec_recovery_mode_from_wire(n),
{
    if n == 0 {
        Some(RecoveryMode::TolerateCorruptedTailRecords)
    } else if n == 1 {
        Some(RecoveryMode::AbsoluteConsistency)
    } else if n == 2 {
        Some(RecoveryMode::PointInTime)
    } else if n == 3 {
        Some(RecoveryMode::SkipAnyCorruptedRecords)
    } else {
        None
    }
}

/// The wire form of a recovery mode reads back as itself.
pub proof fn lemma_recovery_mode_wire_round_trip(m: RecoveryMode)
    ensures
        spec_recovery_mode_from_wire(spec_recovery_mode_wire(m)) == Some(m),
{
}

/// The small-integer wire form of a compaction priority.
pub open spec fn spec_compaction_pri_wire(m: CompactionPriority) -> i64 {
    match m {
        CompactionPriority::ByCompensatedSize => 0,
        CompactionPriority::OldestLargestSeqFirst => 1,
        CompactionPriority::OldestSmallestSeqFirst => 2,
        CompactionPriority::MinOverlappingRatio => 3,
    }
}

/// The compaction priority a small integer denotes, if any.
pub open spec fn spec_compaction_pri_from_wire(n: i64) -> Option<CompactionPriority> {
    if n == 0 {
        Some(CompactionPriority::ByCompensatedSize)
    } else if n == 1 {
        Some(CompactionPriority::OldestLargestSeqFirst)
    } else if n == 2 {
        Some(CompactionPriority::OldestSmallestSeqFirst)
    } else if n == 3 {
        Some(CompactionPriority::MinOverlappingRatio)
    } else {
        None
    }
}

#[verifier::when_used_as_spec(spec_compaction_pri_wire)]
pub fn compaction_pri_wire(m: CompactionPriority) -> (r: i64)
    ensures
        r == spec_compaction_pri_wire(m),
{
    match m {
        CompactionPriority::ByCompensatedSize => 0,
        CompactionPriority::OldestLargestSeqFirst => 1,
        CompactionPriority::OldestSmallestSeqFirst => 2,
        CompactionPriority::MinOverlappingRatio => 3,
    }
}

pub fn compaction_pri_from_wire(n: i64) -> (r: Option<CompactionPriority>)
    ensures
        r == spec_compaction_pri_from_wire(n),
{
    if n == 0 {
        Some(CompactionPriority::ByCompensatedSize)
    } else if n == 1 {
        Some(CompactionPriority::OldestLargestSeqFirst)
    } else if n == 2 {
        Some(CompactionPriority::OldestSmallestSeqFirst)
    } else if n == 3 {
        Some(CompactionPriority::MinOverlappingRatio)
    } else {
        None
    }
}

/// The wire form of a compaction priority reads back as itself.
pub proof fn lemma_compaction_pri_wire_round_trip(m: CompactionPriority)
    ensures
        spec_compaction_pri_from_wire(spec_compaction_pri_wire(m)) == Some(m),
{
}

/// The textual name of a compression codec.
pub open spec fn spec_compression_name(c: CompressionType) -> Seq<u8> {
    match c {
        CompressionType::No => seq![110u8, 111],  // "no"
        CompressionType::Snappy => seq![115u8, 110, 97, 112, 112, 121],  // "snappy"
        CompressionType::Zlib => seq![122u8, 108, 105, 98],  // "zlib"
        CompressionType::Bz2 => seq![98u8, 122, 105, 112, 50],  // "bzip2"
        CompressionType::Lz4 => seq![108u8, 122, 52],  // "lz4"
        CompressionType::Lz4hc => seq![108u8, 122, 52, 104, 99],  // "lz4hc"
        CompressionType::Zstd => seq![122u8, 115, 116, 100],  // "zstd"
    }
}

/// The compression codec a textual name denotes, if any.
pub open spec fn spec_compression_from_name(s: Seq<u8>) -> Option<CompressionType> {
    if s == spec_compression_name(CompressionType::No) {
        Some(CompressionType::No)
    } else if s == spec_compression_name(CompressionType::Snappy) {
        Some(CompressionType::Snappy)
    } else if s == spec_compression_name(CompressionType::Zlib) {
        Some(CompressionType::Zlib)
    } else if s == spec_compression_name(CompressionType::Bz2) {
        Some(CompressionType::Bz2)
    } else if s == spec_compression_name(CompressionType::Lz4) {
        Some(CompressionType::Lz4)
    } else if s == spec_compression_name(CompressionType::Lz4hc) {
        Some(CompressionType::Lz4hc)
    } else if s == spec_compression_name(CompressionType::Zstd) {
        Some(CompressionType::Zstd)
    } else {
        None
    }
}

pub fn compression_name(c: CompressionType) -> (r: Vec<u8>)
    ensures
        r@ == spec_compression_name(c),
{
    match c {
        CompressionType::No => crate::bytestr::bytes_of([110u8, 111].as_slice()),  // "no"
        CompressionType::Snappy => crate::bytestr::bytes_of([115u8, 110, 97, 112, 112, 121].as_slice()),  // "snappy"
        CompressionType::Zlib => crate::bytestr::bytes_of([122u8, 108, 105, 98].as_slice()),  // "zlib"
        CompressionType::Bz2 => crate::bytestr::bytes_of([98u8, 122, 105, 112, 50].as_slice()),  // "bzip2"
        CompressionType::Lz4 => crate::bytestr::bytes_of([108u8, 122, 52].as_slice()),  // "lz4"
        CompressionType::Lz4hc => crate::bytestr::bytes_of([108u8, 122, 52, 104, 99].as_slice()),  // "lz4hc"
        CompressionType::Zstd => crate::bytestr::bytes_of([122u8, 115, 116, 100].as_slice()),  // "zstd"
    }
}

pub fn compression_from_name(s: &[u8]) -> (r: Option<CompressionType>)
    ensures
        r == spec_compression_from_name(s@),
{
    if crate::bytestr::bytes_eq(s, [110u8, 111].as_slice()) {
        Some(CompressionType::No)
    } else if crate::bytestr::bytes_eq(s, [115u8, 110, 97, 112, 112, 121].as_slice()) {
        Some(CompressionType::Snappy)
    } else if crate::bytestr::bytes_eq(s, [122u8, 108, 105, 98].as_slice()) {
        Some(CompressionType::Zlib)
    } else if crate::bytestr::bytes_eq(s, [98u8, 122, 105, 112, 50].as_slice()) {
        Some(CompressionType::Bz2)
    } else if crate::bytestr::bytes_eq(s, [108u8, 122, 52].as_slice()) {
        Some(CompressionType::Lz4)
    } else if crate::bytestr::bytes_eq(s, [108u8, 122, 52, 104, 99].as_slice()) {
        Some(CompressionType::Lz4hc)
    } else if crate::bytestr::bytes_eq(s, [122u8, 115, 116, 100].as_slice()) {
        Some(CompressionType::Zstd)
    } else {
        None
    }
}

/// The name of a compression codec reads back as that codec.
pub proof fn lemma_compression_name_round_trip(c: CompressionType)
    ensures
        spec_compression_from_name(spec_compression_name(c)) == Some(c),
{
    match c {
        CompressionType::No => {
            assert(spec_compression_name(c) == seq![110u8, 111]);
            assert(spec_compression_from_name(seq![110u8, 111]) == Some(CompressionType::No));
        },
        CompressionType::Snappy => {
            assert(spec_compression_from_name(spec_compression_name(c)) == Some(c));
        },
        CompressionType::Zlib => {
            assert(spec_compression_from_name(spec_compression_name(c)) == Some(c));
        },
        CompressionType::Bz2 => {
            assert(spec_compression_from_name(spec_compression_name(c)) == Some(c));
        },
        CompressionType::Lz4 => {
            assert(spec_compression_from_name(spec_compression_name(c)) == Some(c));
        },
        CompressionType::Lz4hc => {
            let s = spec_compression_name(CompressionType::Lz4hc);
            assert(s.len() == 5);
            assert(spec_compression_name(CompressionType::No).len() == 2);
            assert(s != spec_compression_name(CompressionType::No));
            assert(s != spec_compression_name(CompressionType::Snappy));
            assert(s != spec_compression_name(CompressionType::Zlib));
            assert(spec_compression_name(CompressionType::Bz2)[0]
                != spec_compression_name(CompressionType::Lz4hc)[0]);
            assert(s != spec_compression_name(CompressionType::Bz2));
            assert(s != spec_compression_name(CompressionType::Lz4));
            assert(spec_compression_from_name(spec_compression_name(c)) == Some(c));
        },
        CompressionType::Zstd => {
            assert(spec_compression_name(CompressionType::Zlib)[1]
                != spec_compression_name(CompressionType::Zstd)[1]);
            assert(spec_compression_from_name(spec_compression_name(c)) == Some(c));
        },
    }
}

/// The stable identifier under which a properties collector is registered.
pub open spec fn spec_collector_name(c: PropertiesCollector) -> Seq<u8> {
    match c {
        PropertiesCollector::SizeProperties => seq![116u8, 105, 107, 118, 46, 115, 105, 122, 101, 45, 112, 114, 111, 112, 101, 114, 116, 105, 101, 115, 45, 99, 111, 108, 108, 101, 99, 116, 111, 114],  // "tikv.size-properties-collector"
        PropertiesCollector::MvccProperties => seq![116u8, 105, 107, 118, 46, 109, 118, 99, 99, 45, 112, 114, 111, 112, 101, 114, 116, 105, 101, 115, 45, 99, 111, 108, 108, 101, 99, 116, 111, 114],  // "tikv.mvcc-properties-collector"
    }
}

pub fn collector_name(c: PropertiesCollector) -> (r: Vec<u8>)
    ensures
        r@ == spec_collector_name(c),
{
    match c {
        PropertiesCollector::SizeProperties => crate::bytestr::bytes_of([116u8, 105, 107, 118, 46, 115, 105, 122, 101, 45, 112, 114, 111, 112, 101, 114, 116, 105, 101, 115, 45, 99, 111, 108, 108, 101, 99, 116, 111, 114].as_slice()),  // "tikv.size-properties-collector"
        PropertiesCollector::MvccProperties => crate::bytestr::bytes_of([116u8, 105, 107, 118, 46, 109, 118, 99, 99, 45, 112, 114, 111, 112, 101, 114, 116, 105, 101, 115, 45, 99, 111, 108, 108, 101, 99, 116, 111, 114].as_slice()),  // "tikv.mvcc-properties-collector"
    }
}

/// Bloom-filter settings attached to the block-based table of a column family.
#[derive(Debug, Clone, Copy, PartialEq, Eq, Structural)]
pub struct BloomFilterParams {
    pub bits_per_key: i32,
    pub block_based: bool,
}

/// Block-based table settings of a column family.
#[derive(Debug, Clone, Copy, PartialEq)]
pub struct BlockBasedOptions {
    pub block_size: u64,
    pub lru_cache_size: u64,
    pub cache_index_and_filter_blocks: bool,
    pub bloom_filter: Option<BloomFilterParams>,
    pub whole_key_filtering: Option<bool>,
}

/// A registered prefix extractor, carried by its stable name.
#[derive(Debug, Clone, PartialEq)]
pub struct PrefixExtractor {
    pub name: Vec<u8>,
    pub transform: SliceTransform,
    pub role: ExtractorRole,
}

/// The mathematical value of a [`PrefixExtractor`].
#[verifier::ext_equal]
pub struct PrefixExtractorView {
    pub name: Seq<u8>,
    pub transform: SliceTransform,
    pub role: ExtractorRole,
}

impl View for PrefixExtractor {
    type V = PrefixExtractorView;

    open spec fn view(&self) -> PrefixExtractorView {
        PrefixExtractorView { name: self.name@, transform: self.transform, role: self.role }
    }
}

/// An engine-ready column-family option object.
#[derive(Debug, Clone, PartialEq)]
pub struct ColumnFamilyOptions {
    pub block_based: BlockBasedOptions,
    pub compression_per_level: Vec<CompressionType>,
    pub write_buffer_size: u64,
    pub max_write_buffer_number: i32,
    pub min_write_buffer_number_to_merge: i32,
    pub max_bytes_for_level_base: u64,
    pub target_file_size_base: u64,
    pub level0_file_num_compaction_trigger: i32,
    pub level0_slowdown_writes_trigger: i32,
    pub level0_stop_writes_trigger: i32,
    pub max_compaction_bytes: u64,
    pub compaction_pri: CompactionPriority,
    pub prefix_extractor: Option<PrefixExtractor>,
    pub memtable_prefix_bloom_percent: Option<u8>,
    pub property_collectors: Vec<PropertiesCollector>,
}

/// The mathematical value of a [`ColumnFamilyOptions`].
#[verifier::ext_equal]
pub struct ColumnFamilyOptionsView {
    pub block_based: BlockBasedOptions,
    pub compression_per_level: Seq<CompressionType>,
    pub write_buffer_size: u64,
    pub max_write_buffer_number: i32,
    pub min_write_buffer_number_to_merge: i32,
    pub max_bytes_for_level_base: u64,
    pub target_file_size_base: u64,
    pub level0_file_num_compaction_trigger: i32,
    pub level0_slowdown_writes_trigger: i32,
    pub level0_stop_writes_trigger: i32,
    pub max_compaction_bytes: u64,
    pub compaction_pri: CompactionPriority,
    pub prefix_extractor: Option<PrefixExtractorView>,
    pub memtable_prefix_bloom_percent: Option<u8>,
    pub property_collectors: Seq<PropertiesCollector>,
}

impl View for ColumnFamilyOptions {
    type V = ColumnFamilyOptionsView;

    open spec fn view(&self) -> ColumnFamilyOptionsView {
        ColumnFamilyOptionsView {
            block_based: self.block_based,
            compression_per_level: self.compression_per_level@,
            write_buffer_size: self.write_buffer_size,
            max_write_buffer_number: self.max_write_buffer_number,
            min_write_buffer_number_to_merge: self.min_write_buffer_number_to_merge,
            max_bytes_for_level_base: self.max_bytes_for_level_base,
            target_file_size_base: self.target_file_size_base,
            level0_file_num_compaction_trigger: self.level0_file_num_compaction_trigger,
            level0_slowdown_writes_trigger: self.level0_slowdown_writes_trigger,
            level0_stop_writes_trigger: self.level0_stop_writes_trigger,
            max_compaction_bytes: self.max_compaction_bytes,
            compaction_pri: self.compaction_pri,
            prefix_extractor: match self.prefix_extractor {
                Some(p) => Some(p@),
                None => None,
            },
            memtable_prefix_bloom_percent: self.memtable_prefix_bloom_percent,
            property_collectors: self.property_collectors@,
        }
    }
}

/// An engine-ready engine-wide option object.
#[derive(Debug, Clone, PartialEq)]
pub struct DbOptions {
    pub wal_recovery_mode: RecoveryMode,
    pub wal_dir: Option<Vec<u8>>,
    pub wal_ttl_seconds: u64,
    pub wal_size_limit_mb: u64,
    pub max_total_wal_size: u64,
    pub max_background_jobs: Option<i32>,
    pub max_manifest_file_size: u64,
    pub create_if_missing: bool,
    pub max_open_files: i32,
    pub stats_dump_period_secs: Option<u64>,
    pub compaction_readahead_size: u64,
    pub max_log_file_size: u64,
    pub log_file_time_to_roll_secs: u64,
    pub info_log_dir: Option<Vec<u8>>,
    pub rate_bytes_per_sec: Option<i64>,
    pub max_subcompactions: u32,
    pub writable_file_max_buffer_size: i32,
    pub use_direct_io_for_flush_and_compaction: bool,
    pub enable_pipelined_write: bool,
    pub allow_concurrent_memtable_write: Option<bool>,
    pub event_listener_tag: Vec<u8>,
}

/// The mathematical value of a [`DbOptions`].
#[verifier::ext_equal]
pub struct DbOptionsView {
    pub wal_recovery_mode: RecoveryMode,
    pub wal_dir: Option<Seq<u8>>,
    pub wal_ttl_seconds: u64,
    pub wal_size_limit_mb: u64,
    pub max_total_wal_size: u64,
    pub max_background_jobs: Option<i32>,
    pub max_manifest_file_size: u64,
    pub create_if_missing: bool,
    pub max_open_files: i32,
    pub stats_dump_period_secs: Option<u64>,
    pub compaction_readahead_size: u64,
    pub max_log_file_size: u64,
    pub log_file_time_to_roll_secs: u64,
    pub info_log_dir: Option<Seq<u8>>,
    pub rate_bytes_per_sec: Option<i64>,
    pub max_subcompactions: u32,
    pub writable_file_max_buffer_size: i32,
    pub use_direct_io_for_flush_and_compaction: bool,
    pub enable_pipelined_write: bool,
    pub allow_concurrent_memtable_write: Option<bool>,
    pub event_listener_tag: Seq<u8>,
}

impl View for DbOptions {
    type V = DbOptionsView;

    open spec fn view(&self) -> DbOptionsView {
        DbOptionsView {
            wal_recovery_mode: self.wal_recovery_mode,
            wal_dir: match self.wal_dir {
                Some(ref d) => Some(d@),
                None => None,
            },
            wal_ttl_seconds: self.wal_ttl_seconds,
            wal_size_limit_mb: self.wal_size_limit_mb,
            max_total_wal_size: self.max_total_wal_size,
            max_background_jobs: self.max_background_jobs,
            max_manifest_file_size: self.max_manifest_file_size,
            create_if_missing: self.create_if_missing,
            max_open_files: self.max_open_files,
            stats_dump_period_secs: self.stats_dump_period_secs,
            compaction_readahead_size: self.compaction_readahead_size,
            max_log_file_size: self.max_log_file_size,
            log_file_time_to_roll_secs: self.log_file_time_to_roll_secs,
            info_log_dir: match self.info_log_dir {
                Some(ref d) => Some(d@),
                None => None,
            },
            rate_bytes_per_sec: self.rate_bytes_per_sec,
            max_subcompactions: self.max_subcompactions,
            writable_file_max_buffer_size: self.writable_file_max_buffer_size,
            use_direct_io_for_flush_and_compaction: self.use_direct_io_for_flush_and_compaction,
            enable_pipelined_write: self.enable_pipelined_write,
            allow_concurrent_memtable_write: self.allow_concurrent_memtable_write,
            event_listener_tag: self.event_listener_tag@,
        }
    }
}

/// A (column-family name, column-family options) pair handed to engine open.
#[derive(Debug, Clone, PartialEq)]
pub struct CfOptions {
    pub cf: Vec<u8>,
    pub options: ColumnFamilyOptions,
}

/// The mathematical value of a [`CfOptions`].
#[verifier::ext_equal]
pub struct CfOptionsView {
    pub cf: Seq<u8>,
    pub options: ColumnFamilyOptionsView,
}

impl View for CfOptions {
    type V = CfOptionsView;

    open spec fn view(&self) -> CfOptionsView {
        CfOptionsView { cf: self.cf@, options: self.options@ }
    }
}

} // verus!
