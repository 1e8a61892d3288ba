//! The Column-Family Config family: one shared shape of per-CF tuning knobs,
//! plus one thin type per column-family variant whose builder attaches the
//! variant's extras (prefix extractor, memtable prefix-bloom ratio, property
//! collectors) to the produced option object.

use vstd::prelude::*;

use crate::engine::{
    BloomFilterParams, BlockBasedOptions, ColumnFamilyOptions, ColumnFamilyOptionsView,
    CompactionPriority, CompressionType, ExtractorRole, PrefixExtractor, PrefixExtractorView,
    PropertiesCollector, SliceTransform,
};
use crate::memory::{spec_memory_mb_for_cf, memory_mb_for_cf, lemma_memory_mb_fits, CfName};
use crate::units::ReadableSize;
use crate::bytestr::bytes_of;

verus! {

/// Length of the consensus-log key region prefix: one local-scope byte, one
/// region-class byte, and an eight-byte region id.
pub const REGION_RAFT_PREFIX_LEN: usize = 10;

/// The shared shape of per-column-family tuning knobs.
#[derive(Debug, Clone, PartialEq)]
pub struct CfConfig {
    pub block_size: ReadableSize,
    pub block_cache_size: ReadableSize,
    pub cache_index_and_filter_blocks: bool,
    pub use_bloom_filter: bool,
    pub whole_key_filtering: bool,
    pub bloom_filter_bits_per_key: i32,
    pub block_based_bloom_filter: bool,
    pub compression_per_level: Vec<CompressionType>,
    pub write_buffer_size: ReadableSize,
    pub max_write_buffer_number: i32,
    pub min_write_buffer_number_to_merge: i32,
    pub max_bytes_for_level_base: ReadableSize,
    pub target_file_size_base: ReadableSize,
    pub level0_file_num_compaction_trigger: i32,
    pub level0_slowdown_writes_trigger: i32,
    pub level0_stop_writes_trigger: i32,
    pub max_compaction_bytes: ReadableSize,
    pub compaction_pri: CompactionPriority,
}

/// The mathematical value of a [`CfConfig`].
#[verifier::ext_equal]
pub struct CfConfigView {
    pub block_size: ReadableSize,
    pub block_cache_size: ReadableSize,
    pub cache_index_and_filter_blocks: bool,
    pub use_bloom_filter: bool,
    pub whole_key_filtering: bool,
    pub bloom_filter_bits_per_key: i32,
    pub block_based_bloom_filter: bool,
    pub compression_per_level: Seq<CompressionType>,
    pub write_buffer_size: ReadableSize,
    pub max_write_buffer_number: i32,
    pub min_write_buffer_number_to_merge: i32,
    pub max_bytes_for_level_base: ReadableSize,
    pub target_file_size_base: ReadableSize,
    pub level0_file_num_compaction_trigger: i32,
    pub level0_slowdown_writes_trigger: i32,
    pub level0_stop_writes_trigger: i32,
    pub max_compaction_bytes: ReadableSize,
    pub compaction_pri: CompactionPriority,
}

impl View for CfConfig {
    type V = CfConfigView;

    open spec fn view(&self) -> CfConfigView {
        CfConfigView {
            block_size: self.block_size,
            block_cache_size: self.block_cache_size,
            cache_index_and_filter_blocks: self.cache_index_and_filter_blocks,
            use_bloom_filter: self.use_bloom_filter,
            whole_key_filtering: self.whole_key_filtering,
            bloom_filter_bits_per_key: self.bloom_filter_bits_per_key,
            block_based_bloom_filter: self.block_based_bloom_filter,
            compression_per_level: self.compression_per_level@,
            write_buffer_size: self.write_buffer_size,
            max_write_buffer_number: self.max_write_buffer_number,
            min_write_buffer_number_to_merge: self.min_write_buffer_number_to_merge,
            max_bytes_for_level_base: self.max_bytes_for_level_base,
            target_file_size_base: self.target_file_size_base,
            level0_file_num_compaction_trigger: self.level0_file_num_compaction_trigger,
            level0_slowdown_writes_trigger: self.level0_slowdown_writes_trigger,
            level0_stop_writes_trigger: self.level0_stop_writes_trigger,
            max_compaction_bytes: self.max_compaction_bytes,
            compaction_pri: self.compaction_pri,
        }
    }
}

impl CfConfigView {
    /// The compression sequence holds exactly one codec per LSM level 0-6.
    pub open spec fn wf(self) -> bool {
        self.compression_per_level.len() == 7
    }
}

/// The common part of every column-family builder: the block-based table
/// parameters (with bloom-filter settings attached only when the bloom
/// filter is enabled), the per-level compression, the write-buffer and
/// level-0 thresholds, the sizing budgets and the compaction priority.
pub open spec fn spec_build_cf_opt(c: CfConfigView) -> ColumnFamilyOptionsView {
    ColumnFamilyOptionsView {
        block_based: BlockBasedOptions {
            block_size: c.block_size.0,
            lru_cache_size: c.block_cache_size.0,
            cache_index_and_filter_blocks: c.cache_index_and_filter_blocks,
            bloom_filter: if c.use_bloom_filter {
                Some(
                    BloomFilterParams {
                        bits_per_key: c.bloom_filter_bits_per_key,
                        block_based: c.block_based_bloom_filter,
                    },
                )
            } else {
                None
            },
            whole_key_filtering: if c.use_bloom_filter {
                Some(c.whole_key_filtering)
            } else {
                None
            },
        },
        compression_per_level: c.compression_per_level,
        write_buffer_size: c.write_buffer_size.0,
        max_write_buffer_number: c.max_write_buffer_number,
        min_write_buffer_number_to_merge: c.min_write_buffer_number_to_merge,
        max_bytes_for_level_base: c.max_bytes_for_level_base.0,
        target_file_size_base: c.target_file_size_base.0,
        level0_file_num_compaction_trigger: c.level0_file_num_compaction_trigger,
        level0_slowdown_writes_trigger: c.level0_slowdown_writes_trigger,
        level0_stop_writes_trigger: c.level0_stop_writes_trigger,
        max_compaction_bytes: c.max_compaction_bytes.0,
        compaction_pri: c.compaction_pri,
        prefix_extractor: None,
        memtable_prefix_bloom_percent: None,
        property_collectors: Seq::empty(),
    }
}

/// Builds the common part of a column-family option object.
///
/// When the bloom filter is disabled the produced object carries no
/// bloom-filter configuration at all; when enabled, bits-per-key, the
/// block-based-versus-full choice and whole-key filtering are set exactly
/// as configured.
pub fn build_cf_opt(c: &CfConfig) -> (r: ColumnFamilyOptions)
    ensures
        r@ == spec_build_cf_opt(c@),
        !c.use_bloom_filter ==> r@.block_based.bloom_filter is None
            && r@.block_based.whole_key_filtering is None,
        c.use_bloom_filter ==> r@.block_based.bloom_filter == Some(
            BloomFilterParams {
                bits_per_key: c.bloom_filter_bits_per_key,
                block_based: c.block_based_bloom_filter,
            },
        ) && r@.block_based.whole_key_filtering == Some(c.whole_key_filtering),
{
    let bloom_filter: Option<BloomFilterParams> = if c.use_bloom_filter {
        Some(
            BloomFilterParams {
                bits_per_key: c.bloom_filter_bits_per_key,
                block_based: c.block_based_bloom_filter,
            },
        )
    } else {
        None
    };
    let whole_key_filtering: Option<bool> = if c.use_bloom_filter {
        Some(c.whole_key_filtering)
    } else {
        None
    };
    let r = ColumnFamilyOptions {
        block_based: BlockBasedOptions {
            block_size: c.block_size.0,
            lru_cache_size: c.block_cache_size.0,
            cache_index_and_filter_blocks: c.cache_index_and_filter_blocks,
            bloom_filter,
            whole_key_filtering,
        },
        compression_per_level: c.compression_per_level.clone(),
        write_buffer_size: c.write_buffer_size.0,
        max_write_buffer_number: c.max_write_buffer_number,
        min_write_buffer_number_to_merge: c.min_write_buffer_number_to_merge,
        max_bytes_for_level_base: c.max_bytes_for_level_base.0,
        target_file_size_base: c.target_file_size_base.0,
        level0_file_num_compaction_trigger: c.level0_file_num_compaction_trigger,
        level0_slowdown_writes_trigger: c.level0_slowdown_writes_trigger,
        level0_stop_writes_trigger: c.level0_stop_writes_trigger,
        max_compaction_bytes: c.max_compaction_bytes.0,
        compaction_pri: c.compaction_pri,
        prefix_extractor: None,
        memtable_prefix_bloom_percent: None,
        property_collectors: Vec::new(),
    };
    proof {
        assert(r.compression_per_level@ =~= c.compression_per_level@);
        assert(r@ =~= spec_build_cf_opt(c@));
    }
    r
}

/// The main engine's default column family.
#[derive(Debug, Clone, PartialEq)]
pub struct DefaultCfConfig {
    pub cf: CfConfig,
}

impl View for DefaultCfConfig {
    type V = CfConfigView;

    open spec fn view(&self) -> CfConfigView {
        self.cf@
    }
}

impl DefaultCfConfig {
    /// The compiled-in default knobs, given total host memory in bytes.
    pub open spec fn spec_defaults(total_mem_bytes: u64) -> CfConfigView {
        CfConfigView {
            block_size: ReadableSize::kb(64),
            block_cache_size: ReadableSize::mb(spec_memory_mb_for_cf(total_mem_bytes, false, CfName::Default)),
            cache_index_and_filter_blocks: true,
            use_bloom_filter: true,
            whole_key_filtering: true,
            bloom_filter_bits_per_key: 10,
            block_based_bloom_filter: false,
            compression_per_level: seq![CompressionType::No, CompressionType::No, CompressionType::Lz4, CompressionType::Lz4, CompressionType::Lz4, CompressionType::Zstd, CompressionType::Zstd],
            write_buffer_size: ReadableSize::mb(128),
            max_write_buffer_number: 5,
            min_write_buffer_number_to_merge: 1,
            max_bytes_for_level_base: ReadableSize::mb(512),
            target_file_size_base: ReadableSize::mb(32),
            level0_file_num_compaction_trigger: 4,
            level0_slowdown_writes_trigger: 20,
            level0_stop_writes_trigger: 36,
            max_compaction_bytes: ReadableSize::gb(2),
            compaction_pri: CompactionPriority::MinOverlappingRatio,
        }
    }

    pub fn defaults(total_mem_bytes: u64) -> (r: DefaultCfConfig)
        ensures
            r@ == Self::spec_defaults(total_mem_bytes),
    {
        proof {
            lemma_memory_mb_fits(total_mem_bytes, false, CfName::Default);
        }
        let mut compression_per_level: Vec<CompressionType> = Vec::new();
        compression_per_level.push(CompressionType::No);
        compression_per_level.push(CompressionType::No);
        compression_per_level.push(CompressionType::Lz4);
        compression_per_level.push(CompressionType::Lz4);
        compression_per_level.push(CompressionType::Lz4);
        compression_per_level.push(CompressionType::Zstd);
        compression_per_level.push(CompressionType::Zstd);
        let r = DefaultCfConfig {
            cf: CfConfig {
                block_size: ReadableSize::kb(64),
                block_cache_size: ReadableSize::mb(memory_mb_for_cf(total_mem_bytes, false, CfName::Default)),
                cache_index_and_filter_blocks: true,
                use_bloom_filter: true,
                whole_key_filtering: true,
                bloom_filter_bits_per_key: 10,
                block_based_bloom_filter: false,
                compression_per_level: compression_per_level,
                write_buffer_size: ReadableSize::mb(128),
                max_write_buffer_number: 5,
                min_write_buffer_number_to_merge: 1,
                max_bytes_for_level_base: ReadableSize::mb(512),
                target_file_size_base: ReadableSize::mb(32),
                level0_file_num_compaction_trigger: 4,
                level0_slowdown_writes_trigger: 20,
                level0_stop_writes_trigger: 36,
                max_compaction_bytes: ReadableSize::gb(2),
                compaction_pri: CompactionPriority::MinOverlappingRatio,
            },
        };
        proof {
            assert(r@ =~= Self::spec_defaults(total_mem_bytes));
        }
        r
    }

    /// What this variant's builder produces: the common part, which then attaches the size-properties collector.
    pub open spec fn spec_build_opt(c: CfConfigView) -> ColumnFamilyOptionsView {
        ColumnFamilyOptionsView {
            property_collectors: seq![PropertiesCollector::SizeProperties],
            ..spec_build_cf_opt(c)
        }
    }

    /// Builds this column family's engine-ready option object.
    pub fn build_opt(&self) -> (r: ColumnFamilyOptions)
        ensures
            r@ == Self::spec_build_opt(self@),
    {
        let mut o = build_cf_opt(&self.cf);
        o.property_collectors.push(PropertiesCollector::SizeProperties);
        proof {
            assert(o@ =~= Self::spec_build_opt(self@));
        }
        o
    }
}

/// The main engine's write column family.
#[derive(Debug, Clone, PartialEq)]
pub struct WriteCfConfig {
    pub cf: CfConfig,
}

impl View for WriteCfConfig {
    type V = CfConfigView;

    open spec fn view(&self) -> CfConfigView {
        self.cf@
    }
}

impl WriteCfConfig {
    /// The compiled-in default knobs, given total host memory in bytes.
    pub open spec fn spec_defaults(total_mem_bytes: u64) -> CfConfigView {
        CfConfigView {
            block_size: ReadableSize::kb(64),
            block_cache_size: ReadableSize::mb(spec_memory_mb_for_cf(total_mem_bytes, false, CfName::Write)),
            cache_index_and_filter_blocks: true,
            use_bloom_filter: true,
            whole_key_filtering: false,
            bloom_filter_bits_per_key: 10,
            block_based_bloom_filter: false,
            compression_per_level: seq![CompressionType::No, CompressionType::No, CompressionType::Lz4, CompressionType::Lz4, CompressionType::Lz4, CompressionType::Zstd, CompressionType::Zstd],
            write_buffer_size: ReadableSize::mb(128),
            max_write_buffer_number: 5,
            min_write_buffer_number_to_merge: 1,
            max_bytes_for_level_base: ReadableSize::mb(512),
            target_file_size_base: ReadableSize::mb(32),
            level0_file_num_compaction_trigger: 4,
            level0_slowdown_writes_trigger: 20,
            level0_stop_writes_trigger: 36,
            max_compaction_bytes: ReadableSize::gb(2),
            compaction_pri: CompactionPriority::MinOverlappingRatio,
        }
    }

    pub fn defaults(total_mem_bytes: u64) -> (r: WriteCfConfig)
        ensures
            r@ == Self::spec_defaults(total_mem_bytes),
    {
        proof {
            lemma_memory_mb_fits(total_mem_bytes, false, CfName::Write);
        }
        let mut compression_per_level: Vec<CompressionType> = Vec::new();
        compression_per_level.push(CompressionType::No);
        compression_per_level.push(CompressionType::No);
        compression_per_level.push(CompressionType::Lz4);
        compression_per_level.push(CompressionType::Lz4);
        compression_per_level.push(CompressionType::Lz4);
        compression_per_level.push(CompressionType::Zstd);
        compression_per_level.push(CompressionType::Zstd);
        let r = WriteCfConfig {
            cf: CfConfig {
                block_size: ReadableSize::kb(64),
                block_cache_size: ReadableSize::mb(memory_mb_for_cf(total_mem_bytes, false, CfName::Write)),
                cache_index_and_filter_blocks: true,
                use_bloom_filter: true,
                whole_key_filtering: false,
                bloom_filter_bits_per_key: 10,
                block_based_bloom_filter: false,
                compression_per_level: compression_per_level,
                write_buffer_size: ReadableSize::mb(128),
                max_write_buffer_number: 5,
                min_write_buffer_number_to_merge: 1,
                max_bytes_for_level_base: ReadableSize::mb(512),
                target_file_size_base: ReadableSize::mb(32),
                level0_file_num_compaction_trigger: 4,
                level0_slowdown_writes_trigger: 20,
                level0_stop_writes_trigger: 36,
                max_compaction_bytes: ReadableSize::gb(2),
                compaction_pri: CompactionPriority::MinOverlappingRatio,
            },
        };
        proof {
            assert(r@ =~= Self::spec_defaults(total_mem_bytes));
        }
        r
    }

    /// What this variant's builder produces: the common part, which then attaches a fixed-suffix key-prefix extractor that strips the trailing eight-byte version timestamp, a ten-percent memtable prefix-bloom ratio, and the consistency and size properties collectors.
    pub open spec fn spec_build_opt(c: CfConfigView) -> ColumnFamilyOptionsView {
        ColumnFamilyOptionsView {
            prefix_extractor: Some(PrefixExtractorView { name: seq![70u8, 105, 120, 101, 100, 83, 117, 102, 102, 105, 120, 83, 108, 105, 99, 101, 84, 114, 97, 110, 115, 102, 111, 114, 109], transform: SliceTransform::FixedSuffix(8), role: ExtractorRole::PrefixSeek }),
            memtable_prefix_bloom_percent: Some(10),
            property_collectors: seq![PropertiesCollector::MvccProperties, PropertiesCollector::SizeProperties],
            ..spec_build_cf_opt(c)
        }
    }

    /// Builds this column family's engine-ready option object.
    pub fn build_opt(&self) -> (r: ColumnFamilyOptions)
        ensures
            r@ == Self::spec_build_opt(self@),
    {
        let mut o = build_cf_opt(&self.cf);
        o.prefix_extractor = Some(PrefixExtractor { name: bytes_of([70u8, 105, 120, 101, 100, 83, 117, 102, 102, 105, 120, 83, 108, 105, 99, 101, 84, 114, 97, 110, 115, 102, 111, 114, 109].as_slice()), transform: SliceTransform::FixedSuffix(8), role: ExtractorRole::PrefixSeek });  // "FixedSuffixSliceTransform"
        o.memtable_prefix_bloom_percent = Some(10);
        o.property_collectors.push(PropertiesCollector::MvccProperties);
        o.property_collectors.push(PropertiesCollector::SizeProperties);
        proof {
            assert(o@ =~= Self::spec_build_opt(self@));
        }
        o
    }
}

/// The main engine's lock column family.
#[derive(Debug, Clone, PartialEq)]
pub struct LockCfConfig {
    pub cf: CfConfig,
}

impl View for LockCfConfig {
    type V = CfConfigView;

    open spec fn view(&self) -> CfConfigView {
        self.cf@
    }
}

impl LockCfConfig {
    /// The compiled-in default knobs, given total host memory in bytes.
    pub open spec fn spec_defaults(total_mem_bytes: u64) -> CfConfigView {
        CfConfigView {
            block_size: ReadableSize::kb(16),
            block_cache_size: ReadableSize::mb(spec_memory_mb_for_cf(total_mem_bytes, false, CfName::Lock)),
            cache_index_and_filter_blocks: true,
            use_bloom_filter: true,
            whole_key_filtering: true,
            bloom_filter_bits_per_key: 10,
            block_based_bloom_filter: false,
            compression_per_level: seq![CompressionType::No, CompressionType::No, CompressionType::No, CompressionType::No, CompressionType::No, CompressionType::No, CompressionType::No],
            write_buffer_size: ReadableSize::mb(128),
            max_write_buffer_number: 5,
            min_write_buffer_number_to_merge: 1,
            max_bytes_for_level_base: ReadableSize::mb(128),
            target_file_size_base: ReadableSize::mb(32),
            level0_file_num_compaction_trigger: 1,
            level0_slowdown_writes_trigger: 20,
            level0_stop_writes_trigger: 36,
            max_compaction_bytes: ReadableSize::gb(2),
            compaction_pri: CompactionPriority::ByCompensatedSize,
        }
    }

    pub fn defaults(total_mem_bytes: u64) -> (r: LockCfConfig)
        ensures
            r@ == Self::spec_defaults(total_mem_bytes),
    {
        proof {
            lemma_memory_mb_fits(total_mem_bytes, false, CfName::Lock);
        }
        let mut compression_per_level: Vec<CompressionType> = Vec::new();
        compression_per_level.push(CompressionType::No);
        compression_per_level.push(CompressionType::No);
        compression_per_level.push(CompressionType::No);
        compression_per_level.push(CompressionType::No);
        compression_per_level.push(CompressionType::No);
        compression_per_level.push(CompressionType::No);
        compression_per_level.push(CompressionType::No);
        let r = LockCfConfig {
            cf: CfConfig {
                block_size: ReadableSize::kb(16),
                block_cache_size: ReadableSize::mb(memory_mb_for_cf(total_mem_bytes, false, CfName::Lock)),
                cache_index_and_filter_blocks: true,
                use_bloom_filter: true,
                whole_key_filtering: true,
                bloom_filter_bits_per_key: 10,
                block_based_bloom_filter: false,
                compression_per_level: compression_per_level,
                write_buffer_size: ReadableSize::mb(128),
                max_write_buffer_number: 5,
                min_write_buffer_number_to_merge: 1,
                max_bytes_for_level_base: ReadableSize::mb(128),
                target_file_size_base: ReadableSize::mb(32),
                level0_file_num_compaction_trigger: 1,
                level0_slowdown_writes_trigger: 20,
                level0_stop_writes_trigger: 36,
                max_compaction_bytes: ReadableSize::gb(2),
                compaction_pri: CompactionPriority::ByCompensatedSize,
            },
        };
        proof {
            assert(r@ =~= Self::spec_defaults(total_mem_bytes));
        }
        r
    }

    /// What this variant's builder produces: the common part, which then attaches a no-op prefix extractor (full-key indexing) and a ten-percent memtable prefix-bloom ratio.
    pub open spec fn spec_build_opt(c: CfConfigView) -> ColumnFamilyOptionsView {
        ColumnFamilyOptionsView {
            prefix_extractor: Some(PrefixExtractorView { name: seq![78u8, 111, 111, 112, 83, 108, 105, 99, 101, 84, 114, 97, 110, 115, 102, 111, 114, 109], transform: SliceTransform::Noop, role: ExtractorRole::PrefixSeek }),
            memtable_prefix_bloom_percent: Some(10),
            ..spec_build_cf_opt(c)
        }
    }

    /// Builds this column family's engine-ready option object.
    pub fn build_opt(&self) -> (r: ColumnFamilyOptions)
        ensures
            r@ == Self::spec_build_opt(self@),
    {
        let mut o = build_cf_opt(&self.cf);
        o.prefix_extractor = Some(PrefixExtractor { name: bytes_of([78u8, 111, 111, 112, 83, 108, 105, 99, 101, 84, 114, 97, 110, 115, 102, 111, 114, 109].as_slice()), transform: SliceTransform::Noop, role: ExtractorRole::PrefixSeek });  // "NoopSliceTransform"
        o.memtable_prefix_bloom_percent = Some(10);
        proof {
            assert(o@ =~= Self::spec_build_opt(self@));
        }
        o
    }
}

/// The main engine's internal consensus-metadata column family.
#[derive(Debug, Clone, PartialEq)]
pub struct RaftCfConfig {
    pub cf: CfConfig,
}

impl View for RaftCfConfig {
    type V = CfConfigView;

    open spec fn view(&self) -> CfConfigView {
        self.cf@
    }
}

impl RaftCfConfig {
    /// The compiled-in default knobs.
    pub open spec fn spec_defaults() -> CfConfigView {
        CfConfigView {
            block_size: ReadableSize::kb(16),
            block_cache_size: ReadableSize::mb(128),
            cache_index_and_filter_blocks: true,
            use_bloom_filter: true,
            whole_key_filtering: true,
            bloom_filter_bits_per_key: 10,
            block_based_bloom_filter: false,
            compression_per_level: seq![CompressionType::No, CompressionType::No, CompressionType::No, CompressionType::No, CompressionType::No, CompressionType::No, CompressionType::No],
            write_buffer_size: ReadableSize::mb(128),
            max_write_buffer_number: 5,
            min_write_buffer_number_to_merge: 1,
            max_bytes_for_level_base: ReadableSize::mb(128),
            target_file_size_base: ReadableSize::mb(32),
            level0_file_num_compaction_trigger: 1,
            level0_slowdown_writes_trigger: 20,
            level0_stop_writes_trigger: 36,
            max_compaction_bytes: ReadableSize::gb(2),
            compaction_pri: CompactionPriority::ByCompensatedSize,
        }
    }

    pub fn defaults() -> (r: RaftCfConfig)
        ensures
            r@ == Self::spec_defaults(),
    {
        let mut compression_per_level: Vec<CompressionType> = Vec::new();
        compression_per_level.push(CompressionType::No);
        compression_per_level.push(CompressionType::No);
        compression_per_level.push(CompressionType::No);
        compression_per_level.push(CompressionType::No);
        compression_per_level.push(CompressionType::No);
        compression_per_level.push(CompressionType::No);
        compression_per_level.push(CompressionType::No);
        let r = RaftCfConfig {
            cf: CfConfig {
                block_size: ReadableSize::kb(16),
                block_cache_size: ReadableSize::mb(128),
                cache_index_and_filter_blocks: true,
                use_bloom_filter: true,
                whole_key_filtering: true,
                bloom_filter_bits_per_key: 10,
                block_based_bloom_filter: false,
                compression_per_level: compression_per_level,
                write_buffer_size: ReadableSize::mb(128),
                max_write_buffer_number: 5,
                min_write_buffer_number_to_merge: 1,
                max_bytes_for_level_base: ReadableSize::mb(128),
                target_file_size_base: ReadableSize::mb(32),
                level0_file_num_compaction_trigger: 1,
                level0_slowdown_writes_trigger: 20,
                level0_stop_writes_trigger: 36,
                max_compaction_bytes: ReadableSize::gb(2),
                compaction_pri: CompactionPriority::ByCompensatedSize,
            },
        };
        proof {
            assert(r@ =~= Self::spec_defaults());
        }
        r
    }

    /// What this variant's builder produces: the common part, which then attaches a no-op prefix extractor (full-key indexing) and a ten-percent memtable prefix-bloom ratio.
    pub open spec fn spec_build_opt(c: CfConfigView) -> ColumnFamilyOptionsView {
        ColumnFamilyOptionsView {
            prefix_extractor: Some(PrefixExtractorView { name: seq![78u8, 111, 111, 112, 83, 108, 105, 99, 101, 84, 114, 97, 110, 115, 102, 111, 114, 109], transform: SliceTransform::Noop, role: ExtractorRole::PrefixSeek }),
            memtable_prefix_bloom_percent: Some(10),
            ..spec_build_cf_opt(c)
        }
    }

    /// Builds this column family's engine-ready option object.
    pub fn build_opt(&self) -> (r: ColumnFamilyOptions)
        ensures
            r@ == Self::spec_build_opt(self@),
    {
        let mut o = build_cf_opt(&self.cf);
        o.prefix_extractor = Some(PrefixExtractor { name: bytes_of([78u8, 111, 111, 112, 83, 108, 105, 99, 101, 84, 114, 97, 110, 115, 102, 111, 114, 109].as_slice()), transform: SliceTransform::Noop, role: ExtractorRole::PrefixSeek });  // "NoopSliceTransform"
        o.memtable_prefix_bloom_percent = Some(10);
        proof {
            assert(o@ =~= Self::spec_build_opt(self@));
        }
        o
    }
}

/// The consensus-log engine's default column family.
#[derive(Debug, Clone, PartialEq)]
pub struct RaftDefaultCfConfig {
    pub cf: CfConfig,
}

impl View for RaftDefaultCfConfig {
    type V = CfConfigView;

    open spec fn view(&self) -> CfConfigView {
        self.cf@
    }
}

impl RaftDefaultCfConfig {
    /// The compiled-in default knobs, given total host memory in bytes.
    pub open spec fn spec_defaults(total_mem_bytes: u64) -> CfConfigView {
        CfConfigView {
            block_size: ReadableSize::kb(64),
            block_cache_size: ReadableSize::mb(spec_memory_mb_for_cf(total_mem_bytes, true, CfName::Default)),
            cache_index_and_filter_blocks: true,
            use_bloom_filter: false,
            whole_key_filtering: true,
            bloom_filter_bits_per_key: 10,
            block_based_bloom_filter: false,
            compression_per_level: seq![CompressionType::No, CompressionType::No, CompressionType::Lz4, CompressionType::Lz4, CompressionType::Lz4, CompressionType::Zstd, CompressionType::Zstd],
            write_buffer_size: ReadableSize::mb(128),
            max_write_buffer_number: 5,
            min_write_buffer_number_to_merge: 1,
            max_bytes_for_level_base: ReadableSize::mb(512),
            target_file_size_base: ReadableSize::mb(32),
            level0_file_num_compaction_trigger: 4,
            level0_slowdown_writes_trigger: 20,
            level0_stop_writes_trigger: 36,
            max_compaction_bytes: ReadableSize::gb(2),
            compaction_pri: CompactionPriority::ByCompensatedSize,
        }
    }

    pub fn defaults(total_mem_bytes: u64) -> (r: RaftDefaultCfConfig)
        ensures
            r@ == Self::spec_defaults(total_mem_bytes),
    {
        proof {
            lemma_memory_mb_fits(total_mem_bytes, true, CfName::Default);
        }
        let mut compression_per_level: Vec<CompressionType> = Vec::new();
        compression_per_level.push(CompressionType::No);
        compression_per_level.push(CompressionType::No);
        compression_per_level.push(CompressionType::Lz4);
        compression_per_level.push(CompressionType::Lz4);
        compression_per_level.push(CompressionType::Lz4);
        compression_per_level.push(CompressionType::Zstd);
        compression_per_level.push(CompressionType::Zstd);
        let r = RaftDefaultCfConfig {
            cf: CfConfig {
                block_size: ReadableSize::kb(64),
                block_cache_size: ReadableSize::mb(memory_mb_for_cf(total_mem_bytes, true, CfName::Default)),
                cache_index_and_filter_blocks: true,
                use_bloom_filter: false,
                whole_key_filtering: true,
                bloom_filter_bits_per_key: 10,
                block_based_bloom_filter: false,
                compression_per_level: compression_per_level,
                write_buffer_size: ReadableSize::mb(128),
                max_write_buffer_number: 5,
                min_write_buffer_number_to_merge: 1,
                max_bytes_for_level_base: ReadableSize::mb(512),
                target_file_size_base: ReadableSize::mb(32),
                level0_file_num_compaction_trigger: 4,
                level0_slowdown_writes_trigger: 20,
                level0_stop_writes_trigger: 36,
                max_compaction_bytes: ReadableSize::gb(2),
                compaction_pri: CompactionPriority::ByCompensatedSize,
            },
        };
        proof {
            assert(r@ =~= Self::spec_defaults(total_mem_bytes));
        }
        r
    }

    /// What this variant's builder produces: the common part, which then attaches a fixed-prefix extractor over the consensus-log key region prefix, registered as a memtable insert-hint extractor.
    pub open spec fn spec_build_opt(c: CfConfigView) -> ColumnFamilyOptionsView {
        ColumnFamilyOptionsView {
            prefix_extractor: Some(PrefixExtractorView { name: seq![82u8, 97, 102, 116, 80, 114, 101, 102, 105, 120, 83, 108, 105, 99, 101, 84, 114, 97, 110, 115, 102, 111, 114, 109], transform: SliceTransform::FixedPrefix(REGION_RAFT_PREFIX_LEN), role: ExtractorRole::MemtableInsertHint }),
            ..spec_build_cf_opt(c)
        }
    }

    /// Builds this column family's engine-ready option object.
    pub fn build_opt(&self) -> (r: ColumnFamilyOptions)
        ensures
            r@ == Self::spec_build_opt(self@),
    {
        let mut o = build_cf_opt(&self.cf);
        o.prefix_extractor = Some(PrefixExtractor { name: bytes_of([82u8, 97, 102, 116, 80, 114, 101, 102, 105, 120, 83, 108, 105, 99, 101, 84, 114, 97, 110, 115, 102, 111, 114, 109].as_slice()), transform: SliceTransform::FixedPrefix(REGION_RAFT_PREFIX_LEN), role: ExtractorRole::MemtableInsertHint });  // "RaftPrefixSliceTransform"
        proof {
            assert(o@ =~= Self::spec_build_opt(self@));
        }
        o
    }
}

} // verus!
