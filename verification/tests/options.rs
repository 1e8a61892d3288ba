//! Tests of the Memory Sizing Advisor, the option-object builders, and the
//! human-readable unit and enumeration codecs.

use tikv_config::cf::{DefaultCfConfig, LockCfConfig, RaftCfConfig, RaftDefaultCfConfig, WriteCfConfig, REGION_RAFT_PREFIX_LEN};
use tikv_config::db::{DbConfig, RaftDbConfig};
use tikv_config::engine::{
    compaction_pri_from_wire, compaction_pri_wire, compression_from_name, compression_name,
    recovery_mode_from_wire, recovery_mode_wire, BloomFilterParams, CompactionPriority,
    CompressionType, ExtractorRole, PropertiesCollector, RecoveryMode, SliceTransform,
};
use tikv_config::memory::{memory_mb_for_cf, CfName};
use tikv_config::tree::{log_level_from_name, log_level_name, LogLevel};
use tikv_config::units::{fmt_dur, fmt_size, parse_dur, parse_size, ReadableDuration, ReadableSize};

const TOTAL_MEM_16GIB: u64 = 17179869184;

#[test]
fn test_memory_advisor_ratios() {
    // 25% of 16GiB is exactly 4096MB; 15% is 2457MB after rounding down.
    assert_eq!(memory_mb_for_cf(TOTAL_MEM_16GIB, false, CfName::Default), 4096);
    assert_eq!(memory_mb_for_cf(TOTAL_MEM_16GIB, false, CfName::Write), 2457);
    assert_eq!(memory_mb_for_cf(TOTAL_MEM_16GIB, false, CfName::Lock), 327);
    assert_eq!(memory_mb_for_cf(TOTAL_MEM_16GIB, true, CfName::Default), 327);
}

#[test]
fn test_memory_advisor_raft_clamp_floor() {
    // 2% of 1GiB is far below the 256MB floor.
    assert_eq!(memory_mb_for_cf(1073741824, true, CfName::Default), 256);
}

#[test]
fn test_memory_advisor_raft_clamp_ceiling() {
    // 2% of 200GiB exceeds the 2GB ceiling.
    assert_eq!(memory_mb_for_cf(200 * 1073741824, true, CfName::Default), 2048);
}

#[test]
fn test_memory_advisor_lock_clamp() {
    assert_eq!(memory_mb_for_cf(1073741824, false, CfName::Lock), 256);
    assert_eq!(memory_mb_for_cf(200 * 1073741824, false, CfName::Lock), 1024);
}

#[test]
fn test_default_cache_sizes_follow_advisor() {
    // Scenario: a host with 16GiB of memory gets a 4096MB main default cache.
    let cfg = DefaultCfConfig::defaults(TOTAL_MEM_16GIB);
    assert_eq!(cfg.cf.block_cache_size, ReadableSize::mb(4096));
    let w = WriteCfConfig::defaults(TOTAL_MEM_16GIB);
    assert_eq!(w.cf.block_cache_size, ReadableSize::mb(2457));
    let r = RaftCfConfig::defaults();
    assert_eq!(r.cf.block_cache_size, ReadableSize::mb(128));
}

#[test]
fn test_bloom_filter_disabled_leaves_no_trace() {
    let mut cfg = DefaultCfConfig::defaults(TOTAL_MEM_16GIB);
    cfg.cf.use_bloom_filter = false;
    let opts = cfg.build_opt();
    assert_eq!(opts.block_based.bloom_filter, None);
    assert_eq!(opts.block_based.whole_key_filtering, None);
}

#[test]
fn test_bloom_filter_enabled_set_exactly() {
    let mut cfg = DefaultCfConfig::defaults(TOTAL_MEM_16GIB);
    cfg.cf.use_bloom_filter = true;
    cfg.cf.bloom_filter_bits_per_key = 23;
    cfg.cf.block_based_bloom_filter = true;
    cfg.cf.whole_key_filtering = false;
    let opts = cfg.build_opt();
    assert_eq!(
        opts.block_based.bloom_filter,
        Some(BloomFilterParams { bits_per_key: 23, block_based: true })
    );
    assert_eq!(opts.block_based.whole_key_filtering, Some(false));
}

#[test]
fn test_cf_builder_common_fields() {
    let cfg = DefaultCfConfig::defaults(TOTAL_MEM_16GIB);
    let opts = cfg.build_opt();
    assert_eq!(opts.block_based.block_size, 64 * 1024);
    assert_eq!(opts.block_based.lru_cache_size, 4096 * 1024 * 1024);
    assert!(opts.block_based.cache_index_and_filter_blocks);
    assert_eq!(
        opts.compression_per_level,
        vec![
            CompressionType::No,
            CompressionType::No,
            CompressionType::Lz4,
            CompressionType::Lz4,
            CompressionType::Lz4,
            CompressionType::Zstd,
            CompressionType::Zstd,
        ]
    );
    assert_eq!(opts.write_buffer_size, 128 * 1024 * 1024);
    assert_eq!(opts.level0_file_num_compaction_trigger, 4);
    assert_eq!(opts.compaction_pri, CompactionPriority::MinOverlappingRatio);
    assert_eq!(opts.property_collectors, vec![PropertiesCollector::SizeProperties]);
    assert_eq!(opts.prefix_extractor, None);
    assert_eq!(opts.memtable_prefix_bloom_percent, None);
}

#[test]
fn test_write_cf_extras() {
    let cfg = WriteCfConfig::defaults(TOTAL_MEM_16GIB);
    let opts = cfg.build_opt();
    let e = opts.prefix_extractor.unwrap();
    assert_eq!(e.name, b"FixedSuffixSliceTransform".to_vec());
    assert_eq!(e.transform, SliceTransform::FixedSuffix(8));
    assert_eq!(e.role, ExtractorRole::PrefixSeek);
    assert_eq!(opts.memtable_prefix_bloom_percent, Some(10));
    assert_eq!(
        opts.property_collectors,
        vec![PropertiesCollector::MvccProperties, PropertiesCollector::SizeProperties]
    );
}

#[test]
fn test_lock_cf_extras() {
    let cfg = LockCfConfig::defaults(TOTAL_MEM_16GIB);
    let opts = cfg.build_opt();
    let e = opts.prefix_extractor.unwrap();
    assert_eq!(e.name, b"NoopSliceTransform".to_vec());
    assert_eq!(e.transform, SliceTransform::Noop);
    assert_eq!(e.role, ExtractorRole::PrefixSeek);
    assert_eq!(opts.memtable_prefix_bloom_percent, Some(10));
    assert_eq!(opts.property_collectors, Vec::<PropertiesCollector>::new());
}

#[test]
fn test_raft_default_cf_extras() {
    let cfg = RaftDefaultCfConfig::defaults(TOTAL_MEM_16GIB);
    let opts = cfg.build_opt();
    let e = opts.prefix_extractor.unwrap();
    assert_eq!(e.name, b"RaftPrefixSliceTransform".to_vec());
    assert_eq!(e.transform, SliceTransform::FixedPrefix(REGION_RAFT_PREFIX_LEN));
    assert_eq!(e.role, ExtractorRole::MemtableInsertHint);
    assert_eq!(opts.memtable_prefix_bloom_percent, None);
}

#[test]
fn test_db_builder_no_rate_limiter_at_zero() {
    // Scenario: `rate-bytes-per-sec = "0KB"` attaches no rate limiter.
    let cfg = DbConfig::defaults(TOTAL_MEM_16GIB);
    let opts = cfg.build_opt();
    assert_eq!(opts.rate_bytes_per_sec, None);
}

#[test]
fn test_db_builder_positive_rate_limiter() {
    let mut cfg = DbConfig::defaults(TOTAL_MEM_16GIB);
    cfg.rate_bytes_per_sec = ReadableSize::kb(1);
    let opts = cfg.build_opt();
    assert_eq!(opts.rate_bytes_per_sec, Some(1024));
}

#[test]
fn test_db_builder_conditional_knobs() {
    let mut cfg = DbConfig::defaults(TOTAL_MEM_16GIB);
    let opts = cfg.build_opt();
    assert_eq!(opts.wal_dir, None);
    assert_eq!(opts.info_log_dir, None);
    assert_eq!(opts.stats_dump_period_secs, Some(600));
    assert_eq!(opts.max_background_jobs, Some(6));
    assert_eq!(opts.allow_concurrent_memtable_write, None);
    assert_eq!(opts.event_listener_tag, b"kv".to_vec());
    cfg.wal_dir = b"/wal".to_vec();
    cfg.enable_statistics = false;
    let opts2 = cfg.build_opt();
    assert_eq!(opts2.wal_dir, Some(b"/wal".to_vec()));
    assert_eq!(opts2.stats_dump_period_secs, None);
}

#[test]
fn test_raftdb_builder_shape() {
    let cfg = RaftDbConfig::defaults(TOTAL_MEM_16GIB);
    let opts = cfg.build_opt();
    assert_eq!(opts.rate_bytes_per_sec, None);
    assert_eq!(opts.max_background_jobs, None);
    assert_eq!(opts.allow_concurrent_memtable_write, Some(false));
    assert_eq!(opts.event_listener_tag, b"raft".to_vec());
}

#[test]
fn test_build_cf_opts_names_and_order() {
    let cfg = DbConfig::defaults(TOTAL_MEM_16GIB);
    let pairs = cfg.build_cf_opts();
    assert_eq!(pairs.len(), 4);
    assert_eq!(pairs[0].cf, b"default".to_vec());
    assert_eq!(pairs[1].cf, b"lock".to_vec());
    assert_eq!(pairs[2].cf, b"write".to_vec());
    assert_eq!(pairs[3].cf, b"raft".to_vec());
    assert_eq!(pairs[0].options, cfg.defaultcf.build_opt());
    let raft = RaftDbConfig::defaults(TOTAL_MEM_16GIB);
    let rpairs = raft.build_cf_opts();
    assert_eq!(rpairs.len(), 1);
    assert_eq!(rpairs[0].cf, b"default".to_vec());
}

#[test]
fn test_size_textual_forms() {
    assert_eq!(fmt_size(0), b"0KB".to_vec());
    assert_eq!(fmt_size(64 * 1024), b"64KB".to_vec());
    assert_eq!(fmt_size(4 * 1024 * 1024 * 1024), b"4GB".to_vec());
    assert_eq!(fmt_size(12345), b"12345".to_vec());
    assert_eq!(parse_size(b"0KB"), Some(0));
    assert_eq!(parse_size(b"128MB"), Some(128 * 1024 * 1024));
    assert_eq!(parse_size(b"12345"), Some(12345));
    assert_eq!(parse_size(b"12XB"), None);
    assert_eq!(parse_size(b""), None);
    let samples: [u64; 5] = [0, 1, 1024, 123456789, 2 * 1024 * 1024 * 1024];
    for v in samples {
        assert_eq!(parse_size(&fmt_size(v)), Some(v));
    }
}

#[test]
fn test_duration_textual_forms() {
    assert_eq!(fmt_dur(0), b"0s".to_vec());
    assert_eq!(fmt_dur(15000), b"15s".to_vec());
    assert_eq!(fmt_dur(600000), b"10m".to_vec());
    assert_eq!(fmt_dur(7200000), b"2h".to_vec());
    assert_eq!(fmt_dur(1500), b"1500ms".to_vec());
    assert_eq!(parse_dur(b"10m"), Some(600000));
    assert_eq!(parse_dur(b"90s"), Some(90000));
    assert_eq!(parse_dur(b"5x"), None);
    let samples: [u64; 5] = [0, 1, 999, 61000, 3600000];
    for v in samples {
        assert_eq!(parse_dur(&fmt_dur(v)), Some(v));
    }
}

#[test]
fn test_unit_constructors() {
    assert_eq!(ReadableSize::kb(1).0, 1024);
    assert_eq!(ReadableSize::mb(20).0, 20 * 1024 * 1024);
    assert_eq!(ReadableSize::gb(4).0, 4 * 1024 * 1024 * 1024);
    assert_eq!(ReadableSize::mb(3).as_mb(), 3);
    assert_eq!(ReadableDuration::secs(15).0, 15000);
    assert_eq!(ReadableDuration::minutes(10).as_secs(), 600);
    assert_eq!(ReadableDuration::hours(2).0, 7200000);
}

#[test]
fn test_enum_wire_forms() {
    assert_eq!(recovery_mode_wire(RecoveryMode::PointInTime), 2);
    assert_eq!(recovery_mode_from_wire(1), Some(RecoveryMode::AbsoluteConsistency));
    assert_eq!(recovery_mode_from_wire(7), None);
    assert_eq!(compaction_pri_wire(CompactionPriority::MinOverlappingRatio), 3);
    assert_eq!(compaction_pri_from_wire(0), Some(CompactionPriority::ByCompensatedSize));
    assert_eq!(compaction_pri_from_wire(-1), None);
    assert_eq!(compression_name(CompressionType::Zstd), b"zstd".to_vec());
    assert_eq!(compression_from_name(b"lz4hc"), Some(CompressionType::Lz4hc));
    assert_eq!(compression_from_name(b"gzip"), None);
    assert_eq!(log_level_name(LogLevel::Warn), b"warn".to_vec());
    assert_eq!(log_level_from_name(b"error"), Some(LogLevel::Error));
    assert_eq!(log_level_from_name(b"loud"), None);
}
