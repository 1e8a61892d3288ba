//! Tests of document reading/writing and of the validation pass.

use tikv_config::cf::{
    CfConfig, DefaultCfConfig, LockCfConfig, RaftCfConfig, RaftDefaultCfConfig, WriteCfConfig,
};
use tikv_config::codec::{format_toml, parse_toml};
use tikv_config::db::{DbConfig, RaftDbConfig};
use tikv_config::engine::{CompactionPriority, CompressionType, RecoveryMode};
use tikv_config::errors::{ConfigError, ParseError};
use tikv_config::satellites::{
    MetricConfig, PdConfig, RaftstoreConfig, ServerConfig, StorageConfig,
};
use tikv_config::tree::{LogLevel, TiKvConfig};
use tikv_config::units::{ReadableDuration, ReadableSize};

const TOTAL_MEM_16GIB: u64 = 17179869184;

const DEFAULT_TIKV_CONFIG: &[u8] = b"log-level = \"info\"\n\
log-file = \"\"\n\
[server]\n\
addr = \"127.0.0.1:20160\"\n\
advertise-addr = \"\"\n\
[storage]\n\
data-dir = \"/tmp/tikv/store\"\n\
[pd]\n\
endpoints = []\n\
[metric]\n\
interval = \"15s\"\n\
address = \"\"\n\
job = \"tikv\"\n\
[raftstore]\n\
raftdb-path = \"\"\n\
[rocksdb]\n\
wal-recovery-mode = 2\n\
wal-dir = \"\"\n\
wal-ttl-seconds = 0\n\
wal-size-limit = \"0KB\"\n\
max-total-wal-size = \"4GB\"\n\
max-background-jobs = 6\n\
max-manifest-file-size = \"20MB\"\n\
create-if-missing = true\n\
max-open-files = 40960\n\
enable-statistics = true\n\
stats-dump-period = \"10m\"\n\
compaction-readahead-size = \"0KB\"\n\
info-log-max-size = \"0KB\"\n\
info-log-roll-time = \"0s\"\n\
info-log-dir = \"\"\n\
rate-bytes-per-sec = \"0KB\"\n\
max-sub-compactions = 1\n\
writable-file-max-buffer-size = \"1MB\"\n\
use-direct-io-for-flush-and-compaction = false\n\
enable-pipelined-write = true\n\
backup-dir = \"\"\n\
[rocksdb.defaultcf]\n\
block-size = \"64KB\"\n\
block-cache-size = \"4GB\"\n\
cache-index-and-filter-blocks = true\n\
use-bloom-filter = true\n\
whole-key-filtering = true\n\
bloom-filter-bits-per-key = 10\n\
block-based-bloom-filter = false\n\
compression-per-level = [\"no\", \"no\", \"lz4\", \"lz4\", \"lz4\", \"zstd\", \"zstd\"]\n\
write-buffer-size = \"128MB\"\n\
max-write-buffer-number = 5\n\
min-write-buffer-number-to-merge = 1\n\
max-bytes-for-level-base = \"512MB\"\n\
target-file-size-base = \"32MB\"\n\
level0-file-num-compaction-trigger = 4\n\
level0-slowdown-writes-trigger = 20\n\
level0-stop-writes-trigger = 36\n\
max-compaction-bytes = \"2GB\"\n\
compaction-pri = 3\n\
[rocksdb.writecf]\n\
block-size = \"64KB\"\n\
block-cache-size = \"2457MB\"\n\
cache-index-and-filter-blocks = true\n\
use-bloom-filter = true\n\
whole-key-filtering = false\n\
bloom-filter-bits-per-key = 10\n\
block-based-bloom-filter = false\n\
compression-per-level = [\"no\", \"no\", \"lz4\", \"lz4\", \"lz4\", \"zstd\", \"zstd\"]\n\
write-buffer-size = \"128MB\"\n\
max-write-buffer-number = 5\n\
min-write-buffer-number-to-merge = 1\n\
max-bytes-for-level-base = \"512MB\"\n\
target-file-size-base = \"32MB\"\n\
level0-file-num-compaction-trigger = 4\n\
level0-slowdown-writes-trigger = 20\n\
level0-stop-writes-trigger = 36\n\
max-compaction-bytes = \"2GB\"\n\
compaction-pri = 3\n\
[rocksdb.lockcf]\n\
block-size = \"16KB\"\n\
block-cache-size = \"327MB\"\n\
cache-index-and-filter-blocks = true\n\
use-bloom-filter = true\n\
whole-key-filtering = true\n\
bloom-filter-bits-per-key = 10\n\
block-based-bloom-filter = false\n\
compression-per-level = [\"no\", \"no\", \"no\", \"no\", \"no\", \"no\", \"no\"]\n\
write-buffer-size = \"128MB\"\n\
max-write-buffer-number = 5\n\
min-write-buffer-number-to-merge = 1\n\
max-bytes-for-level-base = \"128MB\"\n\
target-file-size-base = \"32MB\"\n\
level0-file-num-compaction-trigger = 1\n\
level0-slowdown-writes-trigger = 20\n\
level0-stop-writes-trigger = 36\n\
max-compaction-bytes = \"2GB\"\n\
compaction-pri = 0\n\
[rocksdb.raftcf]\n\
block-size = \"16KB\"\n\
block-cache-size = \"128MB\"\n\
cache-index-and-filter-blocks = true\n\
use-bloom-filter = true\n\
whole-key-filtering = true\n\
bloom-filter-bits-per-key = 10\n\
block-based-bloom-filter = false\n\
compression-per-level = [\"no\", \"no\", \"no\", \"no\", \"no\", \"no\", \"no\"]\n\
write-buffer-size = \"128MB\"\n\
max-write-buffer-number = 5\n\
min-write-buffer-number-to-merge = 1\n\
max-bytes-for-level-base = \"128MB\"\n\
target-file-size-base = \"32MB\"\n\
level0-file-num-compaction-trigger = 1\n\
level0-slowdown-writes-trigger = 20\n\
level0-stop-writes-trigger = 36\n\
max-compaction-bytes = \"2GB\"\n\
compaction-pri = 0\n\
[raftdb]\n\
wal-recovery-mode = 2\n\
wal-dir = \"\"\n\
wal-ttl-seconds = 0\n\
wal-size-limit = \"0KB\"\n\
max-total-wal-size = \"4GB\"\n\
max-manifest-file-size = \"20MB\"\n\
create-if-missing = true\n\
max-open-files = 40960\n\
enable-statistics = true\n\
stats-dump-period = \"10m\"\n\
compaction-readahead-size = \"0KB\"\n\
info-log-max-size = \"0KB\"\n\
info-log-roll-time = \"0s\"\n\
info-log-dir = \"\"\n\
max-sub-compactions = 1\n\
writable-file-max-buffer-size = \"1MB\"\n\
use-direct-io-for-flush-and-compaction = false\n\
enable-pipelined-write = true\n\
allow-concurrent-memtable-write = false\n\
[raftdb.defaultcf]\n\
block-size = \"64KB\"\n\
block-cache-size = \"327MB\"\n\
cache-index-and-filter-blocks = true\n\
use-bloom-filter = false\n\
whole-key-filtering = true\n\
bloom-filter-bits-per-key = 10\n\
block-based-bloom-filter = false\n\
compression-per-level = [\"no\", \"no\", \"lz4\", \"lz4\", \"lz4\", \"zstd\", \"zstd\"]\n\
write-buffer-size = \"128MB\"\n\
max-write-buffer-number = 5\n\
min-write-buffer-number-to-merge = 1\n\
max-bytes-for-level-base = \"512MB\"\n\
target-file-size-base = \"32MB\"\n\
level0-file-num-compaction-trigger = 4\n\
level0-slowdown-writes-trigger = 20\n\
level0-stop-writes-trigger = 36\n\
max-compaction-bytes = \"2GB\"\n\
compaction-pri = 0\n";

const CUSTOM_TIKV_CONFIG: &[u8] = b"log-level = \"warn\"\n\
log-file = \"foo\"\n\
[server]\n\
addr = \"example.com:443\"\n\
advertise-addr = \"example.com:443\"\n\
[storage]\n\
data-dir = \"/var\"\n\
[pd]\n\
endpoints = [\"example.com:443\"]\n\
[metric]\n\
interval = \"12s\"\n\
address = \"example.com:443\"\n\
job = \"tikv_1\"\n\
[raftstore]\n\
raftdb-path = \"/var\"\n\
[rocksdb]\n\
wal-recovery-mode = 1\n\
wal-dir = \"/var\"\n\
wal-ttl-seconds = 1\n\
wal-size-limit = \"1KB\"\n\
max-total-wal-size = \"1GB\"\n\
max-background-jobs = 12\n\
max-manifest-file-size = \"12MB\"\n\
create-if-missing = false\n\
max-open-files = 12345\n\
enable-statistics = false\n\
stats-dump-period = \"12m\"\n\
compaction-readahead-size = \"1KB\"\n\
info-log-max-size = \"1KB\"\n\
info-log-roll-time = \"12s\"\n\
info-log-dir = \"/var\"\n\
rate-bytes-per-sec = \"1KB\"\n\
max-sub-compactions = 12\n\
writable-file-max-buffer-size = \"12MB\"\n\
use-direct-io-for-flush-and-compaction = true\n\
enable-pipelined-write = false\n\
backup-dir = \"/var\"\n\
[rocksdb.defaultcf]\n\
block-size = \"12KB\"\n\
block-cache-size = \"12GB\"\n\
cache-index-and-filter-blocks = false\n\
use-bloom-filter = false\n\
whole-key-filtering = true\n\
bloom-filter-bits-per-key = 123\n\
block-based-bloom-filter = true\n\
compression-per-level = [\"no\", \"no\", \"zstd\", \"zstd\", \"no\", \"zstd\", \"lz4\"]\n\
write-buffer-size = \"1MB\"\n\
max-write-buffer-number = 12\n\
min-write-buffer-number-to-merge = 12\n\
max-bytes-for-level-base = \"12KB\"\n\
target-file-size-base = \"123KB\"\n\
level0-file-num-compaction-trigger = 123\n\
level0-slowdown-writes-trigger = 123\n\
level0-stop-writes-trigger = 123\n\
max-compaction-bytes = \"1GB\"\n\
compaction-pri = 3\n\
[rocksdb.writecf]\n\
block-size = \"12KB\"\n\
block-cache-size = \"12GB\"\n\
cache-index-and-filter-blocks = false\n\
use-bloom-filter = false\n\
whole-key-filtering = true\n\
bloom-filter-bits-per-key = 123\n\
block-based-bloom-filter = true\n\
compression-per-level = [\"no\", \"no\", \"zstd\", \"zstd\", \"no\", \"zstd\", \"lz4\"]\n\
write-buffer-size = \"1MB\"\n\
max-write-buffer-number = 12\n\
min-write-buffer-number-to-merge = 12\n\
max-bytes-for-level-base = \"12KB\"\n\
target-file-size-base = \"123KB\"\n\
level0-file-num-compaction-trigger = 123\n\
level0-slowdown-writes-trigger = 123\n\
level0-stop-writes-trigger = 123\n\
max-compaction-bytes = \"1GB\"\n\
compaction-pri = 3\n\
[rocksdb.lockcf]\n\
block-size = \"12KB\"\n\
block-cache-size = \"12GB\"\n\
cache-index-and-filter-blocks = false\n\
use-bloom-filter = false\n\
whole-key-filtering = true\n\
bloom-filter-bits-per-key = 123\n\
block-based-bloom-filter = true\n\
compression-per-level = [\"no\", \"no\", \"zstd\", \"zstd\", \"no\", \"zstd\", \"lz4\"]\n\
write-buffer-size = \"1MB\"\n\
max-write-buffer-number = 12\n\
min-write-buffer-number-to-merge = 12\n\
max-bytes-for-level-base = \"12KB\"\n\
target-file-size-base = \"123KB\"\n\
level0-file-num-compaction-trigger = 123\n\
level0-slowdown-writes-trigger = 123\n\
level0-stop-writes-trigger = 123\n\
max-compaction-bytes = \"1GB\"\n\
compaction-pri = 3\n\
[rocksdb.raftcf]\n\
block-size = \"12KB\"\n\
block-cache-size = \"12GB\"\n\
cache-index-and-filter-blocks = false\n\
use-bloom-filter = false\n\
whole-key-filtering = true\n\
bloom-filter-bits-per-key = 123\n\
block-based-bloom-filter = true\n\
compression-per-level = [\"no\", \"no\", \"zstd\", \"zstd\", \"no\", \"zstd\", \"lz4\"]\n\
write-buffer-size = \"1MB\"\n\
max-write-buffer-number = 12\n\
min-write-buffer-number-to-merge = 12\n\
max-bytes-for-level-base = \"12KB\"\n\
target-file-size-base = \"123KB\"\n\
level0-file-num-compaction-trigger = 123\n\
level0-slowdown-writes-trigger = 123\n\
level0-stop-writes-trigger = 123\n\
max-compaction-bytes = \"1GB\"\n\
compaction-pri = 3\n\
[raftdb]\n\
wal-recovery-mode = 3\n\
wal-dir = \"/var\"\n\
wal-ttl-seconds = 1\n\
wal-size-limit = \"1KB\"\n\
max-total-wal-size = \"1GB\"\n\
max-manifest-file-size = \"12MB\"\n\
create-if-missing = false\n\
max-open-files = 12345\n\
enable-statistics = false\n\
stats-dump-period = \"12m\"\n\
compaction-readahead-size = \"1KB\"\n\
info-log-max-size = \"1KB\"\n\
info-log-roll-time = \"12s\"\n\
info-log-dir = \"/var\"\n\
max-sub-compactions = 12\n\
writable-file-max-buffer-size = \"12MB\"\n\
use-direct-io-for-flush-and-compaction = true\n\
enable-pipelined-write = false\n\
allow-concurrent-memtable-write = true\n\
[raftdb.defaultcf]\n\
block-size = \"12KB\"\n\
block-cache-size = \"12GB\"\n\
cache-index-and-filter-blocks = false\n\
use-bloom-filter = false\n\
whole-key-filtering = true\n\
bloom-filter-bits-per-key = 123\n\
block-based-bloom-filter = true\n\
compression-per-level = [\"no\", \"no\", \"zstd\", \"zstd\", \"no\", \"zstd\", \"lz4\"]\n\
write-buffer-size = \"1MB\"\n\
max-write-buffer-number = 12\n\
min-write-buffer-number-to-merge = 12\n\
max-bytes-for-level-base = \"12KB\"\n\
target-file-size-base = \"123KB\"\n\
level0-file-num-compaction-trigger = 123\n\
level0-slowdown-writes-trigger = 123\n\
level0-stop-writes-trigger = 123\n\
max-compaction-bytes = \"1GB\"\n\
compaction-pri = 3\n";

#[test]
fn test_toml_serde_roundtrippping() {
    let value = TiKvConfig::defaults(TOTAL_MEM_16GIB);
    let dump = format_toml(&value);
    let load = parse_toml(&dump, TiKvConfig::defaults(TOTAL_MEM_16GIB)).unwrap();
    assert_eq!(value, load);
}

#[test]
fn test_deserialize_default_config() {
    let load = parse_toml(DEFAULT_TIKV_CONFIG, TiKvConfig::defaults(TOTAL_MEM_16GIB)).unwrap();
    assert_eq!(load, TiKvConfig::defaults(TOTAL_MEM_16GIB));
}

#[test]
fn test_deserialize_custom_config() {
    let value = {
    let mut value = TiKvConfig::defaults(TOTAL_MEM_16GIB);
    value.log_level = LogLevel::Warn;
    value.log_file = b"foo".to_vec();
    value.server = ServerConfig {
        addr: b"example.com:443".to_vec(),
        advertise_addr: b"example.com:443".to_vec(),
    };
    value.storage = StorageConfig { data_dir: b"/var".to_vec() };
    value.pd = PdConfig { endpoints: vec![b"example.com:443".to_vec()] };
    value.metric = MetricConfig {
        interval: ReadableDuration::secs(12),
        address: b"example.com:443".to_vec(),
        job: b"tikv_1".to_vec(),
    };
    value.raft_store = RaftstoreConfig { raftdb_path: b"/var".to_vec() };
    value.rocksdb = DbConfig {
        wal_recovery_mode: RecoveryMode::AbsoluteConsistency,
        wal_dir: b"/var".to_vec(),
        wal_ttl_seconds: 1,
        wal_size_limit: ReadableSize::kb(1),
        max_total_wal_size: ReadableSize::gb(1),
        max_background_jobs: 12,
        max_manifest_file_size: ReadableSize::mb(12),
        create_if_missing: false,
        max_open_files: 12345,
        enable_statistics: false,
        stats_dump_period: ReadableDuration::minutes(12),
        compaction_readahead_size: ReadableSize::kb(1),
        info_log_max_size: ReadableSize::kb(1),
        info_log_roll_time: ReadableDuration::secs(12),
        info_log_dir: b"/var".to_vec(),
        rate_bytes_per_sec: ReadableSize::kb(1),
        max_sub_compactions: 12,
        writable_file_max_buffer_size: ReadableSize::mb(12),
        use_direct_io_for_flush_and_compaction: true,
        enable_pipelined_write: false,
        backup_dir: b"/var".to_vec(),
        defaultcf: DefaultCfConfig { cf: CfConfig {
            block_size: ReadableSize::kb(12),
            block_cache_size: ReadableSize::gb(12),
            cache_index_and_filter_blocks: false,
            use_bloom_filter: false,
            whole_key_filtering: true,
            bloom_filter_bits_per_key: 123,
            block_based_bloom_filter: true,
            compression_per_level: vec![CompressionType::No, CompressionType::No, CompressionType::Zstd, CompressionType::Zstd, CompressionType::No, CompressionType::Zstd, CompressionType::Lz4],
            write_buffer_size: ReadableSize::mb(1),
            max_write_buffer_number: 12,
            min_write_buffer_number_to_merge: 12,
            max_bytes_for_level_base: ReadableSize::kb(12),
            target_file_size_base: ReadableSize::kb(123),
            level0_file_num_compaction_trigger: 123,
            level0_slowdown_writes_trigger: 123,
            level0_stop_writes_trigger: 123,
            max_compaction_bytes: ReadableSize::gb(1),
            compaction_pri: CompactionPriority::MinOverlappingRatio,
        } },
        writecf: WriteCfConfig { cf: CfConfig {
            block_size: ReadableSize::kb(12),
            block_cache_size: ReadableSize::gb(12),
            cache_index_and_filter_blocks: false,
            use_bloom_filter: false,
            whole_key_filtering: true,
            bloom_filter_bits_per_key: 123,
            block_based_bloom_filter: true,
            compression_per_level: vec![CompressionType::No, CompressionType::No, CompressionType::Zstd, CompressionType::Zstd, CompressionType::No, CompressionType::Zstd, CompressionType::Lz4],
            write_buffer_size: ReadableSize::mb(1),
            max_write_buffer_number: 12,
            min_write_buffer_number_to_merge: 12,
            max_bytes_for_level_base: ReadableSize::kb(12),
            target_file_size_base: ReadableSize::kb(123),
            level0_file_num_compaction_trigger: 123,
            level0_slowdown_writes_trigger: 123,
            level0_stop_writes_trigger: 123,
            max_compaction_bytes: ReadableSize::gb(1),
            compaction_pri: CompactionPriority::MinOverlappingRatio,
        } },
        lockcf: LockCfConfig { cf: CfConfig {
            block_size: ReadableSize::kb(12),
            block_cache_size: ReadableSize::gb(12),
            cache_index_and_filter_blocks: false,
            use_bloom_filter: false,
            whole_key_filtering: true,
            bloom_filter_bits_per_key: 123,
            block_based_bloom_filter: true,
            compression_per_level: vec![CompressionType::No, CompressionType::No, CompressionType::Zstd, CompressionType::Zstd, CompressionType::No, CompressionType::Zstd, CompressionType::Lz4],
            write_buffer_size: ReadableSize::mb(1),
            max_write_buffer_number: 12,
            min_write_buffer_number_to_merge: 12,
            max_bytes_for_level_base: ReadableSize::kb(12),
            target_file_size_base: ReadableSize::kb(123),
            level0_file_num_compaction_trigger: 123,
            level0_slowdown_writes_trigger: 123,
            level0_stop_writes_trigger: 123,
            max_compaction_bytes: ReadableSize::gb(1),
            compaction_pri: CompactionPriority::MinOverlappingRatio,
        } },
        raftcf: RaftCfConfig { cf: CfConfig {
            block_size: ReadableSize::kb(12),
            block_cache_size: ReadableSize::gb(12),
            cache_index_and_filter_blocks: false,
            use_bloom_filter: false,
            whole_key_filtering: true,
            bloom_filter_bits_per_key: 123,
            block_based_bloom_filter: true,
            compression_per_level: vec![CompressionType::No, CompressionType::No, CompressionType::Zstd, CompressionType::Zstd, CompressionType::No, CompressionType::Zstd, CompressionType::Lz4],
            write_buffer_size: ReadableSize::mb(1),
            max_write_buffer_number: 12,
            min_write_buffer_number_to_merge: 12,
            max_bytes_for_level_base: ReadableSize::kb(12),
            target_file_size_base: ReadableSize::kb(123),
            level0_file_num_compaction_trigger: 123,
            level0_slowdown_writes_trigger: 123,
            level0_stop_writes_trigger: 123,
            max_compaction_bytes: ReadableSize::gb(1),
            compaction_pri: CompactionPriority::MinOverlappingRatio,
        } },
    };
    value.raftdb = RaftDbConfig {
        wal_recovery_mode: RecoveryMode::SkipAnyCorruptedRecords,
        wal_dir: b"/var".to_vec(),
        wal_ttl_seconds: 1,
        wal_size_limit: ReadableSize::kb(1),
        max_total_wal_size: ReadableSize::gb(1),
        max_manifest_file_size: ReadableSize::mb(12),
        create_if_missing: false,
        max_open_files: 12345,
        enable_statistics: false,
        stats_dump_period: ReadableDuration::minutes(12),
        compaction_readahead_size: ReadableSize::kb(1),
        info_log_max_size: ReadableSize::kb(1),
        info_log_roll_time: ReadableDuration::secs(12),
        info_log_dir: b"/var".to_vec(),
        max_sub_compactions: 12,
        writable_file_max_buffer_size: ReadableSize::mb(12),
        use_direct_io_for_flush_and_compaction: true,
        enable_pipelined_write: false,
        allow_concurrent_memtable_write: true,
        defaultcf: RaftDefaultCfConfig { cf: CfConfig {
            block_size: ReadableSize::kb(12),
            block_cache_size: ReadableSize::gb(12),
            cache_index_and_filter_blocks: false,
            use_bloom_filter: false,
            whole_key_filtering: true,
            bloom_filter_bits_per_key: 123,
            block_based_bloom_filter: true,
            compression_per_level: vec![CompressionType::No, CompressionType::No, CompressionType::Zstd, CompressionType::Zstd, CompressionType::No, CompressionType::Zstd, CompressionType::Lz4],
            write_buffer_size: ReadableSize::mb(1),
            max_write_buffer_number: 12,
            min_write_buffer_number_to_merge: 12,
            max_bytes_for_level_base: ReadableSize::kb(12),
            target_file_size_base: ReadableSize::kb(123),
            level0_file_num_compaction_trigger: 123,
            level0_slowdown_writes_trigger: 123,
            level0_stop_writes_trigger: 123,
            max_compaction_bytes: ReadableSize::gb(1),
            compaction_pri: CompactionPriority::MinOverlappingRatio,
        } },
    };
    value
};
    let load = parse_toml(CUSTOM_TIKV_CONFIG, TiKvConfig::defaults(TOTAL_MEM_16GIB)).unwrap();
    assert_eq!(value, load);
}

#[test]
fn test_parse_onto_base_keeps_unset_fields() {
    let doc = b"[rocksdb]\nmax-background-jobs = 9\n";
    let load = parse_toml(doc, TiKvConfig::defaults(TOTAL_MEM_16GIB)).unwrap();
    let mut expected = TiKvConfig::defaults(TOTAL_MEM_16GIB);
    expected.rocksdb.max_background_jobs = 9;
    assert_eq!(load, expected);
}

#[test]
fn test_unknown_keys_and_sections_ignored() {
    let doc = b"nonsense-key = 1\n[made-up-section]\nfoo = \"bar\"\n";
    let load = parse_toml(doc, TiKvConfig::defaults(TOTAL_MEM_16GIB)).unwrap();
    assert_eq!(load, TiKvConfig::defaults(TOTAL_MEM_16GIB));
}

#[test]
fn test_parse_bad_value_rejected() {
    let doc = b"[rocksdb]\nmax-background-jobs = \"six\"\n";
    assert_eq!(
        parse_toml(doc, TiKvConfig::defaults(TOTAL_MEM_16GIB)),
        Err(ParseError::BadValue)
    );
    let doc2 = b"[rocksdb]\nwal-size-limit = \"12XB\"\n";
    assert_eq!(
        parse_toml(doc2, TiKvConfig::defaults(TOTAL_MEM_16GIB)),
        Err(ParseError::BadValue)
    );
}

#[test]
fn test_parse_syntax_rejected() {
    let doc = b"missing-newline = 1";
    assert_eq!(
        parse_toml(doc, TiKvConfig::defaults(TOTAL_MEM_16GIB)),
        Err(ParseError::Syntax)
    );
    let doc2 = b"no equals sign here\n";
    assert_eq!(
        parse_toml(doc2, TiKvConfig::defaults(TOTAL_MEM_16GIB)),
        Err(ParseError::Syntax)
    );
}

#[test]
fn test_validate_default_tree_needs_endpoints() {
    let mut cfg = TiKvConfig::defaults(TOTAL_MEM_16GIB);
    assert_eq!(cfg.validate(false, false), Err(ConfigError::EmptyEndpoints));
}

fn valid_tree() -> TiKvConfig {
    let mut cfg = TiKvConfig::defaults(TOTAL_MEM_16GIB);
    cfg.storage.data_dir = b"/var/lib/store".to_vec();
    cfg.pd.endpoints = vec![b"example.com:443".to_vec()];
    cfg
}

#[test]
fn test_validate_derives_paths() {
    let mut cfg = valid_tree();
    assert_eq!(cfg.validate(false, false), Ok(()));
    assert_eq!(cfg.raft_store.raftdb_path, b"/var/lib/store/raft".to_vec());
    assert_eq!(cfg.rocksdb.backup_dir, b"/var/lib/store/backup".to_vec());
}

#[test]
fn test_validate_rejects_path_conflict() {
    let mut cfg = valid_tree();
    cfg.raft_store.raftdb_path = b"/var/lib/store/db".to_vec();
    assert_eq!(cfg.validate(false, false), Err(ConfigError::RaftDbPathConflict));
}

#[test]
fn test_validate_normalizes_conflicting_path() {
    let mut cfg = valid_tree();
    cfg.raft_store.raftdb_path = b"/var/lib/store//db/".to_vec();
    assert_eq!(cfg.validate(false, false), Err(ConfigError::RaftDbPathConflict));
}

#[test]
fn test_validate_rejects_lone_kv_data() {
    let mut cfg = valid_tree();
    assert_eq!(
        cfg.validate(true, false),
        Err(ConfigError::KvEngineExistsWithoutRaftEngine)
    );
}

#[test]
fn test_validate_rejects_lone_raft_data() {
    let mut cfg = valid_tree();
    assert_eq!(
        cfg.validate(false, true),
        Err(ConfigError::RaftEngineExistsWithoutKvEngine)
    );
}

#[test]
fn test_validate_accepts_both_engines_present() {
    let mut cfg = valid_tree();
    assert_eq!(cfg.validate(true, true), Ok(()));
}

#[test]
fn test_validate_rejects_empty_data_dir() {
    let mut cfg = valid_tree();
    cfg.storage.data_dir = Vec::new();
    assert_eq!(cfg.validate(false, false), Err(ConfigError::EmptyDataDir));
}

#[test]
fn test_validate_rejects_relative_backup_dir() {
    let mut cfg = valid_tree();
    cfg.rocksdb.backup_dir = b"relative/backup".to_vec();
    assert_eq!(cfg.validate(false, false), Err(ConfigError::BackupDirNotAbsolute));
}

#[test]
fn test_validate_rejects_bad_addresses() {
    let mut cfg = valid_tree();
    cfg.server.addr = b"no-port-here".to_vec();
    assert_eq!(cfg.validate(false, false), Err(ConfigError::BadAddr));
    let mut cfg2 = valid_tree();
    cfg2.server.advertise_addr = b"bad addr:0".to_vec();
    assert_eq!(cfg2.validate(false, false), Err(ConfigError::BadAdvertiseAddr));
    let mut cfg3 = valid_tree();
    cfg3.pd.endpoints = vec![b"example.com:443".to_vec(), b"nonsense".to_vec()];
    assert_eq!(cfg3.validate(false, false), Err(ConfigError::BadEndpoint));
}

#[test]
fn test_defaults_from_host_matches_defaults() {
    if let Some((total, cfg)) = TiKvConfig::defaults_from_host() {
        assert_eq!(cfg, TiKvConfig::defaults(total));
    }
}
