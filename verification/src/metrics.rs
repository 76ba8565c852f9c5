//! The gauges through which the engine's own statistics are exported, and
//! the order in which the exporter samples them.

use vstd::prelude::*;

verus! {

/// Seconds between two rounds of sampling.
pub const STATS_INTERVAL_SECS: u64 = 5;

/// What a metrics registry needs to create one gauge.
#[derive(Clone, Copy, Debug)]
pub struct GaugeSpec {
    /// The gauge's name in the registry.
    pub name: &'static str,
    /// The line of help shown with it.
    pub help: &'static str,
    /// The name of its one label, which carries the store's name.
    pub label: &'static str,
}

/// One engine statistic and the gauge that takes its value.
#[derive(Clone, Copy, Debug)]
pub struct Sample {
    /// The name under which the engine reports the statistic.
    pub property: &'static str,
    pub gauge: GaugeSpec,
}

/// One gauge for each statistic of the engine that is watched.
#[derive(Clone, Copy, Debug)]
pub struct RocksDbMetrics {
    pub num_immutable_mem_table: GaugeSpec,
    pub mem_table_flush_pending: GaugeSpec,
    pub cur_size_active_mem_table: GaugeSpec,
    pub cur_size_all_mem_tables: GaugeSpec,
    pub size_all_mem_tables: GaugeSpec,
    pub num_entries_active_mem_table: GaugeSpec,
    pub num_entries_imm_mem_tables: GaugeSpec,
    pub num_deletes_active_mem_table: GaugeSpec,
    pub num_deletes_imm_mem_tables: GaugeSpec,
    pub compaction_pending: GaugeSpec,
    pub estimate_pending_compaction_bytes: GaugeSpec,
    pub num_running_compactions: GaugeSpec,
    pub num_running_flushes: GaugeSpec,
    pub background_errors: GaugeSpec,
    pub estimate_num_keys: GaugeSpec,
    pub estimate_live_data_size: GaugeSpec,
    pub estimate_oldest_key_time: GaugeSpec,
    pub estimate_table_readers_mem: GaugeSpec,
    pub is_file_deletions_enabled: GaugeSpec,
    pub total_sst_files_size: GaugeSpec,
    pub live_sst_files_size: GaugeSpec,
    pub min_obsolete_sst_number_to_keep: GaugeSpec,
    pub num_snapshots: GaugeSpec,
    pub oldest_snapshot_time: GaugeSpec,
    pub num_live_versions: GaugeSpec,
    pub current_super_version_number: GaugeSpec,
    pub min_log_number_to_keep: GaugeSpec,
    pub base_level: GaugeSpec,
    pub actual_delayed_write_rate: GaugeSpec,
    pub is_write_stopped: GaugeSpec,
    pub block_cache_capacity: GaugeSpec,
    pub block_cache_usage: GaugeSpec,
    pub block_cache_pinned_usage: GaugeSpec,
}

impl RocksDbMetrics {
    /// The gauges, each with its name and help, all labelled by `db`.
    pub fn new() -> (metrics: Self)
        ensures
            metrics.num_immutable_mem_table.name@ == "rocksdb_num_immutable_mem_table"@,
            metrics.num_immutable_mem_table.help@ == "Number of immutable memtables that have not yet been flushed."@,
            metrics.num_immutable_mem_table.label@ == "db"@,
            metrics.mem_table_flush_pending.name@ == "rocksdb_mem_table_flush_pending"@,
            metrics.mem_table_flush_pending.help@ == "1 if a memtable flush is pending and 0 otherwise."@,
            metrics.mem_table_flush_pending.label@ == "db"@,
            metrics.cur_size_active_mem_table.name@ == "rocksdb_cur_size_active_mem_table_bytes"@,
            metrics.cur_size_active_mem_table.help@ == "Approximate size of active memtable in bytes."@,
            metrics.cur_size_active_mem_table.label@ == "db"@,
            metrics.cur_size_all_mem_tables.name@ == "rocksdb_cur_size_all_mem_tables_bytes"@,
            metrics.cur_size_all_mem_tables.help@ == "Approximate size of active and unflushed immutable memtables in bytes."@,
            metrics.cur_size_all_mem_tables.label@ == "db"@,
            metrics.size_all_mem_tables.name@ == "rocksdb_size_all_mem_tables_bytes"@,
            metrics.size_all_mem_tables.help@ == "Approximate size of active, unflushed immutable, and pinned immutable memtables in bytes."@,
            metrics.size_all_mem_tables.label@ == "db"@,
            metrics.num_entries_active_mem_table.name@ == "rocksdb_num_entries_active_mem_table"@,
            metrics.num_entries_active_mem_table.help@ == "Total number of entries in the active memtable."@,
            metrics.num_entries_active_mem_table.label@ == "db"@,
            metrics.num_entries_imm_mem_tables.name@ == "rocksdb_num_entries_imm_mem_tables"@,
            metrics.num_entries_imm_mem_tables.help@ == "Total number of entries in the unflushed immutable memtables."@,
            metrics.num_entries_imm_mem_tables.label@ == "db"@,
            metrics.num_deletes_active_mem_table.name@ == "rocksdb_num_deletes_active_mem_table"@,
            metrics.num_deletes_active_mem_table.help@ == "Total number of delete entries in the active memtable."@,
            metrics.num_deletes_active_mem_table.label@ == "db"@,
            metrics.num_deletes_imm_mem_tables.name@ == "rocksdb_num_deletes_imm_mem_tables"@,
            metrics.num_deletes_imm_mem_tables.help@ == "Total number of delete entries in the unflushed immutable memtables."@,
            metrics.num_deletes_imm_mem_tables.label@ == "db"@,
            metrics.compaction_pending.name@ == "rocksdb_compaction_pending"@,
            metrics.compaction_pending.help@ == "1 if at least one compaction is pending; otherwise, 0."@,
            metrics.compaction_pending.label@ == "db"@,
            metrics.estimate_pending_compaction_bytes.name@ == "rocksdb_estimate_pending_compaction_bytes"@,
            metrics.estimate_pending_compaction_bytes.help@ == "Estimated total number of bytes compaction needs to rewrite."@,
            metrics.estimate_pending_compaction_bytes.label@ == "db"@,
            metrics.num_running_compactions.name@ == "rocksdb_num_running_compactions"@,
            metrics.num_running_compactions.help@ == "Number of currently running compactions."@,
            metrics.num_running_compactions.label@ == "db"@,
            metrics.num_running_flushes.name@ == "rocksdb_num_running_flushes"@,
            metrics.num_running_flushes.help@ == "Number of currently running flushes."@,
            metrics.num_running_flushes.label@ == "db"@,
            metrics.background_errors.name@ == "rocksdb_background_errors_total"@,
            metrics.background_errors.help@ == "Accumulated number of background errors."@,
            metrics.background_errors.label@ == "db"@,
            metrics.estimate_num_keys.name@ == "rocksdb_estimate_num_keys"@,
            metrics.estimate_num_keys.help@ == "Estimated number of total keys in the active and unflushed immutable memtables and storage."@,
            metrics.estimate_num_keys.label@ == "db"@,
            metrics.estimate_live_data_size.name@ == "rocksdb_estimate_live_data_size_bytes"@,
            metrics.estimate_live_data_size.help@ == "Estimated live data size in bytes."@,
            metrics.estimate_live_data_size.label@ == "db"@,
            metrics.estimate_oldest_key_time.name@ == "rocksdb_estimate_oldest_key_time_seconds"@,
            metrics.estimate_oldest_key_time.help@ == "Estimated oldest key timestamp."@,
            metrics.estimate_oldest_key_time.label@ == "db"@,
            metrics.estimate_table_readers_mem.name@ == "rocksdb_estimate_table_readers_mem_bytes"@,
            metrics.estimate_table_readers_mem.help@ == "Estimated memory used for reading SST tables, excluding memory used in block cache."@,
            metrics.estimate_table_readers_mem.label@ == "db"@,
            metrics.is_file_deletions_enabled.name@ == "rocksdb_is_file_deletions_enabled"@,
            metrics.is_file_deletions_enabled.help@ == "0 if deletion of obsolete files is enabled; otherwise, non-zero."@,
            metrics.is_file_deletions_enabled.label@ == "db"@,
            metrics.total_sst_files_size.name@ == "rocksdb_total_sst_files_size_bytes"@,
            metrics.total_sst_files_size.help@ == "Total size of all SST files in bytes."@,
            metrics.total_sst_files_size.label@ == "db"@,
            metrics.live_sst_files_size.name@ == "rocksdb_live_sst_files_size_bytes"@,
            metrics.live_sst_files_size.help@ == "Total size (bytes) of all SST files belonging to any of the CF's versions."@,
            metrics.live_sst_files_size.label@ == "db"@,
            metrics.min_obsolete_sst_number_to_keep.name@ == "rocksdb_min_obsolete_sst_number_to_keep"@,
            metrics.min_obsolete_sst_number_to_keep.help@ == "Minimum file number for an obsolete SST to be kept, or maximum uint64_t value if obsolete files can be deleted."@,
            metrics.min_obsolete_sst_number_to_keep.label@ == "db"@,
            metrics.num_snapshots.name@ == "rocksdb_num_snapshots"@,
            metrics.num_snapshots.help@ == "Number of unreleased snapshots of the database."@,
            metrics.num_snapshots.label@ == "db"@,
            metrics.oldest_snapshot_time.name@ == "rocksdb_oldest_snapshot_time_seconds"@,
            metrics.oldest_snapshot_time.help@ == "Unix timestamp of oldest unreleased snapshot."@,
            metrics.oldest_snapshot_time.label@ == "db"@,
            metrics.num_live_versions.name@ == "rocksdb_num_live_versions"@,
            metrics.num_live_versions.help@ == "Number of live versions."@,
            metrics.num_live_versions.label@ == "db"@,
            metrics.current_super_version_number.name@ == "rocksdb_current_super_version_number"@,
            metrics.current_super_version_number.help@ == "Number of current LSM version. Incremented after any change to LSM tree."@,
            metrics.current_super_version_number.label@ == "db"@,
            metrics.min_log_number_to_keep.name@ == "rocksdb_min_log_number_to_keep"@,
            metrics.min_log_number_to_keep.help@ == "Minimum log number to keep."@,
            metrics.min_log_number_to_keep.label@ == "db"@,
            metrics.base_level.name@ == "rocksdb_base_level"@,
            metrics.base_level.help@ == "Base level for compaction."@,
            metrics.base_level.label@ == "db"@,
            metrics.actual_delayed_write_rate.name@ == "rocksdb_actual_delayed_write_rate"@,
            metrics.actual_delayed_write_rate.help@ == "The current actual delayed write rate. 0 means no delay."@,
            metrics.actual_delayed_write_rate.label@ == "db"@,
            metrics.is_write_stopped.name@ == "rocksdb_is_write_stopped"@,
            metrics.is_write_stopped.help@ == "1 if write has been stopped."@,
            metrics.is_write_stopped.label@ == "db"@,
            metrics.block_cache_capacity.name@ == "rocksdb_block_cache_capacity_bytes"@,
            metrics.block_cache_capacity.help@ == "The block cache capacity in bytes."@,
            metrics.block_cache_capacity.label@ == "db"@,
            metrics.block_cache_usage.name@ == "rocksdb_block_cache_usage_bytes"@,
            metrics.block_cache_usage.help@ == "The memory size for the entries residing in block cache."@,
            metrics.block_cache_usage.label@ == "db"@,
            metrics.block_cache_pinned_usage.name@ == "rocksdb_block_cache_pinned_usage_bytes"@,
            metrics.block_cache_pinned_usage.help@ == "The memory size for the entries being pinned."@,
            metrics.block_cache_pinned_usage.label@ == "db"@,
    {
        RocksDbMetrics {
            num_immutable_mem_table: GaugeSpec {
                name: "rocksdb_num_immutable_mem_table",
                help: "Number of immutable memtables that have not yet been flushed.",
                label: "db",
            },
            mem_table_flush_pending: GaugeSpec {
                name: "rocksdb_mem_table_flush_pending",
                help: "1 if a memtable flush is pending and 0 otherwise.",
                label: "db",
            },
            cur_size_active_mem_table: GaugeSpec {
                name: "rocksdb_cur_size_active_mem_table_bytes",
                help: "Approximate size of active memtable in bytes.",
                label: "db",
            },
            cur_size_all_mem_tables: GaugeSpec {
                name: "rocksdb_cur_size_all_mem_tables_bytes",
                help: "Approximate size of active and unflushed immutable memtables in bytes.",
                label: "db",
            },
            size_all_mem_tables: GaugeSpec {
                name: "rocksdb_size_all_mem_tables_bytes",
                help: "Approximate size of active, unflushed immutable, and pinned immutable memtables in bytes.",
                label: "db",
            },
            num_entries_active_mem_table: GaugeSpec {
                name: "rocksdb_num_entries_active_mem_table",
                help: "Total number of entries in the active memtable.",
                label: "db",
            },
            num_entries_imm_mem_tables: GaugeSpec {
                name: "rocksdb_num_entries_imm_mem_tables",
                help: "Total number of entries in the unflushed immutable memtables.",
                label: "db",
            },
            num_deletes_active_mem_table: GaugeSpec {
                name: "rocksdb_num_deletes_active_mem_table",
                help: "Total number of delete entries in the active memtable.",
                label: "db",
            },
            num_deletes_imm_mem_tables: GaugeSpec {
                name: "rocksdb_num_deletes_imm_mem_tables",
                help: "Total number of delete entries in the unflushed immutable memtables.",
                label: "db",
            },
            compaction_pending: GaugeSpec {
                name: "rocksdb_compaction_pending",
                help: "1 if at least one compaction is pending; otherwise, 0.",
                label: "db",
            },
            estimate_pending_compaction_bytes: GaugeSpec {
                name: "rocksdb_estimate_pending_compaction_bytes",
                help: "Estimated total number of bytes compaction needs to rewrite.",
                label: "db",
            },
            num_running_compactions: GaugeSpec {
                name: "rocksdb_num_running_compactions",
                help: "Number of currently running compactions.",
                label: "db",
            },
            num_running_flushes: GaugeSpec {
                name: "rocksdb_num_running_flushes",
                help: "Number of currently running flushes.",
                label: "db",
            },
            background_errors: GaugeSpec {
                name: "rocksdb_background_errors_total",
                help: "Accumulated number of background errors.",
                label: "db",
            },
            estimate_num_keys: GaugeSpec {
                name: "rocksdb_estimate_num_keys",
                help: "Estimated number of total keys in the active and unflushed immutable memtables and storage.",
                label: "db",
            },
            estimate_live_data_size: GaugeSpec {
                name: "rocksdb_estimate_live_data_size_bytes",
                help: "Estimated live data size in bytes.",
                label: "db",
            },
            estimate_oldest_key_time: GaugeSpec {
                name: "rocksdb_estimate_oldest_key_time_seconds",
                help: "Estimated oldest key timestamp.",
                label: "db",
            },
            estimate_table_readers_mem: GaugeSpec {
                name: "rocksdb_estimate_table_readers_mem_bytes",
                help: "Estimated memory used for reading SST tables, excluding memory used in block cache.",
                label: "db",
            },
            is_file_deletions_enabled: GaugeSpec {
                name: "rocksdb_is_file_deletions_enabled",
                help: "0 if deletion of obsolete files is enabled; otherwise, non-zero.",
                label: "db",
            },
            total_sst_files_size: GaugeSpec {
                name: "rocksdb_total_sst_files_size_bytes",
                help: "Total size of all SST files in bytes.",
                label: "db",
            },
            live_sst_files_size: GaugeSpec {
                name: "rocksdb_live_sst_files_size_bytes",
                help: "Total size (bytes) of all SST files belonging to any of the CF's versions.",
                label: "db",
            },
            min_obsolete_sst_number_to_keep: GaugeSpec {
                name: "rocksdb_min_obsolete_sst_number_to_keep",
                help: "Minimum file number for an obsolete SST to be kept, or maximum uint64_t value if obsolete files can be deleted.",
                label: "db",
            },
            num_snapshots: GaugeSpec {
                name: "rocksdb_num_snapshots",
                help: "Number of unreleased snapshots of the database.",
                label: "db",
            },
            oldest_snapshot_time: GaugeSpec {
                name: "rocksdb_oldest_snapshot_time_seconds",
                help: "Unix timestamp of oldest unreleased snapshot.",
                label: "db",
            },
            num_live_versions: GaugeSpec {
                name: "rocksdb_num_live_versions",
                help: "Number of live versions.",
                label: "db",
            },
            current_super_version_number: GaugeSpec {
                name: "rocksdb_current_super_version_number",
                help: "Number of current LSM version. Incremented after any change to LSM tree.",
                label: "db",
            },
            min_log_number_to_keep: GaugeSpec {
                name: "rocksdb_min_log_number_to_keep",
                help: "Minimum log number to keep.",
                label: "db",
            },
            base_level: GaugeSpec {
                name: "rocksdb_base_level",
                help: "Base level for compaction.",
                label: "db",
            },
            actual_delayed_write_rate: GaugeSpec {
                name: "rocksdb_actual_delayed_write_rate",
                help: "The current actual delayed write rate. 0 means no delay.",
                label: "db",
            },
            is_write_stopped: GaugeSpec {
                name: "rocksdb_is_write_stopped",
                help: "1 if write has been stopped.",
                label: "db",
            },
            block_cache_capacity: GaugeSpec {
                name: "rocksdb_block_cache_capacity_bytes",
                help: "The block cache capacity in bytes.",
                label: "db",
            },
            block_cache_usage: GaugeSpec {
                name: "rocksdb_block_cache_usage_bytes",
                help: "The memory size for the entries residing in block cache.",
                label: "db",
            },
            block_cache_pinned_usage: GaugeSpec {
                name: "rocksdb_block_cache_pinned_usage_bytes",
                help: "The memory size for the entries being pinned.",
                label: "db",
            },
        }
    }

    /// The statistics in the order in which one round samples them, each
    /// with the gauge of this set that takes its value.
    pub fn samples(&self) -> (samples: Vec<Sample>)
        ensures
            samples@.len() == 33,
            samples@[0].property@ == "rocksdb.num-immutable-mem-table"@,
            samples@[0].gauge == self.num_immutable_mem_table,
            samples@[1].property@ == "rocksdb.mem-table-flush-pending"@,
            samples@[1].gauge == self.mem_table_flush_pending,
            samples@[2].property@ == "rocksdb.compaction-pending"@,
            samples@[2].gauge == self.compaction_pending,
            samples@[3].property@ == "rocksdb.background-errors"@,
            samples@[3].gauge == self.background_errors,
            samples@[4].property@ == "rocksdb.cur-size-active-mem-table"@,
            samples@[4].gauge == self.cur_size_active_mem_table,
            samples@[5].property@ == "rocksdb.cur-size-all-mem-tables"@,
            samples@[5].gauge == self.cur_size_all_mem_tables,
            samples@[6].property@ == "rocksdb.size-all-mem-tables"@,
            samples@[6].gauge == self.size_all_mem_tables,
            samples@[7].property@ == "rocksdb.num-entries-active-mem-table"@,
            samples@[7].gauge == self.num_entries_active_mem_table,
            samples@[8].property@ == "rocksdb.num-entries-imm-mem-tables"@,
            samples@[8].gauge == self.num_entries_imm_mem_tables,
            samples@[9].property@ == "rocksdb.num-deletes-active-mem-table"@,
            samples@[9].gauge == self.num_deletes_active_mem_table,
            samples@[10].property@ == "rocksdb.num-deletes-imm-mem-tables"@,
            samples@[10].gauge == self.num_deletes_imm_mem_tables,
            samples@[11].property@ == "rocksdb.estimate-num-keys"@,
            samples@[11].gauge == self.estimate_num_keys,
            samples@[12].property@ == "rocksdb.estimate-table-readers-mem"@,
            samples@[12].gauge == self.estimate_table_readers_mem,
            samples@[13].property@ == "rocksdb.is-file-deletions-enabled"@,
            samples@[13].gauge == self.is_file_deletions_enabled,
            samples@[14].property@ == "rocksdb.num-snapshots"@,
            samples@[14].gauge == self.num_snapshots,
            samples@[15].property@ == "rocksdb.oldest-snapshot-time"@,
            samples@[15].gauge == self.oldest_snapshot_time,
            samples@[16].property@ == "rocksdb.num-live-versions"@,
            samples@[16].gauge == self.num_live_versions,
            samples@[17].property@ == "rocksdb.current-super-version-number"@,
            samples@[17].gauge == self.current_super_version_number,
            samples@[18].property@ == "rocksdb.estimate-live-data-size"@,
            samples@[18].gauge == self.estimate_live_data_size,
            samples@[19].property@ == "rocksdb.min-log-number-to-keep"@,
            samples@[19].gauge == self.min_log_number_to_keep,
            samples@[20].property@ == "rocksdb.min-obsolete-sst-number-to-keep"@,
            samples@[20].gauge == self.min_obsolete_sst_number_to_keep,
            samples@[21].property@ == "rocksdb.total-sst-files-size"@,
            samples@[21].gauge == self.total_sst_files_size,
            samples@[22].property@ == "rocksdb.live-sst-files-size"@,
            samples@[22].gauge == self.live_sst_files_size,
            samples@[23].property@ == "rocksdb.base-level"@,
            samples@[23].gauge == self.base_level,
            samples@[24].property@ == "rocksdb.estimate-pending-compaction-bytes"@,
            samples@[24].gauge == self.estimate_pending_compaction_bytes,
            samples@[25].property@ == "rocksdb.num-running-compactions"@,
            samples@[25].gauge == self.num_running_compactions,
            samples@[26].property@ == "rocksdb.num-running-flushes"@,
            samples@[26].gauge == self.num_running_flushes,
            samples@[27].property@ == "rocksdb.actual-delayed-write-rate"@,
            samples@[27].gauge == self.actual_delayed_write_rate,
            samples@[28].property@ == "rocksdb.is-write-stopped"@,
            samples@[28].gauge == self.is_write_stopped,
            samples@[29].property@ == "rocksdb.estimate-oldest-key-time"@,
            samples@[29].gauge == self.estimate_oldest_key_time,
            samples@[30].property@ == "rocksdb.block-cache-capacity"@,
            samples@[30].gauge == self.block_cache_capacity,
            samples@[31].property@ == "rocksdb.block-cache-usage"@,
            samples@[31].gauge == self.block_cache_usage,
            samples@[32].property@ == "rocksdb.block-cache-pinned-usage"@,
            samples@[32].gauge == self.block_cache_pinned_usage,
    {
        let mut samples: Vec<Sample> = Vec::new();
        samples.push(Sample { property: "rocksdb.num-immutable-mem-table", gauge: self.num_immutable_mem_table });
        samples.push(Sample { property: "rocksdb.mem-table-flush-pending", gauge: self.mem_table_flush_pending });
        samples.push(Sample { property: "rocksdb.compaction-pending", gauge: self.compaction_pending });
        samples.push(Sample { property: "rocksdb.background-errors", gauge: self.background_errors });
        samples.push(Sample { property: "rocksdb.cur-size-active-mem-table", gauge: self.cur_size_active_mem_table });
        samples.push(Sample { property: "rocksdb.cur-size-all-mem-tables", gauge: self.cur_size_all_mem_tables });
        samples.push(Sample { property: "rocksdb.size-all-mem-tables", gauge: self.size_all_mem_tables });
        samples.push(Sample { property: "rocksdb.num-entries-active-mem-table", gauge: self.num_entries_active_mem_table });
        samples.push(Sample { property: "rocksdb.num-entries-imm-mem-tables", gauge: self.num_entries_imm_mem_tables });
        samples.push(Sample { property: "rocksdb.num-deletes-active-mem-table", gauge: self.num_deletes_active_mem_table });
        samples.push(Sample { property: "rocksdb.num-deletes-imm-mem-tables", gauge: self.num_deletes_imm_mem_tables });
        samples.push(Sample { property: "rocksdb.estimate-num-keys", gauge: self.estimate_num_keys });
        samples.push(Sample { property: "rocksdb.estimate-table-readers-mem", gauge: self.estimate_table_readers_mem });
        samples.push(Sample { property: "rocksdb.is-file-deletions-enabled", gauge: self.is_file_deletions_enabled });
        samples.push(Sample { property: "rocksdb.num-snapshots", gauge: self.num_snapshots });
        samples.push(Sample { property: "rocksdb.oldest-snapshot-time", gauge: self.oldest_snapshot_time });
        samples.push(Sample { property: "rocksdb.num-live-versions", gauge: self.num_live_versions });
        samples.push(Sample { property: "rocksdb.current-super-version-number", gauge: self.current_super_version_number });
        samples.push(Sample { property: "rocksdb.estimate-live-data-size", gauge: self.estimate_live_data_size });
        samples.push(Sample { property: "rocksdb.min-log-number-to-keep", gauge: self.min_log_number_to_keep });
        samples.push(Sample { property: "rocksdb.min-obsolete-sst-number-to-keep", gauge: self.min_obsolete_sst_number_to_keep });
        samples.push(Sample { property: "rocksdb.total-sst-files-size", gauge: self.total_sst_files_size });
        samples.push(Sample { property: "rocksdb.live-sst-files-size", gauge: self.live_sst_files_size });
        samples.push(Sample { property: "rocksdb.base-level", gauge: self.base_level });
        samples.push(Sample { property: "rocksdb.estimate-pending-compaction-bytes", gauge: self.estimate_pending_compaction_bytes });
        samples.push(Sample { property: "rocksdb.num-running-compactions", gauge: self.num_running_compactions });
        samples.push(Sample { property: "rocksdb.num-running-flushes", gauge: self.num_running_flushes });
        samples.push(Sample { property: "rocksdb.actual-delayed-write-rate", gauge: self.actual_delayed_write_rate });
        samples.push(Sample { property: "rocksdb.is-write-stopped", gauge: self.is_write_stopped });
        samples.push(Sample { property: "rocksdb.estimate-oldest-key-time", gauge: self.estimate_oldest_key_time });
        samples.push(Sample { property: "rocksdb.block-cache-capacity", gauge: self.block_cache_capacity });
        samples.push(Sample { property: "rocksdb.block-cache-usage", gauge: self.block_cache_usage });
        samples.push(Sample { property: "rocksdb.block-cache-pinned-usage", gauge: self.block_cache_pinned_usage });
        samples
    }
}

} // verus!
