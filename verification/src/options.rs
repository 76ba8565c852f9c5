//! The engine settings that an open derives from the configuration.

use vstd::prelude::*;

verus! {

/// Bytes in one megabyte.
pub const MEGABYTE: usize = 1048576;

/// The part of the configuration that the store reads.
#[derive(Clone, Copy, Debug, PartialEq, Eq, Structural)]
pub struct Config {
    /// Degree of background parallelism.
    pub db_parallelism: usize,
    /// Size of the write buffer, in megabytes.
    pub db_write_buffer_size_mb: usize,
    /// Size of the block cache, in megabytes.
    pub db_block_cache_mb: usize,
    /// Whether automatic compaction runs from the start.
    pub initial_sync_compaction: bool,
    /// Whether the store holds reduced data.
    pub light_mode: bool,
}

/// How files are compacted.
#[derive(Clone, Copy, Debug, PartialEq, Eq, Structural)]
pub enum CompactionStyle {
    Level,
}

/// How blocks are compressed.
#[derive(Clone, Copy, Debug, PartialEq, Eq, Structural)]
pub enum Compression {
    Snappy,
}

/// The settings with which the engine is opened.
#[derive(Clone, Copy, Debug, PartialEq, Eq, Structural)]
pub struct EngineOptions {
    pub create_if_missing: bool,
    pub max_open_files: i32,
    pub compaction_style: CompactionStyle,
    pub compression: Compression,
    pub target_file_size_base: u64,
    pub disable_auto_compactions: bool,
    pub parallelism: i32,
    pub write_buffer_size: usize,
    pub compaction_readahead_size: usize,
    pub block_cache_bytes: usize,
}

/// Why a configuration cannot be turned into engine settings.
#[derive(Clone, Copy, Debug, PartialEq, Eq, Structural)]
pub enum ConfigError {
    /// The degree of parallelism does not fit the engine's 32-bit setting.
    ParallelismTooLarge,
    /// The write buffer's size in bytes does not fit the machine word.
    WriteBufferTooLarge,
    /// The block cache's size in bytes does not fit the machine word.
    BlockCacheTooLarge,
}

/// The settings for `config`: leveled compaction, Snappy compression, files
/// of one gibibyte, a read-ahead of one mebibyte for compaction, the sizes
/// of the configuration in bytes, and automatic compaction switched off
/// unless the configuration asks for it.
pub open spec fn spec_engine_options(config: Config) -> Result<EngineOptions, ConfigError> {
    if config.db_parallelism > i32::MAX {
        Err(ConfigError::ParallelismTooLarge)
    } else if config.db_write_buffer_size_mb * MEGABYTE > usize::MAX {
        Err(ConfigError::WriteBufferTooLarge)
    } else if config.db_block_cache_mb * MEGABYTE > usize::MAX {
        Err(ConfigError::BlockCacheTooLarge)
    } else {
        Ok(
            EngineOptions {
                create_if_missing: true,
                max_open_files: 100_000,
                compaction_style: CompactionStyle::Level,
                compression: Compression::Snappy,
                target_file_size_base: 1_073_741_824,
                disable_auto_compactions: !config.initial_sync_compaction,
                parallelism: config.db_parallelism as i32,
                write_buffer_size: (config.db_write_buffer_size_mb * MEGABYTE) as usize,
                compaction_readahead_size: 1048576,
                block_cache_bytes: (config.db_block_cache_mb * MEGABYTE) as usize,
            },
        )
    }
}

/// Derives the engine settings of an open from the configuration.
pub fn engine_options(config: &Config) -> (options: Result<EngineOptions, ConfigError>)
    ensures
        options == spec_engine_options(*config),
{
    if config.db_parallelism > 2147483647 {
        return Err(ConfigError::ParallelismTooLarge);
    }
    if config.db_write_buffer_size_mb > usize::MAX / MEGABYTE {
        return Err(ConfigError::WriteBufferTooLarge);
    }
    if config.db_block_cache_mb > usize::MAX / MEGABYTE {
        return Err(ConfigError::BlockCacheTooLarge);
    }
    Ok(
        EngineOptions {
            create_if_missing: true,
            max_open_files: 100_000,
            compaction_style: CompactionStyle::Level,
            compression: Compression::Snappy,
            target_file_size_base: 1_073_741_824,
            disable_auto_compactions: !config.initial_sync_compaction,
            parallelism: config.db_parallelism as i32,
            write_buffer_size: config.db_write_buffer_size_mb * MEGABYTE,
            compaction_readahead_size: 1048576,
            block_cache_bytes: config.db_block_cache_mb * MEGABYTE,
        },
    )
}

} // verus!
