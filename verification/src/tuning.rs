//! The configuration tuner: the settings with which a database is opened for bulk loading.
//!
//! An [`Options`] value is a staging copy of the engine's configuration. Each knob is either
//! left as the engine has it (`None`) or set to a value. The driver applies the knobs that
//! are set to the engine's own configuration object, in the order of the fields, before the
//! database is opened. A live database is never reconfigured.
use crate::text::str_of;
use vstd::prelude::*;

verus! {

/// How the engine picks the files that it merges.
#[derive(Clone, Copy, Debug, PartialEq, Eq, Structural)]
pub enum CompactionStyle {
    /// Levelled: optimised for reading.
    Level,
    /// Size-tiered: optimised for writing.
    Universal,
    /// Oldest files are dropped first.
    Fifo,
}

/// The compressor applied to the blocks of a file.
#[derive(Clone, Copy, Debug, PartialEq, Eq, Structural)]
pub enum CompressionType {
    /// Blocks are stored as they are.
    Uncompressed,
    Snappy,
    Zlib,
    Bz2,
    Lz4,
    Lz4hc,
    Zstd,
}

/// How the index of a table file is searched.
#[derive(Clone, Copy, Debug, PartialEq, Eq, Structural)]
pub enum IndexType {
    BinarySearch,
    HashSearch,
    /// A partitioned index: an index over index blocks.
    TwoLevelIndexSearch,
}

/// The parameters of a compressor.
#[derive(Clone, Copy, Debug, PartialEq, Eq, Structural)]
pub struct CompressionOptions {
    /// The window parameter.
    pub window_bits: i32,
    /// The compression level.
    pub level: i32,
    /// The strategy, or number of workers, as the compressor reads it.
    pub strategy: i32,
    /// The size in bytes of the dictionary that is trained.
    pub max_dict_bytes: i32,
    /// Whether these parameters are in force.
    pub enabled: bool,
}

/// The training of a compression dictionary.
#[derive(Clone, Copy, Debug, PartialEq, Eq, Structural)]
pub struct DictionaryTraining {
    /// The number of bytes of samples that the trainer may read.
    pub max_train_bytes: i32,
    /// Whether the dictionary is trained rather than taken from the samples as they are.
    pub use_trainer: bool,
}

/// A probabilistic membership filter over the keys of a table file.
#[derive(Clone, Copy, Debug, PartialEq, Eq, Structural)]
pub struct BloomFilter {
    /// The number of bits spent on each key.
    pub bits_per_key: u32,
    /// Whether there is one filter per block rather than one for the whole file.
    pub block_based: bool,
}

/// The knobs of the block-based table format. `None` leaves a knob as the engine has it.
#[derive(Clone, Copy, Debug, PartialEq, Eq, Structural)]
pub struct BlockBasedOptions {
    pub index_type: Option<IndexType>,
    pub bloom_filter: Option<BloomFilter>,
    pub partition_filters: Option<bool>,
    /// The granularity in bytes of the blocks that hold partitioned metadata.
    pub metadata_block_size: Option<u32>,
    pub cache_index_and_filter_blocks: Option<bool>,
    pub pin_top_level_index_and_filter: Option<bool>,
    pub pin_l0_filter_and_index_blocks_in_cache: Option<bool>,
}

/// The knobs of the engine that the tuner knows. `None` leaves a knob as the engine has it.
#[derive(Clone, Debug, PartialEq, Eq)]
pub struct Options {
    /// Create the database directory where there is none.
    pub create_if_missing: Option<bool>,
    /// Create the column families that are asked for and do not exist.
    pub create_missing_column_families: Option<bool>,
    /// Whether the engine's own preparation for bulk loading is applied.
    pub prepare_for_bulk_load: bool,
    pub max_background_jobs: Option<i32>,
    pub max_subcompactions: Option<u32>,
    /// The number of threads that the engine is told it may use.
    pub parallelism: Option<i32>,
    /// The memory in bytes that the engine may plan for its write buffers.
    pub memtable_memory_budget: Option<u64>,
    pub min_write_buffer_number: Option<i32>,
    pub min_write_buffer_number_to_merge: Option<i32>,
    /// The size in bytes of one write buffer.
    pub write_buffer_size: Option<u64>,
    /// The size in bytes that a written file aims at.
    pub target_file_size_base: Option<u64>,
    pub compaction_style: Option<CompactionStyle>,
    /// The directory of the write-ahead log, where it is not the database directory.
    pub wal_dir: Option<String>,
    /// The compressor of each level, from the first. An empty list compresses no level.
    pub compression_per_level: Option<Vec<CompressionType>>,
    pub bottommost_compression_options: Option<CompressionOptions>,
    pub bottommost_compression_type: Option<CompressionType>,
    pub bottommost_dictionary_training: Option<DictionaryTraining>,
    /// The size of the block cache behind the engine's point-lookup preset.
    pub point_lookup_block_cache_size: Option<u64>,
    pub block_based_table: Option<BlockBasedOptions>,
}

/// The mathematical content of an [`Options`] value.
pub struct OptionsView {
    pub create_if_missing: Option<bool>,
    pub create_missing_column_families: Option<bool>,
    pub prepare_for_bulk_load: bool,
    pub max_background_jobs: Option<i32>,
    pub max_subcompactions: Option<u32>,
    pub parallelism: Option<i32>,
    pub memtable_memory_budget: Option<u64>,
    pub min_write_buffer_number: Option<i32>,
    pub min_write_buffer_number_to_merge: Option<i32>,
    pub write_buffer_size: Option<u64>,
    pub target_file_size_base: Option<u64>,
    pub compaction_style: Option<CompactionStyle>,
    pub wal_dir: Option<Seq<char>>,
    pub compression_per_level: Option<Seq<CompressionType>>,
    pub bottommost_compression_options: Option<CompressionOptions>,
    pub bottommost_compression_type: Option<CompressionType>,
    pub bottommost_dictionary_training: Option<DictionaryTraining>,
    pub point_lookup_block_cache_size: Option<u64>,
    pub block_based_table: Option<BlockBasedOptions>,
}

impl View for Options {
    type V = OptionsView;

    open spec fn view(&self) -> OptionsView {
        OptionsView {
            create_if_missing: self.create_if_missing,
            create_missing_column_families: self.create_missing_column_families,
            prepare_for_bulk_load: self.prepare_for_bulk_load,
            max_background_jobs: self.max_background_jobs,
            max_subcompactions: self.max_subcompactions,
            parallelism: self.parallelism,
            memtable_memory_budget: self.memtable_memory_budget,
            min_write_buffer_number: self.min_write_buffer_number,
            min_write_buffer_number_to_merge: self.min_write_buffer_number_to_merge,
            write_buffer_size: self.write_buffer_size,
            target_file_size_base: self.target_file_size_base,
            compaction_style: self.compaction_style,
            wal_dir: match self.wal_dir {
                Some(dir) => Some(dir@),
                None => None,
            },
            compression_per_level: match self.compression_per_level {
                Some(levels) => Some(levels@),
                None => None,
            },
            bottommost_compression_options: self.bottommost_compression_options,
            bottommost_compression_type: self.bottommost_compression_type,
            bottommost_dictionary_training: self.bottommost_dictionary_training,
            point_lookup_block_cache_size: self.point_lookup_block_cache_size,
            block_based_table: self.block_based_table,
        }
    }
}

/// The configuration in which every knob is left as the engine has it.
pub open spec fn untouched() -> OptionsView {
    OptionsView {
        create_if_missing: None,
        create_missing_column_families: None,
        prepare_for_bulk_load: false,
        max_background_jobs: None,
        max_subcompactions: None,
        parallelism: None,
        memtable_memory_budget: None,
        min_write_buffer_number: None,
        min_write_buffer_number_to_merge: None,
        write_buffer_size: None,
        target_file_size_base: None,
        compaction_style: None,
        wal_dir: None,
        compression_per_level: None,
        bottommost_compression_options: None,
        bottommost_compression_type: None,
        bottommost_dictionary_training: None,
        point_lookup_block_cache_size: None,
        block_based_table: None,
    }
}

impl Default for Options {
    fn default() -> (options: Options)
        ensures
            options@ == untouched(),
    {
        Options {
            create_if_missing: None,
            create_missing_column_families: None,
            prepare_for_bulk_load: false,
            max_background_jobs: None,
            max_subcompactions: None,
            parallelism: None,
            memtable_memory_budget: None,
            min_write_buffer_number: None,
            min_write_buffer_number_to_merge: None,
            write_buffer_size: None,
            target_file_size_base: None,
            compaction_style: None,
            wal_dir: None,
            compression_per_level: None,
            bottommost_compression_options: None,
            bottommost_compression_type: None,
            bottommost_dictionary_training: None,
            point_lookup_block_cache_size: None,
            block_based_table: None,
        }
    }
}

/// The window parameter of the compressor of the bottommost level.
pub const BOTTOMMOST_WINDOW_BITS: i32 = -14;

/// The table format of a tuned configuration: a partitioned index and partitioned full
/// filters of 10 bits per key, in metadata blocks of 4 KiB, all of them cached, with the
/// top level of index and filter and the blocks of level 0 pinned in the cache.
pub open spec fn tuned_block_based_table() -> BlockBasedOptions {
    BlockBasedOptions {
        index_type: Some(IndexType::TwoLevelIndexSearch),
        bloom_filter: Some(BloomFilter { bits_per_key: 10, block_based: false }),
        partition_filters: Some(true),
        metadata_block_size: Some(4096),
        cache_index_and_filter_blocks: Some(true),
        pin_top_level_index_and_filter: Some(true),
        pin_l0_filter_and_index_blocks_in_cache: Some(true),
    }
}

/// The configuration that [`tune_options`] makes of `base` and a directory for the
/// write-ahead log.
///
/// Every knob is set, whatever `base` held, but for the log's directory where none is
/// given: that is kept from `base`.
///
/// * The database directory and missing column families are created.
/// * The engine's preparation for bulk loading is applied.
/// * 16 background jobs, 8 subcompactions, a parallelism of 8.
/// * A memory budget of 1 GiB; at least 1 write buffer, at least 1 buffer to merge; write
///   buffers of 1 GiB; files of 1 GiB.
/// * Universal compaction.
/// * No compression per level. At the bottommost level Zstandard, with window parameter
///   -14, level 10, strategy 0 and a trained dictionary of 16 KiB from at most 4 MiB of
///   samples.
/// * The point-lookup preset, sized at 64 MiB.
/// * The table format of [`tuned_block_based_table`].
pub open spec fn tuned(base: OptionsView, wal_dir: Option<Seq<char>>) -> OptionsView {
    OptionsView {
        create_if_missing: Some(true),
        create_missing_column_families: Some(true),
        prepare_for_bulk_load: true,
        max_background_jobs: Some(16),
        max_subcompactions: Some(8),
        parallelism: Some(8),
        memtable_memory_budget: Some(0x4000_0000),
        min_write_buffer_number: Some(1),
        min_write_buffer_number_to_merge: Some(1),
        write_buffer_size: Some(0x4000_0000),
        target_file_size_base: Some(0x4000_0000),
        compaction_style: Some(CompactionStyle::Universal),
        wal_dir: match wal_dir {
            Some(dir) => Some(dir),
            None => base.wal_dir,
        },
        compression_per_level: Some(Seq::empty()),
        bottommost_compression_options: Some(
            CompressionOptions {
                window_bits: BOTTOMMOST_WINDOW_BITS,
                level: 10,
                strategy: 0,
                max_dict_bytes: 0x4000,
                enabled: true,
            },
        ),
        bottommost_compression_type: Some(CompressionType::Zstd),
        bottommost_dictionary_training: Some(
            DictionaryTraining { max_train_bytes: 0x40_0000, use_trainer: true },
        ),
        point_lookup_block_cache_size: Some(0x400_0000),
        block_based_table: Some(tuned_block_based_table()),
    }
}

/// Tunes a configuration for bulk loading.
///
/// Nothing is read or written, and there is no input on which this fails: what the engine
/// makes of the directory is seen when the database is opened.
pub fn tune_options(options: Options, wal_dir: Option<&str>) -> (tuned_options: Options)
    ensures
        tuned_options@ == tuned(options@, str_of(wal_dir)),
{
    let dir = match wal_dir {
        Some(d) => Some(d.to_owned()),
        None => options.wal_dir,
    };
    let block_based_table = BlockBasedOptions {
        index_type: Some(IndexType::TwoLevelIndexSearch),
        bloom_filter: Some(BloomFilter { bits_per_key: 10, block_based: false }),
        partition_filters: Some(true),
        metadata_block_size: Some(4096),
        cache_index_and_filter_blocks: Some(true),
        pin_top_level_index_and_filter: Some(true),
        pin_l0_filter_and_index_blocks_in_cache: Some(true),
    };
    Options {
        create_if_missing: Some(true),
        create_missing_column_families: Some(true),
        prepare_for_bulk_load: true,
        max_background_jobs: Some(16),
        max_subcompactions: Some(8),
        parallelism: Some(8),
        memtable_memory_budget: Some(0x4000_0000),
        min_write_buffer_number: Some(1),
        min_write_buffer_number_to_merge: Some(1),
        write_buffer_size: Some(0x4000_0000),
        target_file_size_base: Some(0x4000_0000),
        compaction_style: Some(CompactionStyle::Universal),
        wal_dir: dir,
        compression_per_level: Some(Vec::new()),
        bottommost_compression_options: Some(
            CompressionOptions {
                window_bits: BOTTOMMOST_WINDOW_BITS,
                level: 10,
                strategy: 0,
                max_dict_bytes: 0x4000,
                enabled: true,
            },
        ),
        bottommost_compression_type: Some(CompressionType::Zstd),
        bottommost_dictionary_training: Some(
            DictionaryTraining { max_train_bytes: 0x40_0000, use_trainer: true },
        ),
        point_lookup_block_cache_size: Some(0x400_0000),
        block_based_table: Some(block_based_table),
    }
}

/// Tuning is idempotent: a tuned configuration is left as it is by tuning it again with
/// the same directory.
pub proof fn lemma_tuning_is_idempotent(base: OptionsView, wal_dir: Option<Seq<char>>)
    ensures
        tuned(tuned(base, wal_dir), wal_dir) == tuned(base, wal_dir),
{
}

/// Tuning reads nothing of the given configuration but the directory of its log: two
/// configurations that agree on it are tuned to the same configuration, and with a
/// directory given, any two are.
pub proof fn lemma_tuning_depends_on_the_log_directory_alone(
    first: OptionsView,
    second: OptionsView,
    wal_dir: Option<Seq<char>>,
)
    requires
        wal_dir is None ==> first.wal_dir == second.wal_dir,
    ensures
        tuned(first, wal_dir) == tuned(second, wal_dir),
{
}

/// Two runs of the tuner on the same configuration and directory give configurations with
/// the same content, knob by knob.
pub proof fn lemma_tuning_twice_agrees(
    base: Options,
    wal_dir: Option<&str>,
    first: Options,
    second: Options,
)
    requires
        first@ == tuned(base@, str_of(wal_dir)),
        second@ == tuned(base@, str_of(wal_dir)),
    ensures
        first@ == second@,
        first@.compaction_style == Some(CompactionStyle::Universal),
        first@.write_buffer_size == Some(0x4000_0000u64),
        first@.target_file_size_base == second@.target_file_size_base,
{
}

} // verus!
