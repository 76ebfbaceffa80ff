//! Decisions of the storage manager: the shutdown gate in front of storage work, the
//! shared memory budget and its reconciliation with new configuration, the order in
//! which the configuration watchdog serves its inputs, and which databases a memory
//! report covers.
use vstd::prelude::*;

verus! {

/// Storage work was refused because the manager is shutting down.
#[derive(Clone, Copy, Debug, PartialEq, Eq, Structural)]
pub struct ShutdownError;

/// Admits storage work unless the manager is shutting down.
pub fn check_not_shutting_down(shutting_down: bool) -> (r: Result<(), ShutdownError>)
    ensures
        r is Err <==> shutting_down,
{
    if shutting_down {
        Err(ShutdownError)
    } else {
        Ok(())
    }
}

/// Pool that runs a blocking storage task.
#[derive(Clone, Copy, Debug, PartialEq, Eq, Structural)]
pub enum Priority {
    High,
    Low,
}

/// The process-wide storage settings that the manager reads.
#[derive(Clone, Copy, Debug, PartialEq, Eq, Structural)]
pub struct CommonOptions {
    /// Capacity of the shared block cache, in bytes.
    pub total_memory_size: usize,
    /// Ceiling of all memtables together, in bytes.
    pub total_memtables_size: usize,
    /// Write-stall threshold, in milliseconds.
    pub write_stall_threshold_millis: u64,
}

/// Settings to change after a configuration update; `None` leaves one as it is.
#[derive(Clone, Copy, Debug, PartialEq, Eq, Structural)]
pub struct ConfigChanges {
    pub stall_detection_millis: Option<u64>,
    pub cache_capacity: Option<usize>,
    pub write_buffer_size: Option<usize>,
}

/// The changes that a configuration update from `current` to `new` calls for.
pub open spec fn config_changes(
    shutting_down: bool,
    stall_detection_millis: u64,
    current: CommonOptions,
    new: CommonOptions,
) -> ConfigChanges {
    if shutting_down {
        ConfigChanges { stall_detection_millis: None, cache_capacity: None, write_buffer_size: None }
    } else {
        let memory_changed = new.total_memory_size != current.total_memory_size;
        let memtables_changed = new.total_memtables_size != current.total_memtables_size;
        ConfigChanges {
            stall_detection_millis: if new.write_stall_threshold_millis != stall_detection_millis {
                Some(new.write_stall_threshold_millis)
            } else {
                None
            },
            cache_capacity: if memory_changed { Some(new.total_memory_size) } else { None },
            write_buffer_size: if memory_changed || memtables_changed {
                Some(new.total_memtables_size)
            } else {
                None
            },
        }
    }
}

/// Reconciles a configuration update: nothing while shutting down; else a new stall
/// threshold, a new cache capacity when the memory cap changed, and a new write-buffer
/// ceiling when the memory cap or the memtable cap changed.
pub fn on_config_update(
    shutting_down: bool,
    stall_detection_millis: u64,
    current: &CommonOptions,
    new: &CommonOptions,
) -> (r: ConfigChanges)
    ensures
        r == config_changes(shutting_down, stall_detection_millis, *current, *new),
{
    if shutting_down {
        return ConfigChanges { stall_detection_millis: None, cache_capacity: None, write_buffer_size: None };
    }
    let stall = if new.write_stall_threshold_millis != stall_detection_millis {
        Some(new.write_stall_threshold_millis)
    } else {
        None
    };
    let memory_changed = new.total_memory_size != current.total_memory_size;
    let memtables_changed = new.total_memtables_size != current.total_memtables_size;
    ConfigChanges {
        stall_detection_millis: stall,
        cache_capacity: if memory_changed { Some(new.total_memory_size) } else { None },
        write_buffer_size: if memory_changed || memtables_changed {
            Some(new.total_memtables_size)
        } else {
            None
        },
    }
}

/// The live memory settings shared by all databases: block-cache capacity,
/// write-buffer ceiling, and stall-detection threshold.
#[derive(Clone, Copy, Debug, PartialEq, Eq, Structural)]
pub struct MemoryBudget {
    cache_capacity: usize,
    write_buffer_size: usize,
    stall_detection_millis: u64,
}

/// The setting `current` after `change`.
pub open spec fn updated<T>(current: T, change: Option<T>) -> T {
    match change {
        Some(v) => v,
        None => current,
    }
}

impl MemoryBudget {
    pub closed spec fn cache_capacity_spec(&self) -> usize {
        self.cache_capacity
    }

    pub closed spec fn write_buffer_size_spec(&self) -> usize {
        self.write_buffer_size
    }

    pub closed spec fn stall_detection_millis_spec(&self) -> u64 {
        self.stall_detection_millis
    }

    /// The budget that `opts` sets at start-up.
    pub fn new(opts: &CommonOptions) -> (r: MemoryBudget)
        ensures
            r.cache_capacity_spec() == opts.total_memory_size,
            r.write_buffer_size_spec() == opts.total_memtables_size,
            r.stall_detection_millis_spec() == opts.write_stall_threshold_millis,
    {
        MemoryBudget {
            cache_capacity: opts.total_memory_size,
            write_buffer_size: opts.total_memtables_size,
            stall_detection_millis: opts.write_stall_threshold_millis,
        }
    }

    pub fn cache_capacity(&self) -> (r: usize)
        ensures
            r == self.cache_capacity_spec(),
    {
        self.cache_capacity
    }

    pub fn write_buffer_size(&self) -> (r: usize)
        ensures
            r == self.write_buffer_size_spec(),
    {
        self.write_buffer_size
    }

    pub fn stall_detection_millis(&self) -> (r: u64)
        ensures
            r == self.stall_detection_millis_spec(),
    {
        self.stall_detection_millis
    }

    /// Applies the changes of a reconciliation.
    pub fn apply(&mut self, changes: &ConfigChanges)
        ensures
            final(self).cache_capacity_spec() == updated(old(self).cache_capacity_spec(), changes.cache_capacity),
            final(self).write_buffer_size_spec() == updated(old(self).write_buffer_size_spec(), changes.write_buffer_size),
            final(self).stall_detection_millis_spec()
                == updated(old(self).stall_detection_millis_spec(), changes.stall_detection_millis),
    {
        if let Some(capacity) = changes.cache_capacity {
            self.cache_capacity = capacity;
        }
        if let Some(size) = changes.write_buffer_size {
            self.write_buffer_size = size;
        }
        if let Some(millis) = changes.stall_detection_millis {
            self.stall_detection_millis = millis;
        }
    }
}

/// Once the watchdog has reconciled a new memory cap, the block cache reports that cap,
/// and the write-buffer ceiling is the new memtable cap.
pub proof fn lemma_memory_cap_applied(
    before: MemoryBudget,
    after: MemoryBudget,
    current: CommonOptions,
    new: CommonOptions,
)
    requires
        new.total_memory_size != current.total_memory_size,
        ({
            let changes = config_changes(false, before.stall_detection_millis_spec(), current, new);
            &&& after.cache_capacity_spec() == updated(before.cache_capacity_spec(), changes.cache_capacity)
            &&& after.write_buffer_size_spec() == updated(before.write_buffer_size_spec(), changes.write_buffer_size)
        }),
    ensures
        after.cache_capacity_spec() == new.total_memory_size,
        after.write_buffer_size_spec() == new.total_memtables_size,
{
}

/// Input that the watchdog serves next.
#[derive(Clone, Copy, Debug, PartialEq, Eq, Structural)]
pub enum WatchdogStep {
    Shutdown,
    Command,
    ConfigChanged,
    Wait,
}

/// Biased selection among the watchdog's ready inputs: shutdown first, then a
/// command, then a configuration change.
pub fn next_watchdog_step(shutdown_requested: bool, command_ready: bool, config_changed: bool) -> (r: WatchdogStep)
    ensures
        shutdown_requested ==> r == WatchdogStep::Shutdown,
        !shutdown_requested && command_ready ==> r == WatchdogStep::Command,
        !shutdown_requested && !command_ready && config_changed ==> r == WatchdogStep::ConfigChanged,
        !shutdown_requested && !command_ready && !config_changed ==> r == WatchdogStep::Wait,
{
    if shutdown_requested {
        WatchdogStep::Shutdown
    } else if command_ready {
        WatchdogStep::Command
    } else if config_changed {
        WatchdogStep::ConfigChanged
    } else {
        WatchdogStep::Wait
    }
}

/// `i` is the first position in `open` that holds `name`.
pub open spec fn first_position(open: Seq<Seq<char>>, name: Seq<char>, i: int) -> bool {
    &&& 0 <= i < open.len()
    &&& open[i] == name
    &&& forall|k: int| 0 <= k < i ==> open[k] != name
}

/// Position of the first name in `open` equal to `name`, if any.
pub open spec fn position_of(open: Seq<Seq<char>>, name: Seq<char>) -> Option<int> {
    if exists|i: int| first_position(open, name, i) {
        Some(choose|i: int| first_position(open, name, i))
    } else {
        None
    }
}

/// Positions in `open` of the databases that a memory report for `filter` covers.
pub open spec fn measured(filter: Seq<Seq<char>>, open: Seq<Seq<char>>) -> Seq<int>
    decreases filter.len(),
{
    if filter.len() == 0 {
        Seq::empty()
    } else {
        let rest = measured(filter.drop_last(), open);
        match position_of(open, filter.last()) {
            Some(i) => rest.push(i),
            None => rest,
        }
    }
}

/// The names of a list of strings.
pub open spec fn names(v: Seq<String>) -> Seq<Seq<char>> {
    v.map_values(|s: String| s@)
}

/// The values of `v` as integers.
pub open spec fn positions(v: Seq<usize>) -> Seq<int> {
    v.map_values(|i: usize| i as int)
}

fn find_db(open: &Vec<String>, name: &String) -> (r: Option<usize>)
    ensures
        match r {
            Some(i) => position_of(names(open@), name@) == Some(i as int),
            None => position_of(names(open@), name@) is None,
        },
{
    let ghost all = names(open@);
    let mut i: usize = 0;
    while i < open.len()
        invariant
            i <= open.len(),
            all == names(open@),
            forall|k: int| 0 <= k < i ==> all[k] != name@,
        decreases open.len() - i,
    {
        if open[i] == *name {
            assert(first_position(all, name@, i as int));
            let ghost j = choose|j: int| first_position(all, name@, j);
            assert(j == i as int);
            return Some(i);
        }
        i = i + 1;
    }
    assert(!exists|j: int| first_position(all, name@, j));
    None
}

/// Which of the open databases a memory report covers: all of them when `filter` is
/// empty, else those named in `filter` that are open, in the order of `filter`. The
/// result holds positions in `open`.
pub fn dbs_to_measure(filter: &Vec<String>, open: &Vec<String>) -> (r: Vec<usize>)
    ensures
        filter@.len() == 0 ==> positions(r@) == Seq::new(open@.len(), |i: int| i),
        filter@.len() > 0 ==> positions(r@) == measured(names(filter@), names(open@)),
{
    let mut r: Vec<usize> = Vec::new();
    if filter.len() == 0 {
        let mut i: usize = 0;
        while i < open.len()
            invariant
                i <= open.len(),
                positions(r@) == Seq::new(i as nat, |k: int| k),
            decreases open.len() - i,
        {
            let ghost before = r@;
            r.push(i);
            assert(positions(r@) =~= positions(before).push(i as int));
            i = i + 1;
            assert(positions(r@) =~= Seq::new(i as nat, |k: int| k));
        }
        return r;
    }
    let mut j: usize = 0;
    while j < filter.len()
        invariant
            j <= filter.len(),
            positions(r@) == measured(names(filter@).take(j as int), names(open@)),
        decreases filter.len() - j,
    {
        let ghost prefix = names(filter@).take(j as int + 1);
        assert(prefix.drop_last() =~= names(filter@).take(j as int));
        let ghost before = r@;
        match find_db(open, &filter[j]) {
            Some(i) => {
                r.push(i);
                assert(positions(r@) =~= positions(before).push(i as int));
            },
            None => {},
        }
        j = j + 1;
        assert(positions(r@) =~= measured(names(filter@).take(j as int), names(open@)));
    }
    assert(names(filter@).take(filter@.len() as int) =~= names(filter@));
    r
}

/// How much the engine's statistics record.
#[derive(Clone, Copy, Debug, PartialEq, Eq, Structural)]
pub enum StatisticsLevel {
    DisableAll,
    ExceptHistogramOrTimers,
    ExceptTimers,
    ExceptDetailedTimers,
    ExceptTimeForMutex,
    All,
}

/// Per-database settings of the configuration.
#[derive(Clone, Copy, Debug, PartialEq, Eq, Structural)]
pub struct RocksDbOptions {
    pub write_buffer_size: usize,
    pub max_background_jobs: u32,
    pub max_total_wal_size: u64,
    pub compaction_readahead_size: usize,
    pub disable_statistics: bool,
    pub statistics_level: StatisticsLevel,
    pub disable_wal: bool,
}

/// Database options that the manager sets when it opens a database.
#[derive(Clone, Copy, Debug, PartialEq, Eq, Structural)]
pub struct DbOptionsPlan {
    pub create_if_missing: bool,
    pub create_missing_column_families: bool,
    pub max_background_jobs: u32,
    /// Statistics to enable, if any.
    pub statistics: Option<StatisticsLevel>,
    pub wal_size_limit_mb: u64,
    pub wal_ttl_seconds: u64,
    /// WAL size that forces a memtable flush; unset when the WAL is disabled.
    pub max_total_wal_size: Option<u64>,
    pub level_compaction_dynamic_level_bytes: bool,
    pub compaction_readahead_size: usize,
    pub table_cache_num_shard_bits: u32,
    pub use_direct_reads: bool,
    pub use_direct_io_for_flush_and_compaction: bool,
}

/// Column-family options of every database.
#[derive(Clone, Copy, Debug, PartialEq, Eq, Structural)]
pub struct CfOptionsPlan {
    pub write_buffer_size: usize,
    pub bloom_filter_bits_per_key: u32,
    pub bloom_filter_block_based: bool,
    pub format_version: u32,
    pub cache_index_and_filter_blocks: bool,
}

pub const BLOOM_FILTER_BITS_PER_KEY: u32 = 10;

pub const TABLE_FORMAT_VERSION: u32 = 5;

pub const TABLE_CACHE_NUM_SHARD_BITS: u32 = 6;

/// Options of a database opened with `opts`: missing files and column families are
/// created, WAL archiving is off, level sizes are dynamic, and reads, flushes and
/// compactions use direct I/O.
pub open spec fn db_options_for(opts: RocksDbOptions) -> DbOptionsPlan {
    DbOptionsPlan {
        create_if_missing: true,
        create_missing_column_families: true,
        max_background_jobs: opts.max_background_jobs,
        statistics: if opts.disable_statistics { None } else { Some(opts.statistics_level) },
        wal_size_limit_mb: 0,
        wal_ttl_seconds: 0,
        max_total_wal_size: if opts.disable_wal { None } else { Some(opts.max_total_wal_size) },
        level_compaction_dynamic_level_bytes: true,
        compaction_readahead_size: opts.compaction_readahead_size,
        table_cache_num_shard_bits: TABLE_CACHE_NUM_SHARD_BITS,
        use_direct_reads: true,
        use_direct_io_for_flush_and_compaction: true,
    }
}

pub fn amend_db_options(opts: &RocksDbOptions) -> (r: DbOptionsPlan)
    ensures
        r == db_options_for(*opts),
{
    DbOptionsPlan {
        create_if_missing: true,
        create_missing_column_families: true,
        max_background_jobs: opts.max_background_jobs,
        statistics: if opts.disable_statistics { None } else { Some(opts.statistics_level) },
        wal_size_limit_mb: 0,
        wal_ttl_seconds: 0,
        max_total_wal_size: if opts.disable_wal { None } else { Some(opts.max_total_wal_size) },
        level_compaction_dynamic_level_bytes: true,
        compaction_readahead_size: opts.compaction_readahead_size,
        table_cache_num_shard_bits: TABLE_CACHE_NUM_SHARD_BITS,
        use_direct_reads: true,
        use_direct_io_for_flush_and_compaction: true,
    }
}

/// Column-family options: the configured write buffer, a block-based bloom filter of
/// ten bits per key, table format version 5, and index and filter blocks held in the
/// shared block cache.
pub fn default_cf_options(opts: &RocksDbOptions) -> (r: CfOptionsPlan)
    ensures
        r == (CfOptionsPlan {
            write_buffer_size: opts.write_buffer_size,
            bloom_filter_bits_per_key: BLOOM_FILTER_BITS_PER_KEY,
            bloom_filter_block_based: true,
            format_version: TABLE_FORMAT_VERSION,
            cache_index_and_filter_blocks: true,
        }),
{
    CfOptionsPlan {
        write_buffer_size: opts.write_buffer_size,
        bloom_filter_bits_per_key: BLOOM_FILTER_BITS_PER_KEY,
        bloom_filter_block_based: true,
        format_version: TABLE_FORMAT_VERSION,
        cache_index_and_filter_blocks: true,
    }
}

} // verus!
