//! Storage tier of a RIB unit: what the configuration declares, and the
//! backend it runs on. Disk and hybrid tiers have no backend yet and run in
//! memory, while still reporting the tier that was declared.
use rotonda_store::rib::config::{Config, MemoryOnlyConfig, PersistStrategy};
use std::path::PathBuf;
use vstd::prelude::*;

verus! {

/// rotonda_store's `MemoryOnlyConfig` is a unit struct: it has one value.
#[verifier::external_type_specification]
pub struct ExMemoryOnlyConfig(MemoryOnlyConfig);

/// Relies on rotonda_store's `Default` for `MemoryOnlyConfig`, a unit
/// struct; nothing further is claimed.
pub assume_specification[ <MemoryOnlyConfig as core::default::Default>::default ]() -> MemoryOnlyConfig;

/// Relies on rotonda_store's `Clone` for `MemoryOnlyConfig`, used by the
/// derived copies of storage configurations; nothing is claimed of the copy.
pub assume_specification[ <MemoryOnlyConfig as Clone>::clone ](c: &MemoryOnlyConfig) -> MemoryOnlyConfig;

/// How a RIB backend keeps its records.
#[derive(Clone, Copy, Debug, PartialEq, Eq, Structural)]
pub enum PersistMode {
    /// Current records in memory and on disk, history on disk.
    WriteAhead,
    /// Current records in memory, history on disk.
    PersistHistory,
    /// Current records in memory, no history.
    MemoryOnly,
    /// Current records on disk only.
    PersistOnly,
}

/// Relies on rotonda_store's `Config::persist_strategy` for
/// `MemoryOnlyConfig`, which answers `PersistStrategy::MemoryOnly` for
/// every value.
#[verifier::external_body]
fn memory_only_persist_mode(c: &MemoryOnlyConfig) -> (r: PersistMode)
    ensures
        r == PersistMode::MemoryOnly,
{
    match c.persist_strategy() {
        PersistStrategy::WriteAhead => PersistMode::WriteAhead,
        PersistStrategy::PersistHistory => PersistMode::PersistHistory,
        PersistStrategy::MemoryOnly => PersistMode::MemoryOnly,
        PersistStrategy::PersistOnly => PersistMode::PersistOnly,
    }
}

/// The declared storage tier of a RIB unit.
#[derive(Clone, Debug)]
pub enum StorageConfig {
    /// In memory only; the default.
    Memory(MemoryOnlyConfig),
    /// On disk, with a memory cache.
    Disk(DiskStorageConfig),
    /// In memory with disk persistence.
    Hybrid(HybridStorageConfig),
}

impl Default for StorageConfig {
    fn default() -> (r: Self)
        ensures
            r is Memory,
    {
        StorageConfig::Memory(MemoryOnlyConfig::default())
    }
}

/// On-disk storage settings.
#[derive(Clone, Debug)]
pub struct DiskStorageConfig {
    /// Directory of the database.
    pub path: PathBuf,
    /// Largest size of the database, in bytes.
    pub max_size_bytes: Option<u64>,
    pub compression: bool,
    pub sync_mode: SyncMode,
    /// Entries kept in memory.
    pub cache_size: usize,
    /// Interval of background compaction, in seconds.
    pub compaction_interval_secs: u64,
}

impl DiskStorageConfig {
    pub fn default_compression() -> (r: bool)
        ensures
            r,
    {
        true
    }

    pub fn default_sync_mode() -> (r: SyncMode)
        ensures
            r == SyncMode::Normal,
    {
        SyncMode::Normal
    }

    pub fn default_cache_size() -> (r: usize)
        ensures
            r == 10_000,
    {
        10_000
    }

    pub fn default_compaction_interval() -> (r: u64)
        ensures
            r == 3600,
    {
        3600
    }
}

/// Memory and disk storage settings together.
#[derive(Clone, Debug)]
pub struct HybridStorageConfig {
    pub disk: DiskStorageConfig,
    pub memory: MemoryOnlyConfig,
    pub placement_strategy: PlacementStrategy,
    /// Number of routes above which data moves from memory to disk.
    pub memory_threshold: usize,
    /// Whether data migrates between the tiers on its own.
    pub auto_migration: bool,
}

impl HybridStorageConfig {
    pub fn default_placement_strategy() -> (r: PlacementStrategy)
        ensures
            r == PlacementStrategy::RecentInMemory,
    {
        PlacementStrategy::RecentInMemory
    }

    pub fn default_memory_threshold() -> (r: usize)
        ensures
            r == 100_000,
    {
        100_000
    }

    pub fn default_auto_migration() -> (r: bool)
        ensures
            r,
    {
        true
    }
}

/// How disk writes are synchronised.
#[derive(Clone, Copy, Debug, PartialEq, Eq, Structural)]
pub enum SyncMode {
    /// No explicit sync: fastest, least durable.
    NoSync,
    Normal,
    /// Full sync: slowest, most durable.
    Full,
}

/// Which data a hybrid store keeps in memory.
#[derive(Clone, Copy, Debug, PartialEq, Eq, Structural)]
pub enum PlacementStrategy {
    RecentInMemory,
    FrequentInMemory,
    PeerBasedMemory,
    Custom,
}

impl StorageConfig {
    /// The backend configuration the RIB runs with. A memory tier keeps
    /// its own settings; disk and hybrid tiers fall back to a default
    /// memory-only backend, the same one a memory tier runs on.
    pub fn to_rib_config(&self) -> (r: MemoryOnlyConfig)
        ensures
            self matches StorageConfig::Memory(c) ==> r == c,
            r == MemoryOnlyConfig,
    {
        match self {
            StorageConfig::Memory(c) => *c,
            StorageConfig::Disk(_) => MemoryOnlyConfig::default(),
            StorageConfig::Hybrid(_) => MemoryOnlyConfig::default(),
        }
    }

    /// How the backend the RIB runs with keeps its records: in memory
    /// only, whichever tier was declared.
    pub fn runtime_persistence(&self) -> (r: PersistMode)
        ensures
            r == PersistMode::MemoryOnly,
    {
        let c = self.to_rib_config();
        memory_only_persist_mode(&c)
    }

    /// Whether the declared tier persists records.
    pub fn is_persistent(&self) -> (r: bool)
        ensures
            r == !(self is Memory),
    {
        match self {
            StorageConfig::Memory(_) => false,
            _ => true,
        }
    }

    /// The name of the declared tier.
    pub fn storage_type(&self) -> (r: &'static str)
        ensures
            self is Memory ==> r@ == "memory"@,
            self is Disk ==> r@ == "disk"@,
            self is Hybrid ==> r@ == "hybrid"@,
    {
        match self {
            StorageConfig::Memory(_) => "memory",
            StorageConfig::Disk(_) => "disk",
            StorageConfig::Hybrid(_) => "hybrid",
        }
    }
}

} // verus!
