//! External data sources: their configuration, the values they yield, the
//! TTL cache of those values and the manager that serves reads and queues
//! refresh requests.
use crate::retry::RetryPolicy;
use crate::table::KeyedTable;
use std::collections::HashMap;
use std::path::PathBuf;
use url::Url;
use vstd::prelude::*;

verus! {

#[verifier::external_type_specification]
#[verifier::external_body]
pub struct ExUrl(Url);

#[verifier::external_type_specification]
#[verifier::external_body]
pub struct ExPathBuf(PathBuf);

/// Relies on `Url`'s `Clone`, used by the derived copies of source
/// configurations; nothing is claimed of the copy.
pub assume_specification[ <Url as Clone>::clone ](u: &Url) -> Url;

/// Relies on `PathBuf`'s `Clone`, used by the derived copies of
/// configurations; nothing is claimed of the copy.
pub assume_specification[ <PathBuf as Clone>::clone ](p: &PathBuf) -> PathBuf;

/// Configuration of one external data source.
#[derive(Clone, Debug)]
pub struct ExternalDataSource {
    /// Unique identifier of this source.
    pub id: String,
    /// Where the data comes from.
    pub source_type: ExternalDataSourceType,
    /// Interval between automatic refreshes, in seconds.
    pub refresh_interval_secs: u64,
    /// How long a fetched value stays fresh, in seconds.
    pub cache_ttl_secs: u64,
    /// Whether the source is refreshed periodically.
    pub auto_refresh: bool,
    /// Backoff for failed fetches.
    pub retry_config: RetryConfig,
}

impl ExternalDataSource {
    pub fn default_refresh_interval() -> (r: u64)
        ensures
            r == 300,
    {
        300
    }

    pub fn default_cache_ttl() -> (r: u64)
        ensures
            r == 600,
    {
        600
    }

    pub fn default_auto_refresh() -> (r: bool)
        ensures
            r,
    {
        true
    }

    /// A source with the given identifier and kind, and default refresh
    /// interval, TTL, auto-refresh and retry settings.
    pub fn with_defaults(id: String, source_type: ExternalDataSourceType) -> (r: Self)
        ensures
            r.id == id,
            r.source_type == source_type,
            r.refresh_interval_secs == 300,
            r.cache_ttl_secs == 600,
            r.auto_refresh,
            r.retry_config == RetryConfig::default_spec(),
    {
        ExternalDataSource {
            id,
            source_type,
            refresh_interval_secs: Self::default_refresh_interval(),
            cache_ttl_secs: Self::default_cache_ttl(),
            auto_refresh: Self::default_auto_refresh(),
            retry_config: RetryConfig::default(),
        }
    }

    /// The configured TTL in milliseconds, capped at the largest `u64`.
    pub open spec fn ttl_ms_spec(&self) -> u64 {
        if self.cache_ttl_secs as int * 1000 <= u64::MAX {
            (self.cache_ttl_secs * 1000) as u64
        } else {
            u64::MAX
        }
    }

    pub fn cache_ttl_ms(&self) -> (r: u64)
        ensures
            r == self.ttl_ms_spec(),
    {
        match self.cache_ttl_secs.checked_mul(1000) {
            Some(v) => v,
            None => u64::MAX,
        }
    }
}

/// Kinds of external data sources.
#[derive(Clone, Debug)]
pub enum ExternalDataSourceType {
    /// HTTP or HTTPS endpoint.
    Http(HttpDataSource),
    /// File on disk.
    File(FileDataSource),
    /// Database query.
    Database(DatabaseDataSource),
    /// Key-value store lookup.
    Redis(RedisDataSource),
    /// Another RIB unit.
    Rib(RibDataSource),
}

/// HTTP data source configuration.
#[derive(Clone, Debug)]
pub struct HttpDataSource {
    pub url: Url,
    pub method: String,
    pub headers: HashMap<String, String>,
    /// Request body, for POST and PUT.
    pub body: Option<String>,
    pub timeout_secs: u64,
    pub content_type: Option<String>,
    pub auth: Option<HttpAuth>,
}

impl HttpDataSource {
    pub fn default_method() -> (r: String)
        ensures
            r@ == "GET"@,
    {
        String::from_str("GET")
    }

    pub fn default_timeout() -> (r: u64)
        ensures
            r == 30,
    {
        30
    }
}

/// HTTP authentication.
#[derive(Clone, Debug)]
pub enum HttpAuth {
    Basic { username: String, password: String },
    Bearer { token: String },
    ApiKey { header: String, value: String },
}

/// File data source configuration.
#[derive(Clone, Debug)]
pub struct FileDataSource {
    pub path: PathBuf,
    pub format: FileFormat,
    /// Whether changes to the file are watched.
    pub watch: bool,
}

impl FileDataSource {
    pub fn default_format() -> (r: FileFormat)
        ensures
            r == FileFormat::Json,
    {
        FileFormat::Json
    }

    pub fn default_watch() -> (r: bool)
        ensures
            r,
    {
        true
    }
}

/// Format of a data file.
#[derive(Clone, Copy, Debug, PartialEq, Eq, Structural)]
pub enum FileFormat {
    Json,
    Yaml,
    Toml,
    Csv,
    Text,
}

/// Database data source configuration.
#[derive(Clone, Debug)]
pub struct DatabaseDataSource {
    pub connection_string: String,
    /// Query to execute.
    pub query: String,
    pub parameters: HashMap<String, String>,
    pub pool_size: u32,
}

impl DatabaseDataSource {
    pub fn default_pool_size() -> (r: u32)
        ensures
            r == 5,
    {
        5
    }
}

/// Key-value store data source configuration.
#[derive(Clone, Debug)]
pub struct RedisDataSource {
    pub url: String,
    /// Key pattern or a single key.
    pub key: String,
    pub command: String,
    /// Database number.
    pub database: u8,
}

impl RedisDataSource {
    pub fn default_command() -> (r: String)
        ensures
            r@ == "GET"@,
    {
        String::from_str("GET")
    }
}

/// Query on another RIB unit.
#[derive(Clone, Debug)]
pub struct RibDataSource {
    pub rib_name: String,
    pub query_type: RibQueryType,
    pub parameters: HashMap<String, String>,
}

/// Kinds of RIB queries.
#[derive(Clone, Copy, Debug, PartialEq, Eq, Structural)]
pub enum RibQueryType {
    /// A specific prefix.
    Prefix,
    /// Prefixes originated by an ASN.
    Asn,
    /// Prefixes carrying a community.
    Community,
    Custom,
}

/// Backoff for fetches of external data.
#[derive(Clone, Copy, Debug, PartialEq, Eq, Structural)]
pub struct RetryConfig {
    pub max_retries: u32,
    pub initial_delay_ms: u64,
    pub max_delay_ms: u64,
    /// Whole-number factor applied to the delay after each retry.
    pub backoff_multiplier: u64,
}

impl RetryConfig {
    pub open spec fn default_spec() -> RetryConfig {
        RetryConfig { max_retries: 3, initial_delay_ms: 1000, max_delay_ms: 10000, backoff_multiplier: 2 }
    }

    pub fn default_max_retries() -> (r: u32)
        ensures
            r == 3,
    {
        3
    }

    pub fn default_initial_delay_ms() -> (r: u64)
        ensures
            r == 1000,
    {
        1000
    }

    pub fn default_max_delay_ms() -> (r: u64)
        ensures
            r == 10000,
    {
        10000
    }

    pub fn default_backoff_multiplier() -> (r: u64)
        ensures
            r == 2,
    {
        2
    }

    pub open spec fn policy_spec(&self) -> RetryPolicy {
        RetryPolicy {
            max_retries: self.max_retries,
            initial_delay_ms: self.initial_delay_ms,
            max_delay_ms: self.max_delay_ms,
            backoff_multiplier: self.backoff_multiplier,
        }
    }

    /// The backoff policy these settings describe.
    pub fn policy(&self) -> (r: RetryPolicy)
        ensures
            r == self.policy_spec(),
    {
        RetryPolicy {
            max_retries: self.max_retries,
            initial_delay_ms: self.initial_delay_ms,
            max_delay_ms: self.max_delay_ms,
            backoff_multiplier: self.backoff_multiplier,
        }
    }
}

impl Default for RetryConfig {
    fn default() -> (r: Self)
        ensures
            r == RetryConfig::default_spec(),
    {
        RetryConfig {
            max_retries: Self::default_max_retries(),
            initial_delay_ms: Self::default_initial_delay_ms(),
            max_delay_ms: Self::default_max_delay_ms(),
            backoff_multiplier: Self::default_backoff_multiplier(),
        }
    }
}

/// What an external data value denotes: the same value however it is held.
pub enum ValueModel {
    Str(Seq<char>),
    Num(int),
    Bool(bool),
    List(Seq<ValueModel>),
    Obj(Seq<Seq<char>>, Seq<ValueModel>),
    Null,
}

/// External data value handed to filters. Numbers are whole numbers; an
/// object keeps its members in the order they were given.
#[derive(Debug)]
pub enum ExternalDataValue {
    String(String),
    Number(i64),
    Boolean(bool),
    Array(Vec<ExternalDataValue>),
    Object(Vec<(String, ExternalDataValue)>),
    Null,
}

impl View for ExternalDataValue {
    type V = ValueModel;

    open spec fn view(&self) -> ValueModel
        decreases self,
    {
        match self {
            ExternalDataValue::String(s) => ValueModel::Str(s@),
            ExternalDataValue::Number(n) => ValueModel::Num(*n as int),
            ExternalDataValue::Boolean(b) => ValueModel::Bool(*b),
            ExternalDataValue::Array(items) => ValueModel::List(
                Seq::new(
                    items.len() as nat,
                    |i: int|
                        if 0 <= i < items.len() {
                            items[i].view()
                        } else {
                            ValueModel::Null
                        },
                ),
            ),
            ExternalDataValue::Object(members) => ValueModel::Obj(
                Seq::new(
                    members.len() as nat,
                    |i: int|
                        if 0 <= i < members.len() {
                            members[i].0@
                        } else {
                            Seq::empty()
                        },
                ),
                Seq::new(
                    members.len() as nat,
                    |i: int|
                        if 0 <= i < members.len() {
                            members[i].1.view()
                        } else {
                            ValueModel::Null
                        },
                ),
            ),
            ExternalDataValue::Null => ValueModel::Null,
        }
    }
}

/// Every object, at every depth, names each member at most once.
pub open spec fn model_wf(m: ValueModel) -> bool
    decreases m, 0int,
{
    match m {
        ValueModel::List(items) => seq_wf(items, 0),
        ValueModel::Obj(keys, vals) => keys.no_duplicates() && seq_wf(vals, 0),
        _ => true,
    }
}

/// Every value of `items` from position `i` on is well formed.
pub open spec fn seq_wf(items: Seq<ValueModel>, i: nat) -> bool
    decreases items, items.len() - i,
{
    if i >= items.len() {
        true
    } else {
        model_wf(items[i as int]) && seq_wf(items, i + 1)
    }
}

impl ExternalDataValue {
    /// Whether every object in this value names each member at most once.
    pub fn is_well_formed(&self) -> (r: bool)
        ensures
            r == model_wf(self@),
        decreases self@,
    {
        match self {
            ExternalDataValue::Array(items) => {
                let ghost l = self@->List_0;
                let mut i: usize = 0;
                while i < items.len()
                    invariant
                        *self == ExternalDataValue::Array(*items),
                        l == self@->List_0,
                        l.len() == items.len(),
                        i <= items.len(),
                        seq_wf(l, 0) == seq_wf(l, i as nat),
                    decreases items.len() - i,
                {
                    proof {
                        assert(l[i as int] == items[i as int]@);
                        assert(decreases_to!(l => l[i as int]));
                    }
                    if !items[i].is_well_formed() {
                        return false;
                    }
                    i = i + 1;
                }
                true
            },
            ExternalDataValue::Object(members) => {
                let ghost keys = self@->Obj_0;
                let ghost vals = self@->Obj_1;
                let mut i: usize = 0;
                while i < members.len()
                    invariant
                        *self == ExternalDataValue::Object(*members),
                        keys == self@->Obj_0,
                        vals == self@->Obj_1,
                        keys.len() == members.len(),
                        vals.len() == members.len(),
                        i <= members.len(),
                        forall|a: int, b: int|
                            0 <= a < b < i ==> #[trigger] keys[a] != #[trigger] keys[b],
                        seq_wf(vals, 0) == seq_wf(vals, i as nat),
                    decreases members.len() - i,
                {
                    let mut j: usize = 0;
                    while j < i
                        invariant
                            *self == ExternalDataValue::Object(*members),
                            keys == self@->Obj_0,
                            keys.len() == members.len(),
                            i < members.len(),
                            j <= i,
                            forall|a: int| 0 <= a < j ==> #[trigger] keys[a] != keys[i as int],
                        decreases i - j,
                    {
                        if members[j].0 == members[i].0 {
                            assert(keys[j as int] == keys[i as int]);
                            return false;
                        }
                        j = j + 1;
                    }
                    proof {
                        assert(vals[i as int] == members[i as int].1@);
                        assert(decreases_to!(vals => vals[i as int]));
                    }
                    if !members[i].1.is_well_formed() {
                        return false;
                    }
                    proof {
                        assert forall|a: int, b: int| 0 <= a < b < i + 1 implies #[trigger] keys[a]
                            != #[trigger] keys[b] by {
                            if b == i {
                                assert(keys[a] != keys[i as int]);
                            }
                        }
                    }
                    i = i + 1;
                }
                proof {
                    assert forall|a: int, b: int|
                        0 <= a < keys.len() && 0 <= b < keys.len() && a != b implies keys[a]
                        != keys[b] by {
                        if a < b {
                            assert(keys[a] != keys[b]);
                        } else {
                            assert(keys[b] != keys[a]);
                        }
                    }
                }
                true
            },
            _ => true,
        }
    }

    /// A copy of this value that denotes the same thing.
    pub fn duplicate(&self) -> (r: ExternalDataValue)
        ensures
            r@ == self@,
        decreases self@,
    {
        match self {
            ExternalDataValue::String(s) => ExternalDataValue::String(String::clone(s)),
            ExternalDataValue::Number(n) => ExternalDataValue::Number(*n),
            ExternalDataValue::Boolean(b) => ExternalDataValue::Boolean(*b),
            ExternalDataValue::Array(items) => {
                let mut out: Vec<ExternalDataValue> = Vec::new();
                let mut i: usize = 0;
                while i < items.len()
                    invariant
                        *self == ExternalDataValue::Array(*items),
                        i <= items.len(),
                        out.len() == i,
                        forall|j: int| 0 <= j < i ==> #[trigger] out[j]@ == items[j]@,
                    decreases items.len() - i,
                {
                    proof {
                        let m = self@->List_0;
                        assert(m[i as int] == items[i as int]@);
                        assert(decreases_to!(m => m[i as int]));
                    }
                    let c = items[i].duplicate();
                    out.push(c);
                    i = i + 1;
                }
                let r = ExternalDataValue::Array(out);
                proof {
                    let a = r@->List_0;
                    let b = self@->List_0;
                    assert(a.len() == b.len());
                    assert(forall|j: int| 0 <= j < a.len() ==> a[j] == out[j]@);
                    assert(forall|j: int| 0 <= j < a.len() ==> b[j] == items[j]@);
                    assert(a =~= b);
                }
                assert(r@ == self@);
                r
            },
            ExternalDataValue::Object(members) => {
                let mut out: Vec<(String, ExternalDataValue)> = Vec::new();
                let mut i: usize = 0;
                while i < members.len()
                    invariant
                        *self == ExternalDataValue::Object(*members),
                        i <= members.len(),
                        out.len() == i,
                        forall|j: int| 0 <= j < i ==> #[trigger] out[j].0@ == members[j].0@,
                        forall|j: int| 0 <= j < i ==> #[trigger] out[j].1@ == members[j].1@,
                    decreases members.len() - i,
                {
                    let k = members[i].0.clone();
                    proof {
                        let m = self@->Obj_1;
                        assert(m[i as int] == members[i as int].1@);
                        assert(decreases_to!(m => m[i as int]));
                    }
                    let c = members[i].1.duplicate();
                    out.push((k, c));
                    i = i + 1;
                }
                let r = ExternalDataValue::Object(out);
                proof {
                    assert(r@->Obj_0 =~= self@->Obj_0);
                    assert(forall|j: int|
                        0 <= j < out.len() ==> #[trigger] r@->Obj_1[j] == out[j].1@);
                    assert(r@->Obj_1 =~= self@->Obj_1);
                }
                r
            },
            ExternalDataValue::Null => ExternalDataValue::Null,
        }
    }
}

/// A fetched value with the time it was fetched and how long it stays
/// fresh, both in milliseconds of one monotonic clock.
pub struct CachedData {
    pub value: ExternalDataValue,
    pub fetched_at_ms: u64,
    pub ttl_ms: u64,
}

impl CachedData {
    /// Expired once more than the TTL has passed since the fetch.
    pub open spec fn expired_at(&self, now_ms: int) -> bool {
        now_ms - self.fetched_at_ms > self.ttl_ms
    }

    /// An entry fetched at `now_ms`.
    pub fn new(value: ExternalDataValue, ttl_ms: u64, now_ms: u64) -> (r: Self)
        ensures
            r.value == value,
            r.fetched_at_ms == now_ms,
            r.ttl_ms == ttl_ms,
    {
        CachedData { value, fetched_at_ms: now_ms, ttl_ms }
    }

    /// Whether the entry has expired at `now_ms`.
    pub fn is_expired(&self, now_ms: u64) -> (r: bool)
        ensures
            r == self.expired_at(now_ms as int),
    {
        now_ms > self.fetched_at_ms && now_ms - self.fetched_at_ms > self.ttl_ms
    }
}

/// Cache of fetched values by source identifier. Expiry never evicts an
/// entry: whether a value is still fresh is decided when it is read.
pub struct RefreshCache {
    entries: KeyedTable<CachedData>,
}

impl View for RefreshCache {
    type V = Map<Seq<char>, CachedData>;

    closed spec fn view(&self) -> Map<Seq<char>, CachedData> {
        self.entries@
    }
}

impl RefreshCache {
    /// Keys are unique and every value held is well formed.
    pub closed spec fn wf(&self) -> bool {
        &&& self.entries.wf()
        &&& forall|k: Seq<char>| #[trigger]
            self.entries@.contains_key(k) ==> model_wf(self.entries@[k].value@)
    }

    pub fn new() -> (r: Self)
        ensures
            r.wf(),
            r@ == Map::<Seq<char>, CachedData>::empty(),
    {
        RefreshCache { entries: KeyedTable::new() }
    }

    /// The entry stored for `id`, fresh or not.
    pub fn read(&self, id: &str) -> (r: Option<&CachedData>)
        requires
            self.wf(),
        ensures
            match r {
                Some(e) => self@.contains_key(id@) && *e == self@[id@] && model_wf(e.value@),
                None => !self@.contains_key(id@),
            },
    {
        let key = String::from_str(id);
        self.entries.get(&key)
    }

    /// Replaces the entry for `id`, whatever it held.
    pub fn write(&mut self, id: &str, value: ExternalDataValue, ttl_ms: u64, now_ms: u64)
        requires
            old(self).wf(),
            model_wf(value@),
        ensures
            final(self).wf(),
            final(self)@ == old(self)@.insert(
                id@,
                CachedData { value: value, fetched_at_ms: now_ms, ttl_ms: ttl_ms },
            ),
    {
        let key = String::from_str(id);
        self.entries.insert(key, CachedData::new(value, ttl_ms, now_ms));
    }

    /// Evicts the entry for `id`.
    pub fn remove(&mut self, id: &str)
        requires
            old(self).wf(),
        ensures
            final(self).wf(),
            final(self)@ == old(self)@.remove(id@),
    {
        let key = String::from_str(id);
        self.entries.remove(&key);
    }

    /// Number of entries.
    pub fn len(&self) -> (r: usize)
        requires
            self.wf(),
        ensures
            r == self@.len(),
    {
        self.entries.len()
    }
}

/// The identifiers of a queue of refresh requests.
pub open spec fn request_ids(q: Seq<String>) -> Seq<Seq<char>> {
    q.map_values(|s: String| s@)
}

/// Registry of external sources, their cached values and the queue of
/// refresh requests waiting for the single refresh worker. The queue is
/// unbounded and keeps every request, duplicates included, in arrival order.
pub struct ExternalDataManager {
    sources: KeyedTable<ExternalDataSource>,
    cache: RefreshCache,
    requests: Vec<String>,
}

impl Default for ExternalDataManager {
    fn default() -> (r: Self)
        ensures
            r.wf(),
            r.catalog() == Map::<Seq<char>, ExternalDataSource>::empty(),
            r.cached() == Map::<Seq<char>, CachedData>::empty(),
            r.pending() == Seq::<Seq<char>>::empty(),
    {
        Self::new()
    }
}

impl ExternalDataManager {
    pub closed spec fn wf(&self) -> bool {
        &&& self.sources.wf()
        &&& self.cache.wf()
        &&& forall|k: Seq<char>| #[trigger]
            self.sources@.contains_key(k) ==> self.sources@[k].id@ == k
    }

    /// Sources by identifier.
    pub closed spec fn catalog(&self) -> Map<Seq<char>, ExternalDataSource> {
        self.sources@
    }

    /// Cached entries by source identifier.
    pub closed spec fn cached(&self) -> Map<Seq<char>, CachedData> {
        self.cache@
    }

    /// Identifiers waiting to be refreshed, oldest first.
    pub closed spec fn pending(&self) -> Seq<Seq<char>> {
        request_ids(self.requests@)
    }

    pub fn new() -> (r: Self)
        ensures
            r.wf(),
            r.catalog() == Map::<Seq<char>, ExternalDataSource>::empty(),
            r.cached() == Map::<Seq<char>, CachedData>::empty(),
            r.pending() == Seq::<Seq<char>>::empty(),
    {
        let r = ExternalDataManager {
            sources: KeyedTable::new(),
            cache: RefreshCache::new(),
            requests: Vec::new(),
        };
        assert(r.pending() =~= Seq::<Seq<char>>::empty());
        r
    }

    fn enqueue(&mut self, id: String)
        ensures
            final(self).pending() == old(self).pending().push(id@),
            final(self).sources == old(self).sources,
            final(self).cache == old(self).cache,
    {
        let ghost old_q = self.requests@;
        self.requests.push(id);
        proof {
            assert(request_ids(self.requests@) =~= request_ids(old_q).push(id@));
        }
    }

    /// Registers a source and queues its first refresh. A source already
    /// registered under the same identifier is replaced.
    pub fn add_source(&mut self, source: ExternalDataSource)
        requires
            old(self).wf(),
        ensures
            final(self).wf(),
            final(self).catalog() == old(self).catalog().insert(source.id@, source),
            final(self).cached() == old(self).cached(),
            final(self).pending() == old(self).pending().push(source.id@),
    {
        let id = source.id.clone();
        let key = source.id.clone();
        let ghost s = source;
        self.sources.insert(key, source);
        self.enqueue(id);
    }

    /// Unregisters a source and evicts its cached value.
    pub fn remove_source(&mut self, source_id: &str)
        requires
            old(self).wf(),
        ensures
            final(self).wf(),
            final(self).catalog() == old(self).catalog().remove(source_id@),
            final(self).cached() == old(self).cached().remove(source_id@),
            final(self).pending() == old(self).pending(),
    {
        let key = String::from_str(source_id);
        self.sources.remove(&key);
        self.cache.remove(source_id);
    }

    /// Reads a source's value without waiting for any fetch. A fresh entry
    /// is returned as it is. Otherwise one refresh request is queued, and an
    /// expired entry is still returned while a newer value is fetched.
    pub fn get_data(&mut self, source_id: &str, now_ms: u64) -> (r: Option<ExternalDataValue>)
        requires
            old(self).wf(),
        ensures
            final(self).wf(),
            final(self).catalog() == old(self).catalog(),
            final(self).cached() == old(self).cached(),
            old(self).cached().contains_key(source_id@) ==> {
                &&& r is Some
                &&& r->0@ == old(self).cached()[source_id@].value@
            },
            !old(self).cached().contains_key(source_id@) ==> r is None,
            r is Some ==> model_wf(r->0@),
            if old(self).cached().contains_key(source_id@) && !old(self).cached()[source_id@].expired_at(now_ms as int) {
                final(self).pending() == old(self).pending()
            } else {
                final(self).pending() == old(self).pending().push(source_id@)
            },
    {
        match self.cache.read(source_id) {
            Some(entry) => {
                if !entry.is_expired(now_ms) {
                    return Some(entry.value.duplicate());
                }
            },
            None => {},
        }
        self.enqueue(String::from_str(source_id));
        match self.cache.read(source_id) {
            Some(entry) => Some(entry.value.duplicate()),
            None => None,
        }
    }

    /// Queues a refresh of `source_id`, as a periodic tick does.
    pub fn request_refresh(&mut self, source_id: String)
        requires
            old(self).wf(),
        ensures
            final(self).wf(),
            final(self).catalog() == old(self).catalog(),
            final(self).cached() == old(self).cached(),
            final(self).pending() == old(self).pending().push(source_id@),
    {
        self.enqueue(source_id);
    }

    /// Takes the oldest refresh request off the queue.
    pub fn next_request(&mut self) -> (r: Option<String>)
        requires
            old(self).wf(),
        ensures
            final(self).wf(),
            final(self).catalog() == old(self).catalog(),
            final(self).cached() == old(self).cached(),
            old(self).pending().len() == 0 ==> r is None && final(self).pending() == old(self).pending(),
            old(self).pending().len() > 0 ==> {
                &&& r is Some
                &&& r->0@ == old(self).pending()[0]
                &&& final(self).pending() == old(self).pending().drop_first()
            },
    {
        if self.requests.len() == 0 {
            return None;
        }
        let ghost old_q = self.requests@;
        let id = self.requests.remove(0);
        proof {
            assert(request_ids(self.requests@) =~= request_ids(old_q).drop_first());
        }
        Some(id)
    }

    /// Number of refresh requests waiting.
    pub fn pending_count(&self) -> (r: usize)
        ensures
            r == self.pending().len(),
    {
        self.requests.len()
    }

    /// The configuration registered under `source_id`.
    pub fn source(&self, source_id: &str) -> (r: Option<&ExternalDataSource>)
        requires
            self.wf(),
        ensures
            match r {
                Some(s) => self.catalog().contains_key(source_id@) && *s == self.catalog()[source_id@],
                None => !self.catalog().contains_key(source_id@),
            },
    {
        let key = String::from_str(source_id);
        self.sources.get(&key)
    }

    /// The delay before fetching `source_id` again after `attempt` failed
    /// retries, per the source's retry settings; none once they are spent
    /// or when the source is not registered.
    pub fn fetch_retry_delay(&self, source_id: &str, attempt: u32) -> (r: Option<u64>)
        requires
            self.wf(),
        ensures
            !self.catalog().contains_key(source_id@) ==> r is None,
            self.catalog().contains_key(source_id@) ==> {
                let c = self.catalog()[source_id@].retry_config;
                if attempt < c.max_retries {
                    r == Some(c.policy_spec().delay_spec(attempt as nat) as u64)
                } else {
                    r is None
                }
            },
    {
        match self.source(source_id) {
            Some(source) => {
                let policy = source.retry_config.policy();
                if policy.should_retry(attempt) {
                    Some(policy.next_delay(attempt))
                } else {
                    None
                }
            },
            None => None,
        }
    }

    /// The cache of fetched values.
    pub fn cache(&self) -> (r: &RefreshCache)
        requires
            self.wf(),
        ensures
            r.wf(),
            r@ == self.cached(),
    {
        &self.cache
    }

    /// Records the outcome of a fetch for `source_id`. A fetched value
    /// replaces the cached entry, with the source's TTL; a failed fetch
    /// leaves the stale entry in place, and so does a value with an object
    /// that names a member twice. A value for a source no longer registered
    /// is dropped.
    pub fn complete_refresh(
        &mut self,
        source_id: &str,
        fetched: Option<ExternalDataValue>,
        now_ms: u64,
    )
        requires
            old(self).wf(),
        ensures
            final(self).wf(),
            final(self).catalog() == old(self).catalog(),
            final(self).pending() == old(self).pending(),
            match fetched {
                Some(v) => if old(self).catalog().contains_key(source_id@) && model_wf(v@) {
                    final(self).cached() == old(self).cached().insert(
                        source_id@,
                        CachedData {
                            value: v,
                            fetched_at_ms: now_ms,
                            ttl_ms: old(self).catalog()[source_id@].ttl_ms_spec(),
                        },
                    )
                } else {
                    final(self).cached() == old(self).cached()
                },
                None => final(self).cached() == old(self).cached(),
            },
    {
        match fetched {
            Some(v) => {
                let key = String::from_str(source_id);
                let ttl = match self.sources.get(&key) {
                    Some(source) => Some(source.cache_ttl_ms()),
                    None => None,
                };
                match ttl {
                    Some(t) => {
                        if v.is_well_formed() {
                            self.cache.write(source_id, v, t, now_ms);
                        }
                    },
                    None => {},
                }
            },
            None => {},
        }
    }

    /// The identifiers and refresh intervals, in seconds, of the registered
    /// sources that refresh automatically, one periodic ticker each.
    pub fn auto_refresh_sources(&self) -> (r: Vec<(String, u64)>)
        requires
            self.wf(),
        ensures
            forall|i: int|
                0 <= i < r.len() ==> {
                    let k = (#[trigger] r[i]).0@;
                    &&& self.catalog().contains_key(k)
                    &&& self.catalog()[k].auto_refresh
                    &&& r[i].1 == self.catalog()[k].refresh_interval_secs
                },
            forall|k: Seq<char>|
                #[trigger] self.catalog().contains_key(k) && self.catalog()[k].auto_refresh
                    ==> exists|i: int| 0 <= i < r.len() && #[trigger] r[i].0@ == k,
            forall|i: int, j: int| 0 <= i < j < r.len() ==> #[trigger] r[i].0@ != #[trigger] r[j].0@,
    {
        let keys = self.sources.keys();
        let mut r: Vec<(String, u64)> = Vec::new();
        let mut i: usize = 0;
        while i < keys.len()
            invariant
                self.wf(),
                i <= keys.len(),
                forall|a: int| 0 <= a < keys.len() ==> self.sources@.contains_key(#[trigger] keys[a]@),
                forall|a: int, b: int| 0 <= a < b < keys.len() ==> #[trigger] keys[a]@ != #[trigger] keys[b]@,
                forall|a: int|
                    0 <= a < r.len() ==> {
                        let k = (#[trigger] r[a]).0@;
                        &&& self.sources@.contains_key(k)
                        &&& self.sources@[k].auto_refresh
                        &&& r[a].1 == self.sources@[k].refresh_interval_secs
                    },
                forall|a: int| 0 <= a < r.len() ==> exists|b: int| 0 <= b < i && #[trigger] keys[b]@ == (#[trigger] r[a]).0@,
                forall|b: int| 0 <= b < i && self.sources@[#[trigger] keys[b]@].auto_refresh ==> exists|a: int|
                    0 <= a < r.len() && #[trigger] r[a].0@ == keys[b]@,
                forall|a: int, c: int| 0 <= a < c < r.len() ==> #[trigger] r[a].0@ != #[trigger] r[c].0@,
            decreases keys.len() - i,
        {
            match self.sources.get(&keys[i]) {
                Some(source) => {
                    if source.auto_refresh {
                        let ghost before = r@;
                        r.push((keys[i].clone(), source.refresh_interval_secs));
                        proof {
                            assert(r[r.len() - 1].0@ == keys[i as int]@);
                            assert forall|a: int| 0 <= a < r.len() - 1 implies exists|b: int|
                                0 <= b < i + 1 && #[trigger] keys[b]@ == (#[trigger] r[a]).0@ by {
                                assert(r[a] == before[a]);
                            }
                            assert forall|a: int, c: int| 0 <= a < c < r.len() implies #[trigger] r[a].0@
                                != #[trigger] r[c].0@ by {
                                if c == r.len() - 1 {
                                    let b = choose|b: int| 0 <= b < i && #[trigger] keys[b]@ == before[a].0@;
                                    assert(r[a] == before[a]);
                                    assert(keys[b]@ != keys[i as int]@);
                                } else {
                                    assert(r[a] == before[a]);
                                    assert(r[c] == before[c]);
                                }
                            }
                            assert forall|b: int| 0 <= b < i + 1 && self.sources@[#[trigger] keys[b]@].auto_refresh implies exists|a: int|
                                0 <= a < r.len() && #[trigger] r[a].0@ == keys[b]@ by {
                                if b < i {
                                    let a = choose|a: int| 0 <= a < before.len() && #[trigger] before[a].0@ == keys[b]@;
                                    assert(r[a] == before[a]);
                                } else {
                                    assert(r[r.len() - 1].0@ == keys[b]@);
                                }
                            }
                        }
                    }
                },
                None => {},
            }
            i = i + 1;
        }
        proof {
            assert forall|k: Seq<char>|
                #[trigger] self.catalog().contains_key(k) && self.catalog()[k].auto_refresh
                    implies exists|a: int| 0 <= a < r.len() && #[trigger] r[a].0@ == k by {
                let b = choose|b: int| 0 <= b < keys.len() && #[trigger] keys[b]@ == k;
                assert(self.sources@[keys[b]@].auto_refresh);
            }
        }
        r
    }
}

/// The character of a decimal digit.
pub open spec fn digit_char(d: int) -> char {
    seq!['0', '1', '2', '3', '4', '5', '6', '7', '8', '9'][d]
}

/// The value of a decimal digit character; out of `0..=9` for any other.
pub open spec fn digit_value(c: char) -> int {
    (c as u32) as int - ('0' as u32) as int
}

/// Decimal digits of a natural number, without leading zeros.
pub open spec fn digits_text(n: nat) -> Seq<char>
    decreases n,
{
    if n < 10 {
        seq![digit_char(n as int)]
    } else {
        digits_text(n / 10).push(digit_char((n % 10) as int))
    }
}

/// Decimal text of an integer, with a minus sign when negative.
pub open spec fn integer_text(n: int) -> Seq<char> {
    if n < 0 {
        seq!['-'] + digits_text((-n) as nat)
    } else {
        digits_text(n as nat)
    }
}

/// The number a run of decimal digits stands for.
pub open spec fn digits_value(s: Seq<char>) -> int
    decreases s.len(),
{
    if s.len() == 0 {
        0
    } else {
        digits_value(s.drop_last()) * 10 + digit_value(s.last())
    }
}

/// One or more decimal digits and nothing else.
pub open spec fn is_digit_run(s: Seq<char>) -> bool {
    s.len() > 0 && forall|i: int| 0 <= i < s.len() ==> 0 <= #[trigger] digit_value(s[i]) <= 9
}

/// A text read as a 64-bit integer: an optional `+` or `-`, then decimal
/// digits, with a value in range.
pub open spec fn parsed_integer(s: Seq<char>) -> Option<i64> {
    let signed = s.len() > 0 && (s[0] == '-' || s[0] == '+');
    let body = if signed {
        s.drop_first()
    } else {
        s
    };
    let v = if s.len() > 0 && s[0] == '-' {
        -digits_value(body)
    } else {
        digits_value(body)
    };
    if is_digit_run(body) && i64::MIN <= v <= i64::MAX {
        Some(v as i64)
    } else {
        None
    }
}

/// What `str::to_lowercase` yields for a text.
pub uninterp spec fn lower_of(s: Seq<char>) -> Seq<char>;

/// Relies on `str::parse::<i64>` (`FromStr for i64`): an optional sign and
/// ASCII decimal digits whose value is in range give that value; any other
/// text gives an error.
#[verifier::external_body]
fn parse_integer(s: &str) -> (r: Option<i64>)
    ensures
        r == parsed_integer(s@),
{
    s.parse::<i64>().ok()
}

/// Relies on `i64`'s `Display` through `to_string`: the decimal text of the
/// number, with a leading `-` when negative.
#[verifier::external_body]
fn integer_to_text(n: i64) -> (r: String)
    ensures
        r@ == integer_text(n as int),
{
    n.to_string()
}

/// Relies on `str::to_lowercase`: the lowercase form of the text, which
/// depends on the text alone.
#[verifier::external_body]
fn lowercase(s: &str) -> (r: String)
    ensures
        r@ == lower_of(s@),
{
    s.to_lowercase()
}

/// The truth value a lowercase word stands for.
pub open spec fn boolean_word_spec(w: Seq<char>) -> Option<bool> {
    if w == "true"@ || w == "1"@ || w == "yes"@ || w == "on"@ {
        Some(true)
    } else if w == "false"@ || w == "0"@ || w == "no"@ || w == "off"@ {
        Some(false)
    } else {
        None
    }
}

/// Reads an already lowercased word as a truth value.
pub fn boolean_word(w: &str) -> (r: Option<bool>)
    ensures
        r == boolean_word_spec(w@),
{
    let s = String::from_str(w);
    if s == String::from_str("true") || s == String::from_str("1") || s == String::from_str("yes")
        || s == String::from_str("on") {
        Some(true)
    } else if s == String::from_str("false") || s == String::from_str("0") || s == String::from_str(
        "no",
    ) || s == String::from_str("off") {
        Some(false)
    } else {
        None
    }
}

/// The text form of a value: text as it is, numbers in decimal, truth
/// values as `true` or `false`; lists, objects and null have none.
pub open spec fn model_as_string(m: ValueModel) -> Option<Seq<char>> {
    match m {
        ValueModel::Str(s) => Some(s),
        ValueModel::Num(n) => Some(integer_text(n)),
        ValueModel::Bool(b) => Some(
            if b {
                "true"@
            } else {
                "false"@
            },
        ),
        _ => None,
    }
}

/// The number a value stands for: numbers as they are, text when it parses.
pub open spec fn model_as_number(m: ValueModel) -> Option<int> {
    match m {
        ValueModel::Num(n) => Some(n),
        ValueModel::Str(s) => match parsed_integer(s) {
            Some(v) => Some(v as int),
            None => None,
        },
        _ => None,
    }
}

/// The truth value a value stands for: truth values as they are, numbers
/// as "not zero", text by its lowercase form.
pub open spec fn model_as_boolean(m: ValueModel) -> Option<bool> {
    match m {
        ValueModel::Bool(b) => Some(b),
        ValueModel::Str(s) => boolean_word_spec(lower_of(s)),
        ValueModel::Num(n) => Some(n != 0),
        _ => None,
    }
}

/// A value read as text.
pub fn value_as_string(v: ExternalDataValue) -> (r: Option<String>)
    ensures
        model_as_string(v@) is None ==> r is None,
        model_as_string(v@) is Some ==> r is Some && r->0@ == model_as_string(v@)->0,
{
    match v {
        ExternalDataValue::String(s) => Some(s),
        ExternalDataValue::Number(n) => Some(integer_to_text(n)),
        ExternalDataValue::Boolean(b) => {
            if b {
                Some(String::from_str("true"))
            } else {
                Some(String::from_str("false"))
            }
        },
        _ => None,
    }
}

/// A value read as a number.
pub fn value_as_number(v: ExternalDataValue) -> (r: Option<i64>)
    ensures
        model_as_number(v@) is None ==> r is None,
        model_as_number(v@) is Some ==> r is Some && r->0 as int == model_as_number(v@)->0,
{
    match v {
        ExternalDataValue::Number(n) => Some(n),
        ExternalDataValue::String(s) => parse_integer(s.as_str()),
        _ => None,
    }
}

/// A value read as a truth value.
pub fn value_as_boolean(v: ExternalDataValue) -> (r: Option<bool>)
    ensures
        r == model_as_boolean(v@),
{
    match v {
        ExternalDataValue::Boolean(b) => Some(b),
        ExternalDataValue::String(s) => {
            let folded = lowercase(s.as_str());
            boolean_word(folded.as_str())
        },
        ExternalDataValue::Number(n) => Some(n != 0),
        _ => None,
    }
}

/// Access to external data for filters. Implementors supply the lookup;
/// the typed reads coerce what it returns.
pub trait ExternalDataAccess {
    /// The implementor's own well-formedness, which lookups need.
    spec fn access_ready(&self) -> bool;

    /// What the lookup yields for a source.
    spec fn external_data_spec(&self, source_id: Seq<char>) -> Option<ValueModel>;

    /// The value of a source, if any.
    fn get_external_data(&self, source_id: &str) -> (r: Option<ExternalDataValue>)
        requires
            self.access_ready(),
        ensures
            self.external_data_spec(source_id@) is None ==> r is None,
            self.external_data_spec(source_id@) is Some ==> r is Some && r->0@
                == self.external_data_spec(source_id@)->0,
    ;

    /// Whether a source is known.
    fn has_external_data(&self, source_id: &str) -> bool
        requires
            self.access_ready(),
    ;

    /// The value of a source as text.
    fn get_external_string(&self, source_id: &str) -> (r: Option<String>)
        requires
            self.access_ready(),
        ensures
            self.external_data_spec(source_id@) is None ==> r is None,
            self.external_data_spec(source_id@) is Some ==> {
                let t = model_as_string(self.external_data_spec(source_id@)->0);
                &&& t is None ==> r is None
                &&& t is Some ==> r is Some && r->0@ == t->0
            },
    {
        match self.get_external_data(source_id) {
            Some(v) => value_as_string(v),
            None => None,
        }
    }

    /// The value of a source as a number.
    fn get_external_number(&self, source_id: &str) -> (r: Option<i64>)
        requires
            self.access_ready(),
        ensures
            self.external_data_spec(source_id@) is None ==> r is None,
            self.external_data_spec(source_id@) is Some ==> {
                let n = model_as_number(self.external_data_spec(source_id@)->0);
                &&& n is None ==> r is None
                &&& n is Some ==> r is Some && r->0 as int == n->0
            },
    {
        match self.get_external_data(source_id) {
            Some(v) => value_as_number(v),
            None => None,
        }
    }

    /// The value of a source as a truth value.
    fn get_external_boolean(&self, source_id: &str) -> (r: Option<bool>)
        requires
            self.access_ready(),
        ensures
            self.external_data_spec(source_id@) is None ==> r is None,
            self.external_data_spec(source_id@) is Some ==> r == model_as_boolean(
                self.external_data_spec(source_id@)->0,
            ),
    {
        match self.get_external_data(source_id) {
            Some(v) => value_as_boolean(v),
            None => None,
        }
    }
}

/// The cache serves the entries it holds, fresh or not.
impl ExternalDataAccess for RefreshCache {
    open spec fn access_ready(&self) -> bool {
        self.wf()
    }

    open spec fn external_data_spec(&self, source_id: Seq<char>) -> Option<ValueModel> {
        if self@.contains_key(source_id) {
            Some(self@[source_id].value@)
        } else {
            None
        }
    }

    fn get_external_data(&self, source_id: &str) -> (r: Option<ExternalDataValue>) {
        match self.read(source_id) {
            Some(e) => Some(e.value.duplicate()),
            None => None,
        }
    }

    fn has_external_data(&self, source_id: &str) -> (r: bool) {
        self.read(source_id).is_some()
    }
}

} // verus!
