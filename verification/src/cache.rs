//! Cache keys and the cache settings: which key each cached query is stored under, which
//! keys a write invalidates, and the time-to-live of entries.
use vstd::prelude::*;
use crate::config::RedisConfig;
use crate::text::to_owned_string;

verus! {

/// `{prefix}::GetById::{id}` — one entity by key.
pub open spec fn by_id_key_spec(prefix: Seq<char>, id: Seq<char>) -> Seq<char> {
    prefix + "::GetById::"@ + id
}

/// `{prefix}::GetAll` — the full list.
pub open spec fn all_key_spec(prefix: Seq<char>) -> Seq<char> {
    prefix + "::GetAll"@
}

/// `{prefix}::Count` — the row count.
pub open spec fn count_key_spec(prefix: Seq<char>) -> Seq<char> {
    prefix + "::Count"@
}

/// `{prefix}::*` — the pattern of every key of a table.
pub open spec fn table_pattern_spec(prefix: Seq<char>) -> Seq<char> {
    prefix + "::*"@
}

fn join3(a: &str, b: &str, c: &str) -> (s: String)
    ensures
        s@ == a@ + b@ + c@,
{
    let mut s = to_owned_string(a);
    s.append(b);
    s.append(c);
    s
}

fn join2(a: &str, b: &str) -> (s: String)
    ensures
        s@ == a@ + b@,
{
    let mut s = to_owned_string(a);
    s.append(b);
    s
}

/// The key an entity is cached under by the by-id read, which is also the key a write of
/// that entity invalidates.
pub fn by_id_key(prefix: &str, id: &str) -> (s: String)
    ensures
        s@ == by_id_key_spec(prefix@, id@),
{
    join3(prefix, "::GetById::", id)
}

/// The key the full list is cached under.
pub fn all_key(prefix: &str) -> (s: String)
    ensures
        s@ == all_key_spec(prefix@),
{
    join2(prefix, "::GetAll")
}

/// The key the row count is cached under.
pub fn count_key(prefix: &str) -> (s: String)
    ensures
        s@ == count_key_spec(prefix@),
{
    join2(prefix, "::Count")
}

/// The pattern that matches every key of a table.
pub fn table_pattern(prefix: &str) -> (s: String)
    ensures
        s@ == table_pattern_spec(prefix@),
{
    join2(prefix, "::*")
}

/// The keys the in-process cache drops when a table changes (it cannot scan by prefix):
/// the list, the count and the bare by-id prefix.
pub fn local_table_keys(prefix: &str) -> (ks: Vec<String>)
    ensures
        ks@.len() == 3,
        ks@[0]@ == all_key_spec(prefix@),
        ks@[1]@ == count_key_spec(prefix@),
        ks@[2]@ == prefix@ + "::GetById"@,
{
    let mut ks: Vec<String> = Vec::new();
    ks.push(all_key(prefix));
    ks.push(count_key(prefix));
    ks.push(join2(prefix, "::GetById"));
    ks
}

/// The keys of different queries of one table never coincide: the list and count keys
/// differ from each other and from every by-id key.
pub proof fn law_keys_distinct(prefix: Seq<char>, id: Seq<char>)
    ensures
        all_key_spec(prefix) != count_key_spec(prefix),
        all_key_spec(prefix) != by_id_key_spec(prefix, id),
        count_key_spec(prefix) != by_id_key_spec(prefix, id),
{
    reveal_strlit("::GetAll");
    reveal_strlit("::Count");
    reveal_strlit("::GetById::");
    let n: int = prefix.len() as int;
    assert(all_key_spec(prefix)[n + 2] == 'G');
    assert(count_key_spec(prefix)[n + 2] == 'C');
    assert(by_id_key_spec(prefix, id)[n + 2] == 'G');
    assert(all_key_spec(prefix)[n + 5] == 'A');
    assert(by_id_key_spec(prefix, id)[n + 5] == 'B');
}

/// Two entities of one table are cached under different keys when their key texts differ.
pub proof fn law_by_id_key_injective(prefix: Seq<char>, a: Seq<char>, b: Seq<char>)
    ensures
        by_id_key_spec(prefix, a) == by_id_key_spec(prefix, b) ==> a == b,
{
    let p = prefix + "::GetById::"@;
    if by_id_key_spec(prefix, a) == by_id_key_spec(prefix, b) {
        assert(a =~= by_id_key_spec(prefix, a).skip(p.len() as int));
        assert(b =~= by_id_key_spec(prefix, b).skip(p.len() as int));
    }
}

/// The cache that stores nothing: every read misses and every write succeeds.
#[derive(Debug, Clone, Copy)]
pub struct NoCache;

impl NoCache {
    /// Time-to-live of entity and list entries, in seconds.
    pub fn default_ttl_secs(&self) -> (s: u64)
        ensures
            s == 300,
    {
        300
    }

    /// Time-to-live of count entries, in seconds.
    pub fn count_ttl_secs(&self) -> (s: u64)
        ensures
            s == 60,
    {
        60
    }
}

/// Settings of the cache-server cache.
#[derive(Debug, Clone, Copy)]
pub struct RedisCache {
    pub default_ttl_secs: u64,
    pub count_ttl_secs: u64,
}

impl RedisCache {
    /// The cache settings a configuration gives.
    pub fn new(cfg: &RedisConfig) -> (c: RedisCache)
        ensures
            c.default_ttl_secs == cfg.default_ttl_secs,
            c.count_ttl_secs == cfg.count_ttl_secs,
    {
        RedisCache { default_ttl_secs: cfg.default_ttl_secs, count_ttl_secs: cfg.count_ttl_secs }
    }

    /// Time-to-live of entity and list entries, in seconds.
    pub fn default_ttl_secs(&self) -> (s: u64)
        ensures
            s == self.default_ttl_secs,
    {
        self.default_ttl_secs
    }

    /// Time-to-live of count entries, in seconds.
    pub fn count_ttl_secs(&self) -> (s: u64)
        ensures
            s == self.count_ttl_secs,
    {
        self.count_ttl_secs
    }
}

/// Progress of an incremental `SCAN` over the keys of a table.
#[derive(Debug, Clone, Copy, PartialEq, Eq, Structural)]
pub struct ScanProgress {
    /// The cursor to send with the next `SCAN`.
    pub cursor: u64,
    /// Keys deleted so far.
    pub deleted: u64,
    /// Whether the scan has come back to cursor 0.
    pub done: bool,
}

impl ScanProgress {
    /// A scan starts at cursor 0.
    pub fn start() -> (p: ScanProgress)
        ensures
            p == (ScanProgress { cursor: 0, deleted: 0, done: false }),
    {
        ScanProgress { cursor: 0, deleted: 0, done: false }
    }

    /// One `SCAN` reply: `found` keys were deleted (a delete pipeline is sent only when
    /// `found > 0`), and the scan is complete when the server returns cursor 0.
    pub fn step(&mut self, next_cursor: u64, found: u64)
        requires
            !old(self).done,
            old(self).deleted + found <= u64::MAX,
        ensures
            final(self).cursor == next_cursor,
            final(self).deleted == old(self).deleted + found,
            final(self).done == (next_cursor == 0),
    {
        self.cursor = next_cursor;
        self.deleted = self.deleted + found;
        self.done = next_cursor == 0;
    }

    /// A delete pipeline is sent only for a non-empty batch of keys.
    pub fn needs_delete(found: u64) -> (b: bool)
        ensures
            b == (found > 0),
    {
        found > 0
    }
}

} // verus!
