//! CloudWatch scraper configuration: its defaults, when it is accepted, how
//! many regions are scraped at once, which metrics pass the name filter, and
//! how a metric name becomes a query id.
use vstd::prelude::*;
use crate::text::{chars_of, concat2, concat3, decimal, owned, str_eq, u64_decimal};

verus! {

pub const DEFAULT_PERIOD_SECONDS: i32 = 300;
pub const DEFAULT_LOOKBACK_HOURS: i64 = 1;
pub const DEFAULT_MAX_QUERIES_PER_BATCH: usize = 100;
pub const MAX_REGION_CONCURRENCY: usize = 4;

/// Where scraped metrics are stored.
pub enum ScraperTarget {
    S3 { bucket: String, prefix: String, format: StorageFormat },
    FileSystem { path: String, format: StorageFormat },
    Database { table_name: String },
}

#[derive(Debug, Clone, Copy, PartialEq, Eq, Structural)]
pub enum StorageFormat {
    Json,
    Parquet,
}

impl Default for StorageFormat {
    fn default() -> (r: Self)
        ensures
            r == StorageFormat::Parquet,
    {
        StorageFormat::Parquet
    }
}

impl Default for ScraperTarget {
    fn default() -> (r: Self)
        ensures
            r matches ScraperTarget::FileSystem { path, format } && path@ == "./metrics"@ && format
                == StorageFormat::Parquet,
    {
        ScraperTarget::FileSystem { path: owned("./metrics"), format: StorageFormat::Parquet }
    }
}

pub struct CloudWatchScraperConfig {
    pub schedule: String,
    pub regions: Vec<String>,
    pub namespaces: Vec<String>,
    pub metric_names: Option<Vec<String>>,
    pub period_seconds: i32,
    pub stat: String,
    pub lookback_hours: i64,
    pub max_queries_per_batch: usize,
    pub target: ScraperTarget,
}

pub fn default_period_seconds() -> (r: i32)
    ensures
        r == DEFAULT_PERIOD_SECONDS,
{
    DEFAULT_PERIOD_SECONDS
}

pub fn default_stat() -> (r: String)
    ensures
        r@ == "Average"@,
{
    owned("Average")
}

pub fn default_lookback_hours() -> (r: i64)
    ensures
        r == DEFAULT_LOOKBACK_HOURS,
{
    DEFAULT_LOOKBACK_HOURS
}

pub fn default_max_queries() -> (r: usize)
    ensures
        r == DEFAULT_MAX_QUERIES_PER_BATCH,
{
    DEFAULT_MAX_QUERIES_PER_BATCH
}

/// Why a scraper configuration is refused, if it is.
pub open spec fn config_error(c: CloudWatchScraperConfig) -> Option<Seq<char>> {
    if c.regions@.len() == 0 {
        Some("CloudWatch scraper requires at least one AWS region"@)
    } else if c.namespaces@.len() == 0 {
        Some("CloudWatch scraper requires at least one CloudWatch namespace"@)
    } else if c.period_seconds <= 0 {
        Some("CloudWatch scraper requires period_seconds to be greater than zero"@)
    } else if c.lookback_hours <= 0 {
        Some("CloudWatch scraper requires lookback_hours to be greater than zero"@)
    } else {
        None
    }
}

/// A scraper needs regions, namespaces, a positive period and a positive lookback.
pub fn validate_config(config: &CloudWatchScraperConfig) -> (r: Result<(), String>)
    ensures
        match config_error(*config) {
            None => r is Ok,
            Some(m) => r matches Err(e) && e@ == m,
        },
{
    if config.regions.len() == 0 {
        return Err(owned("CloudWatch scraper requires at least one AWS region"));
    }
    if config.namespaces.len() == 0 {
        return Err(owned("CloudWatch scraper requires at least one CloudWatch namespace"));
    }
    if config.period_seconds <= 0 {
        return Err(owned("CloudWatch scraper requires period_seconds to be greater than zero"));
    }
    if config.lookback_hours <= 0 {
        return Err(owned("CloudWatch scraper requires lookback_hours to be greater than zero"));
    }
    Ok(())
}

/// As many regions at once as are configured, at least one and at most four.
pub fn region_concurrency(config: &CloudWatchScraperConfig) -> (r: usize)
    ensures
        r == if config.regions@.len() == 0 {
            1
        } else if config.regions@.len() > MAX_REGION_CONCURRENCY {
            MAX_REGION_CONCURRENCY as int
        } else {
            config.regions@.len() as int
        },
{
    let configured = config.regions.len();
    let capped = if configured < MAX_REGION_CONCURRENCY {
        configured
    } else {
        MAX_REGION_CONCURRENCY
    };
    if capped < 1 {
        1
    } else {
        capped
    }
}

/// Some name of `names` is `n`.
pub open spec fn holds_name(names: Seq<String>, n: Seq<char>) -> bool {
    exists|i: int| 0 <= i < names.len() && (#[trigger] names[i])@ == n
}

/// A metric passes the name filter: there is no filter, or the metric has a
/// name and the filter holds it.
pub open spec fn passes_filter(name: Option<Seq<char>>, filter: Option<Seq<String>>) -> bool {
    match filter {
        None => true,
        Some(names) => match name {
            Some(n) => holds_name(names, n),
            None => false,
        },
    }
}

/// Whether a metric with this name is kept by the configured name filter.
pub fn metric_name_allowed(name: Option<&str>, filter: &Option<Vec<String>>) -> (r: bool)
    ensures
        r == passes_filter(
            match name {
                Some(n) => Some(n@),
                None => None,
            },
            match *filter {
                Some(f) => Some(f@),
                None => None,
            },
        ),
{
    match filter {
        None => true,
        Some(names) => match name {
            Some(n) => {
                for i in 0..names.len()
                    invariant
                        forall|j: int| 0 <= j < i ==> (#[trigger] names@[j])@ != n@,
                        match *filter {
                            Some(f) => f@ == names@,
                            None => false,
                        },
                        match name {
                            Some(m) => m@ == n@,
                            None => false,
                        },
                {
                    if str_eq(names[i].as_str(), n) {
                        assert(names@[i as int]@ == n@);
                        assert(holds_name(names@, n@));
                        return true;
                    }
                }
                false
            },
            None => false,
        },
    }
}

/// ASCII letters and digits are kept; every other character becomes `_`.
pub open spec fn id_char(c: char) -> char {
    if ('a' <= c && c <= 'z') || ('A' <= c && c <= 'Z') || ('0' <= c && c <= '9') {
        c
    } else {
        '_'
    }
}

/// A CloudWatch query id for a metric name.
pub fn sanitize_id(metric_name: &str) -> (r: String)
    ensures
        r@ == metric_name@.map_values(|c: char| id_char(c)),
{
    let x = chars_of(metric_name);
    let mut r = String::new();
    for i in 0..x.len()
        invariant
            x@ == metric_name@,
            r@ == metric_name@.map_values(|c: char| id_char(c)).take(i as int),
    {
        let c = x[i];
        let d = if ('a' <= c && c <= 'z') || ('A' <= c && c <= 'Z') || ('0' <= c && c <= '9') {
            c
        } else {
            '_'
        };
        r.push(d);
        assert(r@ =~= metric_name@.map_values(|c: char| id_char(c)).take(i + 1));
    }
    assert(r@ =~= metric_name@.map_values(|c: char| id_char(c)));
    r
}

// ---------------------------------------------------------------------------
// Metric data queries
// ---------------------------------------------------------------------------

/// The query id of the metric at `index`: `m`, the index, `_`, and the
/// metric name with every character other than a letter or digit made `_`.
pub open spec fn query_id(index: nat, metric_name: Seq<char>) -> Seq<char> {
    "m"@ + decimal(index) + "_"@ + metric_name.map_values(|c: char| id_char(c))
}

/// The queries of the metrics, in order: each named metric with its id and
/// its position; metrics without a name get no query.
pub open spec fn metric_queries_of(names: Seq<Option<String>>, upto: nat) -> Seq<(Seq<char>, usize)>
    decreases upto,
{
    if upto == 0 {
        Seq::empty()
    } else {
        metric_queries_of(names, (upto - 1) as nat) + match names[upto - 1] {
            Some(n) => seq![(query_id((upto - 1) as nat, n@), (upto - 1) as usize)],
            None => Seq::empty(),
        }
    }
}

/// The query id of the metric at `index`.
pub fn metric_query_id(index: usize, metric_name: &str) -> (r: String)
    ensures
        r@ == query_id(index as nat, metric_name@),
{
    let n = u64_decimal(index as u64);
    let id = sanitize_id(metric_name);
    concat3(concat2("m", n.as_str()).as_str(), "_", id.as_str())
}

/// The queries to ask for the metrics: an id and the metric's position for
/// every metric that has a name.
pub fn metric_queries(names: &Vec<Option<String>>) -> (r: Vec<(String, usize)>)
    ensures
        r@.map_values(|q: (String, usize)| (q.0@, q.1)) == metric_queries_of(names@, names@.len()),
{
    let mut r: Vec<(String, usize)> = Vec::new();
    let mut i: usize = 0;
    while i < names.len()
        invariant
            i <= names@.len(),
            r@.map_values(|q: (String, usize)| (q.0@, q.1)) == metric_queries_of(names@, i as nat),
        decreases names@.len() - i,
    {
        let ghost before = r@;
        match &names[i] {
            Some(n) => {
                let id = metric_query_id(i, n.as_str());
                r.push((id, i));
                assert(r@.map_values(|q: (String, usize)| (q.0@, q.1)) =~= before.map_values(
                    |q: (String, usize)| (q.0@, q.1),
                ) + seq![(query_id(i as nat, n@), i)]);
            },
            None => {
                assert(r@.map_values(|q: (String, usize)| (q.0@, q.1)) =~= metric_queries_of(names@, (i + 1) as nat));
            },
        }
        i = i + 1;
    }
    r
}

/// The batches that `count` queries are sent in, as position ranges: runs of
/// `size` from the start, the last one shorter where the count runs out.
pub open spec fn batches_of(count: nat, size: nat, from: nat) -> Seq<(usize, usize)>
    decreases count - from,
{
    if from >= count || size == 0 {
        Seq::empty()
    } else {
        let end = if from + size <= count {
            from + size
        } else {
            count
        };
        seq![(from as usize, end as usize)] + batches_of(count, size, end)
    }
}

/// The batches of `count` queries with at most `max_queries` each (at least
/// one per batch, whatever the setting).
pub fn query_batches(count: usize, max_queries: usize) -> (r: Vec<(usize, usize)>)
    ensures
        r@ == batches_of(count as nat, if max_queries >= 1 { max_queries as nat } else { 1 }, 0),
{
    let size: usize = if max_queries >= 1 { max_queries } else { 1 };
    let mut r: Vec<(usize, usize)> = Vec::new();
    let mut from: usize = 0;
    while from < count
        invariant
            size >= 1,
            size == if max_queries >= 1 { max_queries as nat } else { 1 },
            from <= count,
            r@ + batches_of(count as nat, size as nat, from as nat) == batches_of(count as nat, size as nat, 0),
        decreases count - from,
    {
        let end = if size <= count - from { from + size } else { count };
        let ghost before = r@;
        r.push((from, end));
        assert(batches_of(count as nat, size as nat, from as nat) == seq![(from, end)] + batches_of(
            count as nat,
            size as nat,
            end as nat,
        ));
        assert(r@ + batches_of(count as nat, size as nat, end as nat) =~= before + batches_of(
            count as nat,
            size as nat,
            from as nat,
        ));
        from = end;
    }
    assert(r@ + batches_of(count as nat, size as nat, from as nat) =~= r@);
    r
}

/// The batches cover every query position exactly once: each batch is a
/// non-empty range of at most `size` positions that starts where the previous
/// one ended, the first at 0 and the last ending at `count`.
pub proof fn lemma_batches_tile(count: nat, size: nat, from: nat)
    requires
        size >= 1,
        from <= count,
        count <= usize::MAX,
    ensures
        ({
            let b = batches_of(count, size, from);
            &&& forall|i: int| 0 <= i < b.len() ==> #[trigger] b[i].0 < b[i].1 && b[i].1 - b[i].0 <= size
            &&& forall|i: int| 0 <= i < b.len() - 1 ==> #[trigger] b[i].1 == b[i + 1].0
            &&& b.len() > 0 ==> b[0].0 == from && b[b.len() - 1].1 == count
            &&& b.len() == 0 <==> from == count
        }),
    decreases count - from,
{
    if from < count {
        let end = if from + size <= count { from + size } else { count };
        lemma_batches_tile(count, size, end);
        let rest = batches_of(count, size, end);
        let b = batches_of(count, size, from);
        assert(b == seq![(from as usize, end as usize)] + rest);
        assert forall|i: int| 0 <= i < b.len() - 1 implies #[trigger] b[i].1 == b[i + 1].0 by {
            if i > 0 {
                assert(b[i] == rest[i - 1]);
                assert(b[i + 1] == rest[i]);
            }
        }
        assert forall|i: int| 0 <= i < b.len() implies #[trigger] b[i].0 < b[i].1 && b[i].1 - b[i].0 <= size by {
            if i > 0 {
                assert(b[i] == rest[i - 1]);
            }
        }
    }
}

// ---------------------------------------------------------------------------
// Where stored metrics go
// ---------------------------------------------------------------------------

/// The object key or file name under which a batch of metrics is stored, and
/// its content type.
pub fn metrics_object_name(dir: &str, stamp: &str, format: StorageFormat) -> (r: (String, &'static str))
    ensures
        r.0@ == dir@ + "/metrics_"@ + stamp@ + match format {
            StorageFormat::Json => ".json"@,
            StorageFormat::Parquet => ".parquet"@,
        },
        r.1@ == match format {
            StorageFormat::Json => "application/json"@,
            StorageFormat::Parquet => "application/octet-stream"@,
        },
{
    match format {
        StorageFormat::Json => (concat3(concat2(dir, "/metrics_").as_str(), stamp, ".json"), "application/json"),
        StorageFormat::Parquet => (concat3(concat2(dir, "/metrics_").as_str(), stamp, ".parquet"), "application/octet-stream"),
    }
}

// ---------------------------------------------------------------------------
// Query ids never collide
// ---------------------------------------------------------------------------

/// Decimal notation uses digits only, and at least one.
proof fn lemma_decimal_digits(n: nat)
    ensures
        decimal(n).len() >= 1,
        n >= 10 ==> decimal(n).len() >= 2,
        forall|k: int| 0 <= k < decimal(n).len() ==> #[trigger] decimal(n)[k] != '_',
    decreases n,
{
    if n >= 10 {
        lemma_decimal_digits(n / 10);
        let d = decimal(n);
        assert forall|k: int| 0 <= k < d.len() implies #[trigger] d[k] != '_' by {
            if k < d.len() - 1 {
                assert(d[k] == decimal(n / 10)[k]);
            } else {
                let c = crate::text::digit_char((n % 10) as int);
                assert(d[k] == c);
                assert((((n % 10) + 48) as u32) < 95);
            }
        }
    } else {
        assert(((n + 48) as u32) < 95);
    }
}

/// Different numbers are written differently.
proof fn lemma_decimal_injective(a: nat, b: nat)
    requires
        decimal(a) == decimal(b),
    ensures
        a == b,
    decreases a,
{
    lemma_decimal_digits(a);
    lemma_decimal_digits(b);
    if a < 10 && b < 10 {
        assert(decimal(a)[0] == decimal(b)[0]);
        assert(decimal(a)[0] == crate::text::digit_char(a as int));
        assert(decimal(b)[0] == crate::text::digit_char(b as int));
        assert((crate::text::digit_char(a as int) as u32) == a + 48);
        assert((crate::text::digit_char(b as int) as u32) == b + 48);
    } else if a >= 10 && b >= 10 {
        let da = decimal(a);
        let db = decimal(b);
        assert(da.last() == db.last());
        assert(da.drop_last() =~= decimal(a / 10));
        assert(db.drop_last() =~= decimal(b / 10));
        lemma_decimal_injective(a / 10, b / 10);
        assert(da.last() == crate::text::digit_char((a % 10) as int));
        assert(db.last() == crate::text::digit_char((b % 10) as int));
        assert((crate::text::digit_char((a % 10) as int) as u32) == (a % 10) + 48);
        assert((crate::text::digit_char((b % 10) as int) as u32) == (b % 10) + 48);
    }
}

/// The queries of two different metrics have different ids, whatever their
/// names: results are matched back to metrics by id.
pub proof fn lemma_query_ids_distinct(i: nat, j: nat, name_i: Seq<char>, name_j: Seq<char>)
    requires
        i != j,
    ensures
        query_id(i, name_i) != query_id(j, name_j),
{
    reveal_strlit("m");
    reveal_strlit("_");
    let di = decimal(i);
    let dj = decimal(j);
    let a = query_id(i, name_i);
    let b = query_id(j, name_j);
    lemma_decimal_digits(i);
    lemma_decimal_digits(j);
    if a == b {
        assert(a[0] == 'm');
        if di.len() == dj.len() {
            assert forall|k: int| 0 <= k < di.len() implies di[k] == dj[k] by {
                assert(a[1 + k] == di[k]);
                assert(b[1 + k] == dj[k]);
            }
            assert(di =~= dj);
            lemma_decimal_injective(i, j);
        } else if di.len() < dj.len() {
            let k: int = 1 + di.len() as int;
            assert(a[k] == '_');
            assert(b[k] == dj[di.len() as int]);
        } else {
            let k: int = 1 + dj.len() as int;
            assert(b[k] == '_');
            assert(a[k] == di[dj.len() as int]);
        }
    }
}

/// The position of the first query, from `from` on, whose id is `id`.
pub open spec fn first_with_id(qs: Seq<(Seq<char>, usize)>, id: Seq<char>, from: int) -> Option<int>
    decreases qs.len() - from,
{
    if from < 0 || from >= qs.len() {
        None
    } else if qs[from].0 == id {
        Some(from)
    } else {
        first_with_id(qs, id, from + 1)
    }
}

/// The metric position that the query with id `id` was asked for, found by
/// the first query that carries the id; `None` for an id that no query has.
pub fn metric_for_id(queries: &Vec<(String, usize)>, id: &str) -> (r: Option<usize>)
    ensures
        ({
            let qs = queries@.map_values(|q: (String, usize)| (q.0@, q.1));
            r == match first_with_id(qs, id@, 0) {
                Some(k) => Some(qs[k].1),
                None => None::<usize>,
            }
        }),
{
    let ghost qs = queries@.map_values(|q: (String, usize)| (q.0@, q.1));
    let mut i: usize = 0;
    while i < queries.len()
        invariant
            i <= queries@.len(),
            qs == queries@.map_values(|q: (String, usize)| (q.0@, q.1)),
            first_with_id(qs, id@, 0) == first_with_id(qs, id@, i as int),
        decreases queries@.len() - i,
    {
        assert(qs[i as int] == (queries@[i as int].0@, queries@[i as int].1));
        if crate::text::str_eq(queries[i].0.as_str(), id) {
            return Some(queries[i].1);
        }
        i = i + 1;
    }
    None
}

/// Each query of `metric_queries_of(names, upto)` is asked for a named metric
/// before `upto`, under that metric's id, and the positions rise.
proof fn lemma_queries_shape(names: Seq<Option<String>>, upto: nat)
    requires
        upto <= names.len(),
        names.len() <= usize::MAX,
    ensures
        ({
            let qs = metric_queries_of(names, upto);
            &&& forall|k: int| 0 <= k < qs.len() ==> {
                let p = (#[trigger] qs[k]).1 as int;
                &&& 0 <= p < upto
                &&& names[p] is Some
                &&& qs[k].0 == query_id(p as nat, names[p].unwrap()@)
            }
            &&& forall|a: int, b: int| 0 <= a < b < qs.len() ==> (#[trigger] qs[a]).1 < (#[trigger] qs[b]).1
        }),
    decreases upto,
{
    if upto > 0 {
        let u = (upto - 1) as nat;
        lemma_queries_shape(names, u);
        let prev = metric_queries_of(names, u);
        let qs = metric_queries_of(names, upto);
        let tail = match names[u as int] {
            Some(n) => seq![(query_id(u, n@), u as usize)],
            None => Seq::<(Seq<char>, usize)>::empty(),
        };
        assert(qs == prev + tail);
        assert forall|k: int| 0 <= k < qs.len() implies {
            let p = (#[trigger] qs[k]).1 as int;
            &&& 0 <= p < upto
            &&& names[p] is Some
            &&& qs[k].0 == query_id(p as nat, names[p].unwrap()@)
        } by {
            if k < prev.len() {
                assert(qs[k] == prev[k]);
            } else {
                assert(qs[k] == tail[k - prev.len()]);
            }
        }
        assert forall|a: int, b: int| 0 <= a < b < qs.len() implies (#[trigger] qs[a]).1 < (#[trigger] qs[b]).1 by {
            if b < prev.len() {
                assert(qs[a] == prev[a]);
                assert(qs[b] == prev[b]);
            } else {
                assert(qs[a] == prev[a]);
                assert(qs[b] == tail[b - prev.len()]);
                assert(prev[a].1 < u);
            }
        }
    }
}

/// A query's own id finds it again: the ids that `metric_queries` gives are
/// distinct, so the answer to query `k` is matched to query `k` and to the
/// metric it was asked for.
pub proof fn lemma_result_id_finds_its_query(names: Seq<Option<String>>, k: int)
    requires
        names.len() <= usize::MAX,
        0 <= k < metric_queries_of(names, names.len()).len(),
    ensures
        ({
            let qs = metric_queries_of(names, names.len());
            first_with_id(qs, qs[k].0, 0) == Some(k)
        }),
{
    let qs = metric_queries_of(names, names.len());
    lemma_queries_shape(names, names.len());
    assert forall|j: int| 0 <= j < qs.len() && j != k implies qs[j].0 != qs[k].0 by {
        let pj = qs[j].1 as int;
        let pk = qs[k].1 as int;
        if j < k {
            assert(qs[j].1 < qs[k].1);
        } else {
            assert(qs[k].1 < qs[j].1);
        }
        lemma_query_ids_distinct(pj as nat, pk as nat, names[pj].unwrap()@, names[pk].unwrap()@);
    }
    lemma_first_with_id_finds(qs, k, 0);
}

proof fn lemma_first_with_id_finds(qs: Seq<(Seq<char>, usize)>, k: int, from: int)
    requires
        0 <= from <= k < qs.len(),
        forall|j: int| 0 <= j < qs.len() && j != k ==> qs[j].0 != qs[k].0,
    ensures
        first_with_id(qs, qs[k].0, from) == Some(k),
    decreases k - from,
{
    if from < k {
        lemma_first_with_id_finds(qs, k, from + 1);
    }
}

/// The dimensions of a metric as a map from name to value: dimensions that
/// lack a name or a value are passed over, and a later one with a name
/// already seen replaces the earlier value.
pub open spec fn dimension_map(ds: Seq<(Option<String>, Option<String>)>) -> Map<Seq<char>, Seq<char>>
    decreases ds.len(),
{
    if ds.len() == 0 {
        Map::empty()
    } else {
        let m = dimension_map(ds.drop_last());
        match ds.last() {
            (Some(n), Some(v)) => m.insert(n@, v@),
            _ => m,
        }
    }
}

/// The pairs hold `m` exactly, each name once.
pub open spec fn pairs_hold(ps: Seq<(String, String)>, m: Map<Seq<char>, Seq<char>>) -> bool {
    &&& forall|a: int, b: int| 0 <= a < b < ps.len() ==> (#[trigger] ps[a]).0@ != (#[trigger] ps[b]).0@
    &&& forall|a: int| 0 <= a < ps.len() ==> m.contains_key((#[trigger] ps[a]).0@) && m[ps[a].0@] == ps[a].1@
    &&& forall|k: Seq<char>| #[trigger] m.contains_key(k) ==> exists|a: int| 0 <= a < ps.len() && ps[a].0@ == k
}

fn name_position(r: &Vec<(String, String)>, n: &str) -> (p: Option<usize>)
    ensures
        match p {
            Some(j) => j < r@.len() && r@[j as int].0@ == n@,
            None => forall|a: int| 0 <= a < r@.len() ==> (#[trigger] r@[a]).0@ != n@,
        },
{
    let mut j: usize = 0;
    while j < r.len()
        invariant
            j <= r@.len(),
            forall|a: int| 0 <= a < j ==> (#[trigger] r@[a]).0@ != n@,
        decreases r@.len() - j,
    {
        if crate::text::str_eq(r[j].0.as_str(), n) {
            return Some(j);
        }
        j = j + 1;
    }
    None
}

/// The dimensions of a metric as (name, value) pairs, each name once with
/// the last value given for it.
pub fn dimensions_to_map(dimensions: &Vec<(Option<String>, Option<String>)>) -> (r: Vec<(String, String)>)
    ensures
        pairs_hold(r@, dimension_map(dimensions@)),
{
    let mut r: Vec<(String, String)> = Vec::new();
    let mut i: usize = 0;
    assert(dimensions@.take(0) =~= Seq::<(Option<String>, Option<String>)>::empty());
    while i < dimensions.len()
        invariant
            i <= dimensions@.len(),
            pairs_hold(r@, dimension_map(dimensions@.take(i as int))),
        decreases dimensions@.len() - i,
    {
        let ghost m = dimension_map(dimensions@.take(i as int));
        assert(dimensions@.take(i as int + 1).drop_last() =~= dimensions@.take(i as int));
        assert(dimensions@.take(i as int + 1).last() == dimensions@[i as int]);
        match (&dimensions[i].0, &dimensions[i].1) {
            (Some(n), Some(v)) => {
                let ghost m2 = m.insert(n@, v@);
                let ghost before = r@;
                match name_position(&r, n.as_str()) {
                    Some(j) => {
                        r.set(j, (n.clone(), v.clone()));
                        assert(pairs_hold(r@, m2)) by {
                            assert forall|k: Seq<char>| #[trigger] m2.contains_key(k) implies exists|a: int|
                                0 <= a < r@.len() && r@[a].0@ == k by {
                                if k != n@ {
                                    let a = choose|a: int| 0 <= a < before.len() && before[a].0@ == k;
                                    assert(r@[a] == before[a]);
                                } else {
                                    assert(r@[j as int].0@ == k);
                                }
                            }
                            assert forall|a: int| 0 <= a < r@.len() implies m2.contains_key((#[trigger] r@[a]).0@)
                                && m2[r@[a].0@] == r@[a].1@ by {
                                if a != j {
                                    assert(r@[a] == before[a]);
                                    assert(before[a].0@ != before[j as int].0@);
                                }
                            }
                            assert forall|a: int, b: int| 0 <= a < b < r@.len() implies (#[trigger] r@[a]).0@
                                != (#[trigger] r@[b]).0@ by {
                                assert(before[a].0@ != before[b].0@);
                                if a != j {
                                    assert(r@[a] == before[a]);
                                }
                                if b != j {
                                    assert(r@[b] == before[b]);
                                }
                            }
                        }
                    },
                    None => {
                        r.push((n.clone(), v.clone()));
                        assert(pairs_hold(r@, m2)) by {
                            assert forall|k: Seq<char>| #[trigger] m2.contains_key(k) implies exists|a: int|
                                0 <= a < r@.len() && r@[a].0@ == k by {
                                if k != n@ {
                                    let a = choose|a: int| 0 <= a < before.len() && before[a].0@ == k;
                                    assert(r@[a] == before[a]);
                                } else {
                                    assert(r@[before.len() as int].0@ == k);
                                }
                            }
                            assert forall|a: int| 0 <= a < r@.len() implies m2.contains_key((#[trigger] r@[a]).0@)
                                && m2[r@[a].0@] == r@[a].1@ by {
                                if a < before.len() {
                                    assert(r@[a] == before[a]);
                                } else {
                                    assert(r@[a].0@ == n@);
                                }
                            }
                            assert forall|a: int, b: int| 0 <= a < b < r@.len() implies (#[trigger] r@[a]).0@
                                != (#[trigger] r@[b]).0@ by {
                                assert(r@[a] == before[a]);
                                if b < before.len() {
                                    assert(r@[b] == before[b]);
                                }
                            }
                        }
                    },
                }
            },
            _ => {},
        }
        i = i + 1;
    }
    assert(dimensions@.take(dimensions@.len() as int) =~= dimensions@);
    r
}

/// The name filter is set membership: with no filter every metric is kept;
/// with a filter, a metric without a name is dropped, and a metric named
/// `n` is kept exactly when some configured name, at any position, is `n`.
/// So each configured name lets its metrics through, and adding a name to
/// the filter keeps what was kept and lets that name through as well.
pub proof fn lemma_filter_is_membership(n: Seq<char>, names: Seq<String>, extra: String)
    ensures
        passes_filter(Some(n), None),
        passes_filter(None, None),
        !passes_filter(None, Some(names)),
        passes_filter(Some(n), Some(names)) <==> exists|i: int| 0 <= i < names.len() && names[i]@ == n,
        forall|i: int| 0 <= i < names.len() ==> passes_filter(Some((#[trigger] names[i])@), Some(names)),
        passes_filter(Some(n), Some(names.push(extra))) <==> (passes_filter(Some(n), Some(names)) || extra@
            == n),
{
    assert forall|i: int| 0 <= i < names.len() implies passes_filter(Some((#[trigger] names[i])@), Some(names)) by {
        assert(names[i]@ == names[i]@);
    }
    let more = names.push(extra);
    if passes_filter(Some(n), Some(more)) {
        let i = choose|i: int| 0 <= i < more.len() && (#[trigger] more[i])@ == n;
        if i < names.len() {
            assert(more[i] == names[i]);
        }
    }
    if passes_filter(Some(n), Some(names)) {
        let i = choose|i: int| 0 <= i < names.len() && (#[trigger] names[i])@ == n;
        assert(more[i] == names[i]);
    }
    if extra@ == n {
        assert(more[names.len() as int] == extra);
    }
}

} // verus!
