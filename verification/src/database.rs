//! Database connections: what testing a connection reports for each kind of
//! database, and the schema documents that are described for each kind.
use vstd::prelude::*;
use crate::aws::service::Config;
use crate::chaos::{entries_of, text_field};
use crate::errors::AppError;
use crate::json::{ArrayBuilder, JsonNumber, JsonValue, ObjectBuilder};
use crate::text::{concat2, concat3, owned, str_eq};

verus! {

/// The database service.
pub struct DatabaseService {
    config: Config,
}

/// The kinds of database a connection can be made to.
#[derive(Debug, Clone, Copy, PartialEq, Eq, Structural)]
pub enum DatabaseKind {
    MySql,
    Postgres,
    Redis,
    OpenSearch,
}

/// The kind a connection type names, if any.
pub open spec fn kind_of(t: Seq<char>) -> Option<DatabaseKind> {
    if t == "mysql"@ {
        Some(DatabaseKind::MySql)
    } else if t == "postgres"@ {
        Some(DatabaseKind::Postgres)
    } else if t == "redis"@ {
        Some(DatabaseKind::Redis)
    } else if t == "opensearch"@ {
        Some(DatabaseKind::OpenSearch)
    } else {
        None
    }
}

/// What a connection test reports of the server.
pub struct ConnectionStats {
    pub max_connections: u32,
    pub current_connections: u32,
    pub ssl_in_use: bool,
    pub server_encoding: String,
    pub server_version: String,
}

/// The outcome of a successful connection test.
pub struct ConnectionTestResult {
    pub success: bool,
    pub message: String,
    pub latency_ms: Option<u64>,
    pub version_info: Option<String>,
    pub connection_stats: Option<ConnectionStats>,
}

/// How a connection test goes for a kind of database: whether the
/// connection is really opened, and the figures reported.
pub struct ConnectionPlan {
    pub kind: DatabaseKind,
    /// Open the connection (MySQL and PostgreSQL); for MySQL also read its
    /// status and version.
    pub probe: bool,
    pub stats: ConnectionStats,
}

/// The SSL mode is other than the kind's "off" value (`disabled` for MySQL,
/// `disable` for PostgreSQL), no mode counting as off.
pub open spec fn ssl_on(ssl_mode: Option<Seq<char>>, off: Seq<char>) -> bool {
    match ssl_mode {
        Some(m) => m != off,
        None => false,
    }
}

/// The figures a connection test reports for a kind, by field: maximum and
/// current connections, SSL in use, encoding, version.
pub open spec fn stats_of(kind: DatabaseKind, ssl_mode: Option<Seq<char>>) -> (u32, u32, bool, Seq<char>, Seq<char>) {
    match kind {
        DatabaseKind::MySql => (100, 1, ssl_on(ssl_mode, "disabled"@), "UTF8"@, "MySQL 8.0"@),
        DatabaseKind::Postgres => (100, 1, ssl_on(ssl_mode, "disable"@), "UTF8"@, "PostgreSQL"@),
        DatabaseKind::Redis => (10000, 1, false, "UTF8"@, "Redis"@),
        DatabaseKind::OpenSearch => (0, 1, true, "UTF8"@, "OpenSearch"@),
    }
}

/// The stats by field.
pub open spec fn stats_view(s: ConnectionStats) -> (u32, u32, bool, Seq<char>, Seq<char>) {
    (s.max_connections, s.current_connections, s.ssl_in_use, s.server_encoding@, s.server_version@)
}

/// The column that every MySQL table is described with.
pub open spec fn is_key_column(c: JsonValue) -> bool {
    &&& c is Object
    &&& entries_of(c).len() == 5
    &&& text_field(c, 0, "name"@, "id"@)
    &&& text_field(c, 1, "type"@, "int"@)
    &&& entries_of(c)[2].0 == "nullable"@ && entries_of(c)[2].1 == JsonValue::Bool(false)
    &&& entries_of(c)[3].0 == "default"@ && entries_of(c)[3].1 == JsonValue::Null
    &&& text_field(c, 4, "key"@, "PRI"@)
}

/// A MySQL table as described: its name, `columns` key columns, its engine.
pub open spec fn is_table_description(t: JsonValue, columns: nat) -> bool {
    &&& t is Object
    &&& entries_of(t).len() == 3
    &&& text_field(t, 0, "name"@, "sample_table"@)
    &&& entries_of(t)[1].0 == "columns"@
    &&& entries_of(t)[1].1.spec_array() matches Some(cs) && cs.len() == columns && forall|k: int|
        0 <= k < cs.len() ==> is_key_column(#[trigger] cs[k])
    &&& text_field(t, 2, "engine"@, "InnoDB"@)
}

/// An array with one table description per count, with that many columns.
pub open spec fn describes_tables(v: JsonValue, column_counts: Seq<usize>) -> bool {
    v.spec_array() matches Some(ts) && ts.len() == column_counts.len() && forall|i: int|
        0 <= i < ts.len() ==> is_table_description(#[trigger] ts[i], column_counts[i] as nat)
}

fn key_column() -> (r: JsonValue)
    ensures
        is_key_column(r),
{
    ObjectBuilder::new().field("name", JsonValue::text("id")).field("type", JsonValue::text("int")).field(
        "nullable",
        JsonValue::Bool(false),
    ).field("default", JsonValue::Null).field("key", JsonValue::text("PRI")).build()
}

fn table_description(columns: usize) -> (r: JsonValue)
    ensures
        is_table_description(r, columns as nat),
{
    let mut cols = ArrayBuilder::new();
    let mut k: usize = 0;
    while k < columns
        invariant
            k <= columns,
            cols.items().len() == k,
            forall|j: int| 0 <= j < k ==> is_key_column(#[trigger] cols.items()[j]),
        decreases columns - k,
    {
        cols = cols.item(key_column());
        k = k + 1;
    }
    ObjectBuilder::new().field("name", JsonValue::text("sample_table")).field("columns", cols.build()).field(
        "engine",
        JsonValue::text("InnoDB"),
    ).build()
}

impl DatabaseService {
    pub closed spec fn spec_config(self) -> Config {
        self.config
    }

    pub fn new(config: Config) -> (r: Self)
        ensures
            r.spec_config() == config,
    {
        Self { config }
    }

    /// The kind of database a connection type names; any other is a bad request.
    pub fn database_kind(&self, connection_type: &str) -> (r: Result<DatabaseKind, AppError>)
        ensures
            r matches Ok(k) ==> kind_of(connection_type@) == Some(k),
            r is Err <==> kind_of(connection_type@) is None,
            r matches Err(e) ==> e matches AppError::BadRequest(m) && m@
                == "Unsupported database type: "@ + connection_type@,
    {
        if str_eq(connection_type, "mysql") {
            Ok(DatabaseKind::MySql)
        } else if str_eq(connection_type, "postgres") {
            Ok(DatabaseKind::Postgres)
        } else if str_eq(connection_type, "redis") {
            Ok(DatabaseKind::Redis)
        } else if str_eq(connection_type, "opensearch") {
            Ok(DatabaseKind::OpenSearch)
        } else {
            Err(AppError::BadRequest(concat2("Unsupported database type: ", connection_type)))
        }
    }

    /// How a connection of this type is tested: MySQL and PostgreSQL
    /// connections are really opened; the figures reported are fixed per kind,
    /// with SSL in use where the connection's SSL mode is set and not off.
    pub fn connection_plan(&self, connection_type: &str, ssl_mode: Option<&str>) -> (r: Result<ConnectionPlan, AppError>)
        ensures
            r is Err <==> kind_of(connection_type@) is None,
            r matches Err(e) ==> e matches AppError::BadRequest(m) && m@
                == "Unsupported database type: "@ + connection_type@,
            r matches Ok(p) ==> kind_of(connection_type@) == Some(p.kind) && p.probe == (p.kind
                is MySql || p.kind is Postgres) && stats_view(p.stats) == stats_of(
                p.kind,
                match ssl_mode {
                    Some(m) => Some(m@),
                    None => None,
                },
            ),
    {
        let kind = self.database_kind(connection_type)?;
        let stats = match kind {
            DatabaseKind::MySql => ConnectionStats {
                max_connections: 100,
                current_connections: 1,
                ssl_in_use: match ssl_mode {
                    Some(m) => !str_eq(m, "disabled"),
                    None => false,
                },
                server_encoding: owned("UTF8"),
                server_version: owned("MySQL 8.0"),
            },
            DatabaseKind::Postgres => ConnectionStats {
                max_connections: 100,
                current_connections: 1,
                ssl_in_use: match ssl_mode {
                    Some(m) => !str_eq(m, "disable"),
                    None => false,
                },
                server_encoding: owned("UTF8"),
                server_version: owned("PostgreSQL"),
            },
            DatabaseKind::Redis => ConnectionStats {
                max_connections: 10000,
                current_connections: 1,
                ssl_in_use: false,
                server_encoding: owned("UTF8"),
                server_version: owned("Redis"),
            },
            DatabaseKind::OpenSearch => ConnectionStats {
                max_connections: 0,
                current_connections: 1,
                ssl_in_use: true,
                server_encoding: owned("UTF8"),
                server_version: owned("OpenSearch"),
            },
        };
        let probe = match kind {
            DatabaseKind::MySql => true,
            DatabaseKind::Postgres => true,
            _ => false,
        };
        Ok(ConnectionPlan { kind, probe, stats })
    }

    /// The report of a connection test that went through: a success naming
    /// the database type, the latency, the server version and the figures.
    pub fn test_connection(&self, connection_type: &str, stats: ConnectionStats, latency_ms: u64) -> (r: ConnectionTestResult)
        ensures
            r.success,
            r.message@ == "Successfully connected to "@ + connection_type@ + " database"@,
            r.latency_ms == Some(latency_ms),
            r.version_info matches Some(v) && v@ == stats.server_version@,
            r.connection_stats == Some(stats),
    {
        let version = stats.server_version.clone();
        ConnectionTestResult {
            success: true,
            message: concat3("Successfully connected to ", connection_type, " database"),
            latency_ms: Some(latency_ms),
            version_info: Some(version),
            connection_stats: Some(stats),
        }
    }

    /// The schema document of a MySQL database: its name (null where it has
    /// none), one table description per table found, each with a key column
    /// per column found, and the version.
    pub fn mysql_schema(&self, database_name: &Option<String>, column_counts: &Vec<usize>) -> (r: JsonValue)
        ensures
            r is Object,
            entries_of(r).len() == 3,
            entries_of(r)[0].0 == "database_name"@ && match database_name {
                Some(n) => entries_of(r)[0].1.spec_str() == Some(n@),
                None => entries_of(r)[0].1 == JsonValue::Null,
            },
            entries_of(r)[1].0 == "tables"@,
            describes_tables(entries_of(r)[1].1, column_counts@),
            text_field(r, 2, "version"@, "8.0"@),
    {
        let mut tables = ArrayBuilder::new();
        let mut i: usize = 0;
        while i < column_counts.len()
            invariant
                i <= column_counts@.len(),
                tables.items().len() == i,
                forall|j: int| 0 <= j < i ==> is_table_description(#[trigger] tables.items()[j], column_counts@[j] as nat),
            decreases column_counts@.len() - i,
        {
            tables = tables.item(table_description(column_counts[i]));
            i = i + 1;
        }
        let name = match database_name {
            Some(n) => JsonValue::text(n.as_str()),
            None => JsonValue::Null,
        };
        ObjectBuilder::new().field("database_name", name).field("tables", tables.build()).field(
            "version",
            JsonValue::text("8.0"),
        ).build()
    }

    /// The columns and rows that a Redis command is answered with: two
    /// sample keys, whatever the command.
    pub fn redis_query_result(&self) -> (r: (Vec<String>, Vec<JsonValue>))
        ensures
            r.0@.map_values(|c: String| c@) == seq!["key"@, "value"@, "type"@],
            r.1@.len() == 2,
            entries_of(r.1@[0]).len() == 3,
            text_field(r.1@[0], 0, "key"@, "test:1"@),
            text_field(r.1@[0], 1, "value"@, "value1"@),
            text_field(r.1@[0], 2, "type"@, "string"@),
            entries_of(r.1@[1]).len() == 3,
            text_field(r.1@[1], 0, "key"@, "test:2"@),
            text_field(r.1@[1], 1, "value"@, "[1,2,3]"@),
            text_field(r.1@[1], 2, "type"@, "list"@),
    {
        let mut columns: Vec<String> = Vec::new();
        columns.push(owned("key"));
        columns.push(owned("value"));
        columns.push(owned("type"));
        let first = ObjectBuilder::new()
            .field("key", JsonValue::text("test:1"))
            .field("value", JsonValue::text("value1"))
            .field("type", JsonValue::text("string"))
            .build();
        let second = ObjectBuilder::new()
            .field("key", JsonValue::text("test:2"))
            .field("value", JsonValue::text("[1,2,3]"))
            .field("type", JsonValue::text("list"))
            .build();
        let mut rows: Vec<JsonValue> = Vec::new();
        rows.push(first);
        rows.push(second);
        assert(columns@.map_values(|c: String| c@) =~= seq!["key"@, "value"@, "type"@]);
        (columns, rows)
    }

    /// The columns and rows that an OpenSearch query is answered with: two
    /// sample documents, whatever the query.
    pub fn opensearch_query_result(&self) -> (r: (Vec<String>, Vec<JsonValue>))
        ensures
            r.0@.map_values(|c: String| c@) == seq!["_id"@, "_source"@, "_score"@],
            r.1@.len() == 2,
            sample_document(r.1@[0], "doc1"@, "Document 1"@, "Sample content"@, "1.0"@),
            sample_document(r.1@[1], "doc2"@, "Document 2"@, "Another example"@, "0.8"@),
    {
        let mut columns: Vec<String> = Vec::new();
        columns.push(owned("_id"));
        columns.push(owned("_source"));
        columns.push(owned("_score"));
        let first = document("doc1", "Document 1", "Sample content", "1.0");
        let second = document("doc2", "Document 2", "Another example", "0.8");
        let mut rows: Vec<JsonValue> = Vec::new();
        rows.push(first);
        rows.push(second);
        assert(columns@.map_values(|c: String| c@) =~= seq!["_id"@, "_source"@, "_score"@]);
        (columns, rows)
    }

    /// The schema document described for PostgreSQL, Redis and OpenSearch
    /// connections, as JSON text; MySQL's is read from the database.
    pub fn described_schema(&self, kind: DatabaseKind) -> (r: Option<&'static str>)
        ensures
            r is None <==> kind is MySql,
            kind is Postgres ==> r == Some(POSTGRES_SCHEMA),
            kind is Redis ==> r == Some(REDIS_SCHEMA),
            kind is OpenSearch ==> r == Some(OPENSEARCH_SCHEMA),
    {
        match kind {
            DatabaseKind::MySql => None,
            DatabaseKind::Postgres => Some(POSTGRES_SCHEMA),
            DatabaseKind::Redis => Some(REDIS_SCHEMA),
            DatabaseKind::OpenSearch => Some(OPENSEARCH_SCHEMA),
        }
    }
}

/// A sample search hit: its id, its source's title and content, and its
/// score written as `score`.
pub open spec fn sample_document(v: JsonValue, id: Seq<char>, title: Seq<char>, content: Seq<char>, score: Seq<char>) -> bool {
    &&& entries_of(v).len() == 3
    &&& text_field(v, 0, "_id"@, id)
    &&& entries_of(v)[1].0 == "_source"@
    &&& entries_of(entries_of(v)[1].1).len() == 2
    &&& text_field(entries_of(v)[1].1, 0, "title"@, title)
    &&& text_field(entries_of(v)[1].1, 1, "content"@, content)
    &&& entries_of(v)[2].0 == "_score"@
    &&& entries_of(v)[2].1 matches JsonValue::Number(JsonNumber::Float(t)) && t@ == score
}

fn document(id: &str, title: &str, content: &str, score: &str) -> (r: JsonValue)
    ensures
        sample_document(r, id@, title@, content@, score@),
{
    let source = ObjectBuilder::new()
        .field("title", JsonValue::text(title))
        .field("content", JsonValue::text(content))
        .build();
    ObjectBuilder::new()
        .field("_id", JsonValue::text(id))
        .field("_source", source)
        .field("_score", JsonValue::Number(JsonNumber::Float(owned(score))))
        .build()
}

/// The schema described for a PostgreSQL database.
pub const POSTGRES_SCHEMA: &'static str = "{\"tables\":[{\"name\":\"users\",\"schema\":\"public\",\"columns\":[{\"name\":\"id\",\"type\":\"uuid\",\"nullable\":false},{\"name\":\"username\",\"type\":\"varchar\",\"nullable\":false},{\"name\":\"email\",\"type\":\"varchar\",\"nullable\":false},{\"name\":\"created_at\",\"type\":\"timestamp\",\"nullable\":false}],\"primary_key\":[\"id\"],\"foreign_keys\":[]},{\"name\":\"posts\",\"schema\":\"public\",\"columns\":[{\"name\":\"id\",\"type\":\"uuid\",\"nullable\":false},{\"name\":\"user_id\",\"type\":\"uuid\",\"nullable\":false},{\"name\":\"title\",\"type\":\"varchar\",\"nullable\":false},{\"name\":\"content\",\"type\":\"text\",\"nullable\":true},{\"name\":\"created_at\",\"type\":\"timestamp\",\"nullable\":false}],\"primary_key\":[\"id\"],\"foreign_keys\":[{\"columns\":[\"user_id\"],\"references_table\":\"users\",\"references_columns\":[\"id\"]}]}],\"views\":[],\"functions\":[]}";

/// The schema described for a Redis database: its databases and key patterns.
pub const REDIS_SCHEMA: &'static str = "{\"databases\":16,\"key_patterns\":[\"user:*\",\"session:*\",\"cache:*\"]}";

/// The schema described for an OpenSearch cluster: its index mappings.
pub const OPENSEARCH_SCHEMA: &'static str = "{\"indices\":[{\"name\":\"products\",\"mappings\":{\"properties\":{\"name\":{\"type\":\"text\"},\"description\":{\"type\":\"text\"},\"price\":{\"type\":\"float\"},\"created_at\":{\"type\":\"date\"}}}}]}";

} // verus!
