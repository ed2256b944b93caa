//! Storage backend over an embedded SQLite database.
//!
//! The database itself is an external collaborator.  Its two tables that
//! carry bag content are modelled by two uninterpreted sequences,
//! [`db_topics`] and [`db_messages`], in insertion order; every call into
//! the engine goes through a small trusted wrapper whose contract says
//! what the call does to those sequences.  Everything around the calls —
//! query construction, version-detection rules, the read facade — is
//! verified against that model.

use vstd::prelude::*;
use vstd::seq_lib::*;

use crate::Error;
use crate::TopicConnection;

verus! {

#[verifier::external_type_specification]
#[verifier::external_body]
pub struct ExConnection(rusqlite::Connection);

/// The rows of the "topics" table, in insertion order:
/// (id, name, type, serialization_format, offered_qos_profiles).
pub uninterp spec fn db_topics(c: rusqlite::Connection) -> Seq<(i64, Seq<char>, Seq<char>, Seq<char>, Seq<char>)>;

/// The rows of the "messages" table, in insertion order:
/// (topic_id, timestamp, data).
pub uninterp spec fn db_messages(c: rusqlite::Connection) -> Seq<(i64, i64, Seq<u8>)>;

/// No two rows of the topics table share an id.
pub open spec fn topic_ids_unique(topics: Seq<(i64, Seq<char>, Seq<char>, Seq<char>, Seq<char>)>) -> bool {
    forall|i: int, j: int|
        0 <= i < j < topics.len() ==> (#[trigger] topics[i]).0 != (#[trigger] topics[j]).0
}

/// A message's topic id resolves, through the topics table, to a name in
/// `names`; an empty `names` means "all topics".
pub open spec fn topic_matches(
    topics: Seq<(i64, Seq<char>, Seq<char>, Seq<char>, Seq<char>)>,
    names: Seq<Seq<char>>,
    topic_id: i64,
) -> bool {
    exists|k: int|
        0 <= k < topics.len() && (#[trigger] topics[k]).0 == topic_id && (names.len() == 0
            || names.contains(topics[k].1))
}

/// Half-open time window: the start bound is inclusive, the stop bound
/// exclusive.
pub open spec fn in_time_range(ts: i64, start: Option<i64>, stop: Option<i64>) -> bool {
    &&& (start matches Some(s) ==> ts >= s)
    &&& (stop matches Some(s) ==> ts < s)
}

/// Whether a message row is part of a query's result.
pub open spec fn msg_selected(
    topics: Seq<(i64, Seq<char>, Seq<char>, Seq<char>, Seq<char>)>,
    names: Seq<Seq<char>>,
    start: Option<i64>,
    stop: Option<i64>,
    m: (i64, i64, Seq<u8>),
) -> bool {
    topic_matches(topics, names, m.0) && in_time_range(m.1, start, stop)
}

/// Rows ordered by non-decreasing timestamp.
pub open spec fn sorted_by_timestamp(rows: Seq<(i64, i64, Seq<u8>)>) -> bool {
    forall|i: int, j: int| 0 <= i < j < rows.len() ==> (#[trigger] rows[i]).1 <= (#[trigger] rows[j]).1
}

/// Mathematical view of a vector of fetched rows.
pub open spec fn rows_view(rows: Seq<(i64, i64, Vec<u8>)>) -> Seq<(i64, i64, Seq<u8>)> {
    rows.map_values(|r: (i64, i64, Vec<u8>)| (r.0, r.1, r.2@))
}

/// Mathematical view of a vector of strings.
pub open spec fn strings_view(ss: Seq<String>) -> Seq<Seq<char>> {
    ss.map_values(|s: String| s@)
}

/// Smallest timestamp among the rows (0 when there are none).
pub open spec fn min_timestamp(msgs: Seq<(i64, i64, Seq<u8>)>) -> int
    decreases msgs.len(),
{
    if msgs.len() == 0 {
        0
    } else if msgs.len() == 1 {
        msgs[0].1 as int
    } else {
        let rest = min_timestamp(msgs.drop_last());
        if msgs.last().1 < rest {
            msgs.last().1 as int
        } else {
            rest
        }
    }
}

/// Largest timestamp among the rows (0 when there are none).
pub open spec fn max_timestamp(msgs: Seq<(i64, i64, Seq<u8>)>) -> int
    decreases msgs.len(),
{
    if msgs.len() == 0 {
        0
    } else if msgs.len() == 1 {
        msgs[0].1 as int
    } else {
        let rest = max_timestamp(msgs.drop_last());
        if msgs.last().1 > rest {
            msgs.last().1 as int
        } else {
            rest
        }
    }
}

/// Relies on rusqlite's `Connection::open_with_flags` with the read-only
/// flag: such an open succeeds only when a file is already present at the
/// path, and never creates one.  Which way it goes depends on the disk,
/// so nothing is promised of the result.
#[verifier::external_body]
pub(crate) fn database_file_present(path: &str) -> bool {
    rusqlite::Connection::open_with_flags(path, rusqlite::OpenFlags::SQLITE_OPEN_READ_ONLY).is_ok()
}

/// Relies on rusqlite's `Connection::open`, which creates the database
/// file when none exists.  Whether it succeeds depends on the disk, so
/// nothing is promised of the result.
#[verifier::external_body]
pub(crate) fn open_database_rw(path: &str) -> (r: Result<rusqlite::Connection, Error>)
    ensures
        r matches Err(e) ==> e == Error::Storage,
{
    rusqlite::Connection::open(path).map_err(|_| Error::Storage)
}

/// Relies on rusqlite's `Connection::open_with_flags`: opens an existing
/// database read-only.  Whether it succeeds depends on the disk, so
/// nothing is promised of the result.
#[verifier::external_body]
pub(crate) fn open_database_readonly(path: &str) -> (r: Result<rusqlite::Connection, Error>)
    ensures
        r matches Err(e) ==> e == Error::Storage,
{
    rusqlite::Connection::open_with_flags(
        path,
        rusqlite::OpenFlags::SQLITE_OPEN_READ_ONLY | rusqlite::OpenFlags::SQLITE_OPEN_URI,
    ).map_err(|_| Error::Storage)
}

/// Relies on rusqlite's `Connection::execute_batch` and SQLite's `CREATE
/// TABLE`, which fails when a table of that name already exists: on
/// success the four tables were just created, so the two content tables
/// are empty.
#[verifier::external_body]
pub(crate) fn init_schema(c: &mut rusqlite::Connection) -> (r: Result<(), Error>)
    ensures
        r matches Ok(()) ==> db_topics(*final(c)).len() == 0 && db_messages(*final(c)).len() == 0,
        r matches Err(e) ==> e == Error::Storage && db_topics(*final(c)) == db_topics(*old(c))
            && db_messages(*final(c)) == db_messages(*old(c)),
{
    c.execute_batch(
        "CREATE TABLE schema(schema_version INTEGER PRIMARY KEY, ros_distro TEXT NOT NULL);
         CREATE TABLE metadata(id INTEGER PRIMARY KEY, metadata_version INTEGER NOT NULL, metadata TEXT NOT NULL);
         CREATE TABLE topics(id INTEGER PRIMARY KEY, name TEXT NOT NULL, type TEXT NOT NULL, serialization_format TEXT NOT NULL, offered_qos_profiles TEXT NOT NULL);
         CREATE TABLE messages(id INTEGER PRIMARY KEY, topic_id INTEGER NOT NULL, timestamp INTEGER NOT NULL, data BLOB NOT NULL);
         CREATE INDEX timestamp_idx ON messages (timestamp ASC);
         INSERT INTO schema(schema_version, ros_distro) VALUES (4, 'rosbags');",
    ).map_err(|_| Error::Storage)
}

/// Relies on rusqlite's `Connection::execute` running a single
/// parameter-bound `INSERT` into the topics table: on success exactly one
/// row is appended, on failure the statement leaves the tables as they
/// were.
#[verifier::external_body]
pub(crate) fn insert_topic_row(
    c: &mut rusqlite::Connection,
    id: i64,
    name: &str,
    msgtype: &str,
    serialization_format: &str,
    offered_qos_profiles: &str,
) -> (r: Result<(), Error>)
    ensures
        r matches Ok(()) ==> db_topics(*final(c)) == db_topics(*old(c)).push(
            (id, name@, msgtype@, serialization_format@, offered_qos_profiles@),
        ) && db_messages(*final(c)) == db_messages(*old(c)),
        r matches Err(e) ==> e == Error::Storage && db_topics(*final(c)) == db_topics(*old(c))
            && db_messages(*final(c)) == db_messages(*old(c)),
{
    c.execute(
        "INSERT INTO topics VALUES(?1, ?2, ?3, ?4, ?5)",
        (id, name, msgtype, serialization_format, offered_qos_profiles),
    ).map(|_| ()).map_err(|_| Error::Storage)
}

/// Relies on rusqlite's `Connection::execute` running a single
/// parameter-bound `INSERT` into the messages table: on success exactly
/// one row is appended, on failure the statement leaves the tables as
/// they were.
#[verifier::external_body]
pub(crate) fn insert_message_row(
    c: &mut rusqlite::Connection,
    topic_id: i64,
    timestamp: i64,
    data: &[u8],
) -> (r: Result<(), Error>)
    ensures
        r matches Ok(()) ==> db_messages(*final(c)) == db_messages(*old(c)).push(
            (topic_id, timestamp, data@),
        ) && db_topics(*final(c)) == db_topics(*old(c)),
        r matches Err(e) ==> e == Error::Storage && db_topics(*final(c)) == db_topics(*old(c))
            && db_messages(*final(c)) == db_messages(*old(c)),
{
    c.execute(
        "INSERT INTO messages (topic_id, timestamp, data) VALUES(?1, ?2, ?3)",
        (topic_id, timestamp, data),
    ).map(|_| ()).map_err(|_| Error::Storage)
}

/// Relies on rusqlite's `Connection::query_row` over SQLite's `min`,
/// `max` and `count` aggregates: `count(*)` is the number of rows of the
/// messages table, `min`/`max` are null exactly when the table is empty
/// and otherwise the extreme timestamps; their difference errors out
/// instead of wrapping when it exceeds the 64-bit range.
#[verifier::external_body]
pub(crate) fn query_aggregates(c: &rusqlite::Connection) -> (r: Result<
    (Option<i64>, Option<i64>, i64),
    Error,
>)
    ensures
        r matches Ok((dur, start, cnt)) ==> {
            &&& cnt as int == db_messages(*c).len()
            &&& db_messages(*c).len() == 0 ==> dur is None && start is None
            &&& db_messages(*c).len() > 0 ==> {
                &&& start matches Some(s) && s as int == min_timestamp(db_messages(*c))
                &&& dur matches Some(d) && d as int == max_timestamp(db_messages(*c))
                    - min_timestamp(db_messages(*c))
            }
        },
        r matches Err(e) ==> e == Error::Storage,
{
    c.query_row(
        "SELECT max(timestamp) - min(timestamp), min(timestamp), count(*) FROM messages",
        [],
        |row| Ok((row.get(0)?, row.get(1)?, row.get(2)?)),
    ).map_err(|_| Error::Storage)
}

/// Relies on rusqlite's `Connection::execute` running `PRAGMA optimize`,
/// a maintenance hint that never changes table contents.
#[verifier::external_body]
pub(crate) fn optimize_database(c: &mut rusqlite::Connection) -> (r: Result<(), Error>)
    ensures
        db_topics(*final(c)) == db_topics(*old(c)),
        db_messages(*final(c)) == db_messages(*old(c)),
        r matches Err(e) ==> e == Error::Storage,
{
    c.execute("PRAGMA optimize", []).map(|_| ()).map_err(|_| Error::Storage)
}

/// Relies on rusqlite's `Connection::query_row` counting, in SQLite's
/// table catalog, how many of the two required tables exist.  The catalog
/// is not modelled, so nothing is promised of the result.
#[verifier::external_body]
pub(crate) fn count_required_tables(c: &rusqlite::Connection) -> (r: Result<i64, Error>)
    ensures
        r matches Err(e) ==> e == Error::Storage,
{
    c.query_row(
        "SELECT count(*) FROM sqlite_master WHERE type='table' AND name IN ('messages', 'topics')",
        [],
        |row| row.get(0),
    ).map_err(|_| Error::Storage)
}

/// Relies on rusqlite's `Statement::exists` over `PRAGMA table_info`:
/// tells whether the schema table is present.  The catalog is not
/// modelled, so nothing is promised of the result.
#[verifier::external_body]
pub(crate) fn has_schema_table(c: &rusqlite::Connection) -> (r: Result<bool, Error>)
    ensures
        r matches Err(e) ==> e == Error::Storage,
{
    let mut stmt = c.prepare("PRAGMA table_info(schema)").map_err(|_| Error::Storage)?;
    stmt.exists([]).map_err(|_| Error::Storage)
}

/// Relies on rusqlite's `Connection::query_row` reading the single
/// `schema_version` value.  The value comes from the file on disk, so
/// nothing is promised of the result.
#[verifier::external_body]
pub(crate) fn read_schema_version(c: &rusqlite::Connection) -> (r: Result<i32, Error>)
    ensures
        r matches Err(e) ==> e == Error::Storage,
{
    c.query_row("SELECT schema_version FROM schema", [], |row| row.get(0)).map_err(
        |_| Error::Storage,
    )
}

/// Relies on rusqlite's `Statement::query_map` over `PRAGMA table_info`:
/// returns the name of each column of the topics table.  The catalog is
/// not modelled, so nothing is promised of the values.
#[verifier::external_body]
pub(crate) fn topics_column_names(c: &rusqlite::Connection) -> (r: Result<Vec<String>, Error>)
    ensures
        r matches Err(e) ==> e == Error::Storage,
{
    let mut stmt = c.prepare("PRAGMA table_info(topics)").map_err(|_| Error::Storage)?;
    let rows = stmt.query_map([], |row| row.get::<_, String>(1)).map_err(|_| Error::Storage)?;
    rows.collect::<Result<Vec<String>, rusqlite::Error>>().map_err(|_| Error::Storage)
}

/// Whether a column name list carries the `offered_qos_profiles` column.
fn contains_qos_column(names: &Vec<String>) -> (r: bool)
    ensures
        r == strings_view(names@).contains("offered_qos_profiles"@),
{
    let needle = String::from_str("offered_qos_profiles");
    let n = names.len();
    let mut i: usize = 0;
    while i < n
        invariant
            n == names@.len(),
            0 <= i <= n,
            needle@ == "offered_qos_profiles"@,
            forall|j: int| 0 <= j < i ==> (#[trigger] names@[j])@ != "offered_qos_profiles"@,
        decreases n - i,
    {
        if names[i] == needle {
            proof {
                assert(strings_view(names@)[i as int] == "offered_qos_profiles"@);
            }
            return true;
        }
        i = i + 1;
    }
    proof {
        assert forall|j: int|
            0 <= j < strings_view(names@).len() implies #[trigger] strings_view(names@)[j]
            != "offered_qos_profiles"@ by {
            assert(strings_view(names@)[j] == names@[j]@);
        }
    }
    false
}

/// The text of the message query: a join of the messages and topics
/// tables, an optional `IN` filter over topic names, optional half-open
/// time bounds, all values bound through `?` placeholders, ordered by
/// ascending timestamp.
pub open spec fn spec_placeholders(n: int) -> Seq<char>
    decreases n,
{
    if n <= 1 {
        "?"@
    } else {
        spec_placeholders(n - 1) + ", ?"@
    }
}

/// The full query text for `n_topics` topic-name filters and the two
/// optional time bounds.
pub open spec fn spec_messages_query(n_topics: int, has_start: bool, has_stop: bool) -> Seq<char> {
    let base = "SELECT topics.id, messages.timestamp, messages.data FROM messages JOIN topics ON messages.topic_id=topics.id"@;
    let q1 = if n_topics > 0 {
        base + " WHERE topics.name IN ("@ + spec_placeholders(n_topics) + ")"@
    } else {
        base
    };
    let q2 = if has_start {
        q1 + (if n_topics > 0 {
            " AND"@
        } else {
            " WHERE"@
        }) + " messages.timestamp >= ?"@
    } else {
        q1
    };
    let q3 = if has_stop {
        q2 + (if n_topics > 0 || has_start {
            " AND"@
        } else {
            " WHERE"@
        }) + " messages.timestamp < ?"@
    } else {
        q2
    };
    q3 + " ORDER BY messages.timestamp"@
}

/// Builds the message query text, with one `?` placeholder per topic name
/// and per given time bound.
pub fn messages_query(n_topics: usize, has_start: bool, has_stop: bool) -> (q: String)
    ensures
        q@ == spec_messages_query(n_topics as int, has_start, has_stop),
{
    let mut q = String::from_str(
        "SELECT topics.id, messages.timestamp, messages.data FROM messages JOIN topics ON messages.topic_id=topics.id",
    );
    let ghost base = q@;
    if n_topics > 0 {
        q.append(" WHERE topics.name IN (");
        q.append("?");
        let ghost prefix = base + " WHERE topics.name IN ("@;
        assert(q@ =~= prefix + spec_placeholders(1));
        let mut i: usize = 1;
        while i < n_topics
            invariant
                1 <= i <= n_topics,
                q@ == prefix + spec_placeholders(i as int),
            decreases n_topics - i,
        {
            q.append(", ?");
            proof {
                assert(q@ =~= prefix + spec_placeholders(i + 1 as int));
            }
            i = i + 1;
        }
        q.append(")");
        assert(q@ =~= base + " WHERE topics.name IN ("@ + spec_placeholders(n_topics as int)
            + ")"@);
    }
    let ghost q1 = q@;
    if has_start {
        if n_topics > 0 {
            q.append(" AND");
        } else {
            q.append(" WHERE");
        }
        q.append(" messages.timestamp >= ?");
    }
    let ghost q2 = q@;
    if has_stop {
        if n_topics > 0 || has_start {
            q.append(" AND");
        } else {
            q.append(" WHERE");
        }
        q.append(" messages.timestamp < ?");
    }
    q.append(" ORDER BY messages.timestamp");
    proof {
        assert(q@ =~= spec_messages_query(n_topics as int, has_start, has_stop));
    }
    q
}

/// Relies on rusqlite's `Statement::query_map` running the
/// parameter-bound message query: SQLite returns, ordered by
/// non-decreasing timestamp, exactly the join rows whose topic name is
/// among the bound names (all rows when none are bound) and whose
/// timestamp lies in the half-open window.  When several topic rows share
/// an id the join can duplicate a message, so the exact-content claim is
/// made only for catalogs with unique topic ids.
#[verifier::external_body]
pub(crate) fn run_messages_query(
    c: &rusqlite::Connection,
    sql: &str,
    topic_names: &Vec<String>,
    start: Option<i64>,
    stop: Option<i64>,
) -> (r: Result<Vec<(i64, i64, Vec<u8>)>, Error>)
    requires
        sql@ == spec_messages_query(topic_names@.len() as int, start is Some, stop is Some),
    ensures
        r matches Ok(rows) ==> {
            &&& sorted_by_timestamp(rows_view(rows@))
            &&& forall|i: int|
                0 <= i < rows@.len() ==> msg_selected(
                    db_topics(*c),
                    strings_view(topic_names@),
                    start,
                    stop,
                    #[trigger] rows_view(rows@)[i],
                )
            &&& topic_ids_unique(db_topics(*c)) ==> rows_view(rows@).to_multiset()
                == db_messages(*c).filter(
                |m: (i64, i64, Seq<u8>)|
                    msg_selected(db_topics(*c), strings_view(topic_names@), start, stop, m),
            ).to_multiset()
        },
        r matches Err(e) ==> e == Error::Storage,
{
    let mut vals: Vec<rusqlite::types::Value> = topic_names.iter().map(
        |t| rusqlite::types::Value::Text(t.clone()),
    ).collect();
    vals.extend(start.map(rusqlite::types::Value::Integer));
    vals.extend(stop.map(rusqlite::types::Value::Integer));
    let mut stmt = c.prepare(sql).map_err(|_| Error::Storage)?;
    let rows = stmt.query_map(rusqlite::params_from_iter(vals), |r| {
        Ok((r.get(0)?, r.get(1)?, r.get(2)?))
    }).map_err(|_| Error::Storage)?;
    rows.collect::<Result<Vec<(i64, i64, Vec<u8>)>, rusqlite::Error>>().map_err(|_| Error::Storage)
}

/// Runs `handle_func` on every row, front to back.  A callback failure
/// is not fatal: the scan goes on with the next row.
pub fn handle_messages<E, F: Fn((i64, i64, Vec<u8>)) -> Result<(), E>>(
    rows: Vec<(i64, i64, Vec<u8>)>,
    handle_func: F,
) -> (r: Result<(), Error>)
    requires
        forall|m: (i64, i64, Vec<u8>)| #[trigger] call_requires(handle_func, (m,)),
    ensures
        r is Ok,
{
    let n = rows.len();
    let mut i: usize = 0;
    while i < n
        invariant
            n == rows@.len(),
            forall|m: (i64, i64, Vec<u8>)| #[trigger] call_requires(handle_func, (m,)),
        decreases n - i,
    {
        let row = &rows[i];
        let data = copy_bytes(&row.2);
        let _ = handle_func((row.0, row.1, data));
        i = i + 1;
    }
    Ok(())
}

/// A fresh copy of a byte vector.
fn copy_bytes(v: &Vec<u8>) -> (r: Vec<u8>)
    ensures
        r@ == v@,
{
    let mut r: Vec<u8> = Vec::new();
    let n = v.len();
    let mut i: usize = 0;
    while i < n
        invariant
            n == v@.len(),
            0 <= i <= n,
            r@ =~= v@.subrange(0, i as int),
        decreases n - i,
    {
        r.push(v[i]);
        i = i + 1;
    }
    proof {
        assert(r@ =~= v@);
    }
    r
}

/// Read-side handle over the bag's database files.
pub struct Sqlite3Reader {
    pub paths: Vec<String>,
    pub dbconns: Vec<rusqlite::Connection>,
    pub schema: i32,
}

impl Sqlite3Reader {
    /// A reader over the given database files; nothing is opened yet.
    pub fn new(paths: Vec<String>) -> (r: Self)
        ensures
            r.paths == paths,
            r.dbconns@.len() == 0,
            r.schema == 0,
    {
        Sqlite3Reader { paths, dbconns: Vec::new(), schema: 0 }
    }

    /// The schema version that a set of probe results implies: an
    /// explicit value from the schema table when that table exists,
    /// otherwise 2 when the topics table carries the QoS column and 1
    /// when it does not.
    pub fn version_from_probes(explicit: Option<i32>, has_qos: bool) -> (v: i32)
        ensures
            v == (match explicit {
                Some(e) => e,
                None => if has_qos {
                    2i32
                } else {
                    1i32
                },
            }),
    {
        match explicit {
            Some(e) => e,
            None => if has_qos {
                2
            } else {
                1
            },
        }
    }

    /// Opens every file read-only and verifies each holds the two
    /// required tables, then detects the schema version of the last one.
    pub fn open(&mut self) -> (r: Result<(), Error>)
        ensures
            final(self).paths == old(self).paths,
            r matches Ok(()) ==> final(self).dbconns@.len() == old(self).dbconns@.len()
                + old(self).paths@.len(),
            r matches Err(e) ==> e == Error::Storage || e == Error::CorruptOrUnsupported,
    {
        let n = self.paths.len();
        let mut i: usize = 0;
        while i < n
            invariant
                n == self.paths@.len(),
                0 <= i <= n,
                self.paths == old(self).paths,
                self.schema == old(self).schema,
                self.dbconns@.len() == old(self).dbconns@.len() + i,
            decreases n - i,
        {
            let conn = match open_database_readonly(self.paths[i].as_str()) {
                Ok(c) => c,
                Err(e) => {
                    return Err(e);
                },
            };
            let tables = count_required_tables(&conn)?;
            if tables != 2 {
                return Err(Error::CorruptOrUnsupported);
            }
            self.dbconns.push(conn);
            i = i + 1;
        }
        if self.dbconns.len() > 0 {
            let last = &self.dbconns[self.dbconns.len() - 1];
            let explicit = if has_schema_table(last)? {
                Some(read_schema_version(last)?)
            } else {
                None
            };
            let has_qos = if explicit.is_none() {
                let columns = topics_column_names(last)?;
                contains_qos_column(&columns)
            } else {
                false
            };
            self.schema = Self::version_from_probes(explicit, has_qos);
        }
        Ok(())
    }

    /// Drops every database handle.
    pub fn close(&mut self)
        ensures
            final(self).dbconns@.len() == 0,
            final(self).paths == old(self).paths,
            final(self).schema == old(self).schema,
    {
        self.dbconns.clear();
    }

    /// Runs the message query over the single open database file and
    /// returns the matching rows in non-decreasing timestamp order.  An
    /// empty connection list means "all topics".  Only single-file bags
    /// are implemented, hence the bound on `dbconns`.
    pub fn read_messages(
        &self,
        connections: &Vec<TopicConnection>,
        start: Option<i64>,
        stop: Option<i64>,
    ) -> (r: Result<Vec<(i64, i64, Vec<u8>)>, Error>)
        requires
            self.dbconns@.len() <= 1,
        ensures
            self.dbconns@.len() == 0 ==> (r matches Err(e) && e == Error::BackendNotOpen),
            (r matches Err(e) && e == Error::BackendNotOpen) ==> self.dbconns@.len() == 0,
            r matches Err(e) ==> e == Error::BackendNotOpen || e == Error::Storage,
            r matches Ok(rows) ==> self.dbconns@.len() == 1 && {
                let topics = db_topics(self.dbconns@[0]);
                let names = connections@.map_values(|c: TopicConnection| c.topic@);
                &&& sorted_by_timestamp(rows_view(rows@))
                &&& forall|i: int|
                    0 <= i < rows@.len() ==> msg_selected(
                        topics,
                        names,
                        start,
                        stop,
                        #[trigger] rows_view(rows@)[i],
                    )
                &&& topic_ids_unique(topics) ==> rows_view(rows@).to_multiset() == db_messages(
                    self.dbconns@[0],
                ).filter(
                    |m: (i64, i64, Seq<u8>)| msg_selected(topics, names, start, stop, m),
                ).to_multiset()
            },
    {
        if self.dbconns.len() == 0 {
            return Err(Error::BackendNotOpen);
        }
        let mut names: Vec<String> = Vec::new();
        let mut i: usize = 0;
        while i < connections.len()
            invariant
                0 <= i <= connections@.len(),
                names@.len() == i as int,
                forall|j: int| 0 <= j < i ==> names@[j]@ == connections@[j].topic@,
            decreases connections@.len() - i,
        {
            names.push(connections[i].topic.clone());
            i = i + 1;
        }
        proof {
            assert(strings_view(names@) =~= connections@.map_values(
                |c: TopicConnection| c.topic@,
            ));
        }
        let sql = messages_query(names.len(), start.is_some(), stop.is_some());
        run_messages_query(&self.dbconns[0], sql.as_str(), &names, start, stop)
    }
}

} // verus!
