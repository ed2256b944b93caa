//! Write path: schema creation, topic registration, message append and
//! the closing metadata.
//!
//! A writer moves through a strictly linear life cycle: created, opened,
//! closed.  While open it owns the bag's database file exclusively; its
//! in-memory connection list mirrors the topics table row for row and the
//! per-connection counters always total the number of rows of the
//! messages table.

use vstd::prelude::*;

use crate::basename;
use crate::basename_of;
use crate::join_path;
use crate::metadata::BagFileInfo;
use crate::metadata::BagDuration;
use crate::metadata::FileInformation;
use crate::metadata::Metadata;
use crate::metadata::StartingTime;
use crate::metadata::TopicMetadata;
use crate::metadata::TopicWithMessageCount;
use crate::sqlite3_storage::database_file_present;
use crate::sqlite3_storage::msg_selected;
use crate::sqlite3_storage::topic_ids_unique;
use crate::sqlite3_storage::db_messages;
use crate::sqlite3_storage::db_topics;
use crate::sqlite3_storage::init_schema;
use crate::sqlite3_storage::insert_message_row;
use crate::sqlite3_storage::insert_topic_row;
use crate::sqlite3_storage::max_timestamp;
use crate::sqlite3_storage::min_timestamp;
use crate::sqlite3_storage::open_database_rw;
use crate::sqlite3_storage::optimize_database;
use crate::sqlite3_storage::query_aggregates;
use crate::ConnectionExt;
use crate::Error;
use crate::TopicConnection;

verus! {

/// The total of the per-connection message counters.
pub open spec fn sum_counts(s: Seq<i32>) -> int
    decreases s.len(),
{
    if s.len() == 0 {
        0
    } else {
        sum_counts(s.drop_last()) + s.last()
    }
}

proof fn lemma_sum_push(s: Seq<i32>, v: i32)
    ensures
        sum_counts(s.push(v)) == sum_counts(s) + v,
{
    assert(s.push(v).drop_last() =~= s);
}

proof fn lemma_sum_update(s: Seq<i32>, i: int, v: i32)
    requires
        0 <= i < s.len(),
    ensures
        sum_counts(s.update(i, v)) == sum_counts(s) - s[i] + v,
    decreases s.len(),
{
    if i == s.len() - 1 {
        assert(s.update(i, v).drop_last() =~= s.drop_last());
        assert(s.update(i, v).last() == v);
    } else {
        lemma_sum_update(s.drop_last(), i, v);
        assert(s.update(i, v).drop_last() =~= s.drop_last().update(i, v));
        assert(s.update(i, v).last() == s.last());
    }
}

/// Writes one bag: creates the database schema, registers connections,
/// appends messages and produces the closing metadata.
pub struct Writer {
    pub path: String,
    pub metapath: String,
    pub dbpath: String,
    pub connections: Vec<TopicConnection>,
    pub counts: Vec<i32>,
    pub conn: Option<rusqlite::Connection>,
    pub custom_data: Vec<(String, String)>,
    pub compression_mode: String,
    pub compression_format: String,
}

impl Writer {
    /// The in-memory registry is well formed: one counter per connection,
    /// ids consecutive from 1 in registration order, non-negative
    /// counters, no (topic, msgtype) pair registered twice, and no custom
    /// data key used twice.
    pub open spec fn wf(self) -> bool {
        &&& self.connections@.len() == self.counts@.len()
        &&& self.connections@.len() <= i32::MAX as int
        &&& forall|i: int|
            0 <= i < self.connections@.len() ==> (#[trigger] self.connections@[i]).id == i + 1
        &&& forall|i: int| 0 <= i < self.counts@.len() ==> (#[trigger] self.counts@[i]) >= 0
        &&& forall|i: int, j: int|
            0 <= i < j < self.connections@.len() ==> !((#[trigger] self.connections@[i]).topic@
                == (#[trigger] self.connections@[j]).topic@ && self.connections@[i].msgtype@
                == self.connections@[j].msgtype@)
        &&& forall|i: int, j: int|
            0 <= i < j < self.custom_data@.len() ==> (#[trigger] self.custom_data@[i]).0@ != (
            #[trigger] self.custom_data@[j]).0@
    }

    /// While a database is open, the registry mirrors the topics table
    /// row for row, every message row references a registered connection,
    /// and the counters total the number of message rows.
    pub open spec fn db_inv(self) -> bool {
        self.conn matches Some(c) ==> {
            &&& db_topics(c).len() == self.connections@.len()
            &&& forall|i: int|
                0 <= i < self.connections@.len() ==> (#[trigger] db_topics(c)[i]) == (
                (i + 1) as i64,
                self.connections@[i].topic@,
                self.connections@[i].msgtype@,
                self.connections@[i].ext.serialization_format@,
                self.connections@[i].ext.offered_qos_profiles@,
            )
            &&& forall|k: int|
                0 <= k < db_messages(c).len() ==> 1 <= (#[trigger] db_messages(c)[k]).0
                    <= self.connections@.len()
            &&& sum_counts(self.counts@) == db_messages(c).len()
        }
    }

    pub open spec fn inv(self) -> bool {
        self.wf() && self.db_inv()
    }

    /// A (topic, msgtype) pair is already registered.
    pub open spec fn has_connection(self, topic: Seq<char>, msgtype: Seq<char>) -> bool {
        exists|i: int|
            0 <= i < self.connections@.len() && (#[trigger] self.connections@[i]).topic@ == topic
                && self.connections@[i].msgtype@ == msgtype
    }

    /// A connection value was issued by this writer: its id is in range
    /// and the registered entry under that id carries the same topic and
    /// msgtype.
    pub open spec fn known_connection(self, c: TopicConnection) -> bool {
        &&& 1 <= c.id <= self.connections@.len()
        &&& self.connections@[c.id - 1].topic@ == c.topic@
        &&& self.connections@[c.id - 1].msgtype@ == c.msgtype@
    }

    /// A writer aimed at the bag directory `path`: the metadata document
    /// goes to `<path>/metadata.yaml`, the database to
    /// `<path>/<basename>.db3`.  Nothing is opened yet.
    pub fn new(path: &str) -> (w: Writer)
        ensures
            w.path@ == path@,
            w.metapath@ == path@ + "/"@ + "metadata.yaml"@,
            w.dbpath@ == path@ + "/"@ + basename_of(path@) + ".db3"@,
            w.connections@.len() == 0,
            w.counts@.len() == 0,
            w.conn is None,
            w.custom_data@.len() == 0,
            w.compression_mode@.len() == 0,
            w.compression_format@.len() == 0,
            w.inv(),
    {
        let metapath = join_path(path, "metadata.yaml");
        let name = basename(path);
        let mut dbpath = join_path(path, name);
        dbpath.append(".db3");
        let w = Writer {
            path: path.to_owned(),
            metapath,
            dbpath,
            connections: Vec::new(),
            counts: Vec::new(),
            conn: None,
            custom_data: Vec::new(),
            compression_mode: String::new(),
            compression_format: String::new(),
        };
        proof {
            assert(w.dbpath@ =~= path@ + "/"@ + basename_of(path@) + ".db3"@);
        }
        w
    }

    /// Creates the bag's database file with the fixed four-table schema.
    /// Fails with `AlreadyExists`, touching nothing, when a file is
    /// already present at the target path.  Valid only before any
    /// successful `open`.
    pub fn open(&mut self) -> (r: Result<(), Error>)
        requires
            old(self).inv(),
            old(self).conn is None,
            old(self).connections@.len() == 0,
            old(self).counts@.len() == 0,
        ensures
            final(self).inv(),
            final(self).path == old(self).path,
            final(self).metapath == old(self).metapath,
            final(self).dbpath == old(self).dbpath,
            final(self).connections == old(self).connections,
            final(self).counts == old(self).counts,
            final(self).custom_data == old(self).custom_data,
            final(self).compression_mode == old(self).compression_mode,
            final(self).compression_format == old(self).compression_format,
            r matches Ok(()) ==> final(self).conn matches Some(c) && db_topics(c).len() == 0
                && db_messages(c).len() == 0,
            r is Err ==> final(self).conn is None,
            r matches Err(e) ==> e == Error::AlreadyExists || e == Error::Storage,
    {
        if database_file_present(self.dbpath.as_str()) {
            return Err(Error::AlreadyExists);
        }
        let mut c = match open_database_rw(self.dbpath.as_str()) {
            Ok(c) => c,
            Err(e) => {
                return Err(e);
            },
        };
        match init_schema(&mut c) {
            Ok(()) => {
                self.conn = Some(c);
                Ok(())
            },
            Err(e) => Err(e),
        }
    }

    /// Registers a (topic, msgtype) pair, assigns it the next sequential
    /// id and inserts the matching row into the topics table.  Fails with
    /// `BagNotOpen` before `open`, with `DuplicateConnection` when the
    /// pair is already registered; a storage failure registers nothing.
    pub fn add_connection(
        &mut self,
        topic: &str,
        msgtype: &str,
        serialization_format: &str,
        offered_qos_profiles: &str,
    ) -> (r: Result<TopicConnection, Error>)
        requires
            old(self).inv(),
            old(self).connections@.len() < i32::MAX as int,
        ensures
            final(self).inv(),
            final(self).path == old(self).path,
            final(self).metapath == old(self).metapath,
            final(self).dbpath == old(self).dbpath,
            final(self).custom_data == old(self).custom_data,
            final(self).compression_mode == old(self).compression_mode,
            final(self).compression_format == old(self).compression_format,
            final(self).counts@.len() == final(self).connections@.len(),
            final(self).conn is Some <==> old(self).conn is Some,
            old(self).conn is None ==> r == Err::<TopicConnection, Error>(Error::BagNotOpen)
                && *final(self) == *old(self),
            (r matches Err(e) && e == Error::BagNotOpen) ==> old(self).conn is None,
            old(self).conn is Some && old(self).has_connection(topic@, msgtype@) ==> r
                == Err::<TopicConnection, Error>(Error::DuplicateConnection) && *final(self)
                == *old(self),
            (r matches Err(e) && e == Error::DuplicateConnection) ==> old(self).has_connection(
                topic@,
                msgtype@,
            ),
            old(self).conn matches Some(oc) ==> (final(self).conn matches Some(c)
                ==> db_messages(c) == db_messages(oc)),
            r is Err ==> final(self).connections == old(self).connections && final(self).counts
                == old(self).counts,
            r matches Err(e) ==> e == Error::BagNotOpen || e == Error::DuplicateConnection || e
                == Error::Storage,
            r matches Ok(conn) ==> {
                &&& old(self).conn is Some
                &&& !old(self).has_connection(topic@, msgtype@)
                &&& conn.id as int == old(self).connections@.len() + 1
                &&& conn.topic@ == topic@
                &&& conn.msgtype@ == msgtype@
                &&& conn.msgcount == 0
                &&& conn.ext.serialization_format@ == serialization_format@
                &&& conn.ext.offered_qos_profiles@ == offered_qos_profiles@
                &&& final(self).connections@ == old(self).connections@.push(conn)
                &&& final(self).counts@ == old(self).counts@.push(0i32)
            },
    {
        if self.conn.is_none() {
            return Err(Error::BagNotOpen);
        }
        let topic_owned = topic.to_owned();
        let msgtype_owned = msgtype.to_owned();
        let n = self.connections.len();
        let mut i: usize = 0;
        while i < n
            invariant
                *self == *old(self),
                old(self).inv(),
                old(self).conn is Some,
                n == self.connections@.len(),
                0 <= i <= n,
                forall|j: int|
                    0 <= j < i ==> !((#[trigger] self.connections@[j]).topic@ == topic@
                        && self.connections@[j].msgtype@ == msgtype@),
                topic_owned@ == topic@,
                msgtype_owned@ == msgtype@,
            decreases n - i,
        {
            if self.connections[i].topic == topic_owned && self.connections[i].msgtype
                == msgtype_owned {
                assert(self.has_connection(topic@, msgtype@));
                return Err(Error::DuplicateConnection);
            }
            i = i + 1;
        }
        assert(!self.has_connection(topic@, msgtype@));
        let new_id: i32 = (n as i32) + 1;
        let new_connection = TopicConnection {
            id: new_id,
            topic: topic_owned,
            msgtype: msgtype_owned,
            msgcount: 0,
            ext: ConnectionExt {
                serialization_format: serialization_format.to_owned(),
                offered_qos_profiles: offered_qos_profiles.to_owned(),
            },
        };
        let c = match &mut self.conn {
            Some(c) => c,
            None => {
                return Err(Error::BagNotOpen);
            },
        };
        match insert_topic_row(
            c,
            new_id as i64,
            topic,
            msgtype,
            serialization_format,
            offered_qos_profiles,
        ) {
            Ok(()) => {
                self.connections.push(new_connection.clone());
                self.counts.push(0);
                proof {
                    lemma_sum_push(old(self).counts@, 0i32);
                }
                Ok(new_connection)
            },
            Err(e) => Err(e),
        }
    }

    /// Appends one message row for a connection this writer issued and
    /// bumps that connection's counter.  Fails with `BagNotOpen` outside
    /// the open state and with `UnknownConnection` when the connection's
    /// id, topic and msgtype do not match a registered entry; a storage
    /// failure appends nothing.
    pub fn write(&mut self, connection: &TopicConnection, timestamp: i64, data: &[u8]) -> (r:
        Result<(), Error>)
        requires
            old(self).inv(),
            forall|i: int|
                0 <= i < old(self).counts@.len() ==> (#[trigger] old(self).counts@[i])
                    < i32::MAX,
        ensures
            final(self).inv(),
            final(self).path == old(self).path,
            final(self).metapath == old(self).metapath,
            final(self).dbpath == old(self).dbpath,
            final(self).connections == old(self).connections,
            final(self).custom_data == old(self).custom_data,
            final(self).compression_mode == old(self).compression_mode,
            final(self).compression_format == old(self).compression_format,
            final(self).conn is Some <==> old(self).conn is Some,
            old(self).conn is None ==> r == Err::<(), Error>(Error::BagNotOpen) && *final(self)
                == *old(self),
            (r matches Err(e) && e == Error::BagNotOpen) ==> old(self).conn is None,
            old(self).conn is Some && !old(self).known_connection(*connection) ==> r == Err::<
                (),
                Error,
            >(Error::UnknownConnection) && *final(self) == *old(self),
            (r matches Err(e) && e == Error::UnknownConnection) ==> !old(self).known_connection(
                *connection,
            ),
            r is Err ==> final(self).counts == old(self).counts,
            r matches Err(e) ==> e == Error::BagNotOpen || e == Error::UnknownConnection || e
                == Error::Storage,
            r matches Ok(()) ==> {
                &&& old(self).conn is Some
                &&& old(self).known_connection(*connection)
                &&& final(self).conn matches Some(c) && db_messages(c) == db_messages(
                    old(self).conn.unwrap(),
                ).push((connection.id as i64, timestamp, data@))
                &&& final(self).counts@ == old(self).counts@.update(
                    connection.id - 1,
                    (old(self).counts@[connection.id - 1] + 1) as i32,
                )
            },
    {
        let n = self.connections.len();
        if self.conn.is_none() {
            return Err(Error::BagNotOpen);
        }
        if connection.id < 1 || connection.id as usize > n {
            return Err(Error::UnknownConnection);
        }
        let idx = (connection.id - 1) as usize;
        if !(self.connections[idx].topic == connection.topic && self.connections[idx].msgtype
            == connection.msgtype) {
            return Err(Error::UnknownConnection);
        }
        let c = match &mut self.conn {
            Some(c) => c,
            None => {
                return Err(Error::BagNotOpen);
            },
        };
        match insert_message_row(c, connection.id as i64, timestamp, data) {
            Ok(()) => {
                let cnt = self.counts[idx];
                self.counts[idx] = cnt + 1;
                proof {
                    lemma_sum_update(old(self).counts@, idx as int, (cnt + 1) as i32);
                }
                Ok(())
            },
            Err(e) => Err(e),
        }
    }

    /// Builds the closing metadata document model: schema version 5, the
    /// "sqlite3" storage identifier, one relative file path (the database
    /// file's name), the final per-topic counts, one file entry carrying
    /// the same aggregates, and the fixed provenance tag.
    pub fn generate_metadata(&self, duration: i64, start: i64, count: i32) -> (m: Metadata)
        requires
            self.wf(),
        ensures
            m.version == 5,
            m.storage_identifier@ == "sqlite3"@,
            m.relative_file_paths@.len() == 1,
            m.relative_file_paths@[0]@ == basename_of(self.dbpath@),
            m.starting_time.nanoseconds_since_epoch == start,
            m.duration.nanoseconds == duration,
            m.message_count == count,
            m.compression_format == self.compression_format,
            m.compression_mode == self.compression_mode,
            m.topics_with_message_count@.len() == self.connections@.len(),
            forall|i: int|
                0 <= i < self.connections@.len() ==> {
                    let t = #[trigger] m.topics_with_message_count@[i];
                    &&& t.message_count == self.counts@[i]
                    &&& t.topic_metadata.name@ == self.connections@[i].topic@
                    &&& t.topic_metadata.type_@ == self.connections@[i].msgtype@
                    &&& t.topic_metadata.serialization_format@
                        == self.connections@[i].ext.serialization_format@
                    &&& t.topic_metadata.offered_qos_profiles@
                        == self.connections@[i].ext.offered_qos_profiles@
                },
            m.files@.len() == 1,
            m.files@[0].path == self.dbpath,
            m.files@[0].starting_time.nanoseconds_since_epoch == start,
            m.files@[0].duration.nanoseconds == duration,
            m.files@[0].message_count == count,
            m.custom_data@.len() == self.custom_data@.len(),
            forall|i: int|
                0 <= i < self.custom_data@.len() ==> (#[trigger] m.custom_data@[i]).0@
                    == self.custom_data@[i].0@ && m.custom_data@[i].1@
                    == self.custom_data@[i].1@,
            m.ros_distro@ == "rosbags"@,
    {
        let n = self.connections.len();
        let mut topics_with_message_count: Vec<TopicWithMessageCount> = Vec::new();
        let mut i: usize = 0;
        while i < n
            invariant
                n == self.connections@.len(),
                self.wf(),
                0 <= i <= n,
                topics_with_message_count@.len() == i as int,
                forall|j: int|
                    0 <= j < i ==> {
                        let t = #[trigger] topics_with_message_count@[j];
                        &&& t.message_count == self.counts@[j]
                        &&& t.topic_metadata.name@ == self.connections@[j].topic@
                        &&& t.topic_metadata.type_@ == self.connections@[j].msgtype@
                        &&& t.topic_metadata.serialization_format@
                            == self.connections@[j].ext.serialization_format@
                        &&& t.topic_metadata.offered_qos_profiles@
                            == self.connections@[j].ext.offered_qos_profiles@
                    },
            decreases n - i,
        {
            let conn = &self.connections[i];
            topics_with_message_count.push(
                TopicWithMessageCount {
                    message_count: self.counts[i],
                    topic_metadata: TopicMetadata {
                        name: conn.topic.clone(),
                        type_: conn.msgtype.clone(),
                        serialization_format: conn.ext.serialization_format.clone(),
                        offered_qos_profiles: conn.ext.offered_qos_profiles.clone(),
                    },
                },
            );
            i = i + 1;
        }
        let mut custom_data: Vec<(String, String)> = Vec::new();
        let mut i: usize = 0;
        while i < self.custom_data.len()
            invariant
                0 <= i <= self.custom_data@.len(),
                custom_data@.len() == i as int,
                forall|j: int|
                    0 <= j < i ==> (#[trigger] custom_data@[j]).0@ == self.custom_data@[j].0@
                        && custom_data@[j].1@ == self.custom_data@[j].1@,
            decreases self.custom_data@.len() - i,
        {
            let pair = &self.custom_data[i];
            custom_data.push((pair.0.clone(), pair.1.clone()));
            i = i + 1;
        }
        let dbname = basename(self.dbpath.as_str());
        let mut relative_file_paths: Vec<String> = Vec::new();
        relative_file_paths.push(dbname.to_owned());
        let mut files: Vec<FileInformation> = Vec::new();
        files.push(
            FileInformation {
                path: self.dbpath.clone(),
                starting_time: StartingTime { nanoseconds_since_epoch: start },
                duration: BagDuration { nanoseconds: duration },
                message_count: count,
            },
        );
        Metadata {
            version: 5,
            storage_identifier: String::from_str("sqlite3"),
            relative_file_paths,
            starting_time: StartingTime { nanoseconds_since_epoch: start },
            duration: BagDuration { nanoseconds: duration },
            message_count: count,
            compression_format: self.compression_format.clone(),
            compression_mode: self.compression_mode.clone(),
            topics_with_message_count,
            files,
            custom_data,
            ros_distro: String::from_str("rosbags"),
        }
    }

    /// Closes the bag: reads the timing and count aggregates from the
    /// messages table, compacts the database, releases it and returns the
    /// finished metadata document model.  An empty bag closes fine and is
    /// recorded with count 0, duration 0 and the "infinite" starting-time
    /// sentinel.  Fails with `BagNotOpen` outside the open state.
    pub fn close(&mut self) -> (r: Result<BagFileInfo, Error>)
        requires
            old(self).inv(),
        ensures
            final(self).inv(),
            final(self).conn is None,
            final(self).path == old(self).path,
            final(self).metapath == old(self).metapath,
            final(self).dbpath == old(self).dbpath,
            final(self).connections == old(self).connections,
            final(self).counts == old(self).counts,
            old(self).conn is None ==> r == Err::<BagFileInfo, Error>(Error::BagNotOpen)
                && *final(self) == *old(self),
            (r matches Err(e) && e == Error::BagNotOpen) ==> old(self).conn is None,
            r matches Err(e) ==> e == Error::BagNotOpen || e == Error::Storage,
            r matches Ok(info) ==> {
                &&& old(self).conn matches Some(c)
                &&& {
                    let m = info.rosbag2_bagfile_information;
                    let msgs = db_messages(old(self).conn.unwrap());
                    &&& m.version == 5
                    &&& m.storage_identifier@ == "sqlite3"@
                    &&& m.relative_file_paths@.len() == 1
                    &&& m.relative_file_paths@[0]@ == basename_of(old(self).dbpath@)
                    &&& m.message_count as int == msgs.len()
                    &&& m.message_count as int == sum_counts(old(self).counts@)
                    &&& m.compression_format == old(self).compression_format
                    &&& m.compression_mode == old(self).compression_mode
                    &&& (msgs.len() == 0 ==> m.starting_time.nanoseconds_since_epoch == i64::MAX
                        && m.duration.nanoseconds == 0)
                    &&& (msgs.len() > 0 ==> m.starting_time.nanoseconds_since_epoch as int
                        == min_timestamp(msgs) && m.duration.nanoseconds as int == max_timestamp(
                        msgs,
                    ) - min_timestamp(msgs))
                    &&& m.topics_with_message_count@.len() == old(self).connections@.len()
                    &&& forall|i: int|
                        0 <= i < old(self).connections@.len() ==> {
                            let t = #[trigger] m.topics_with_message_count@[i];
                            &&& t.message_count == old(self).counts@[i]
                            &&& t.topic_metadata.name@ == old(self).connections@[i].topic@
                            &&& t.topic_metadata.type_@ == old(self).connections@[i].msgtype@
                            &&& t.topic_metadata.serialization_format@ == old(
                                self,
                            ).connections@[i].ext.serialization_format@
                            &&& t.topic_metadata.offered_qos_profiles@ == old(
                                self,
                            ).connections@[i].ext.offered_qos_profiles@
                        }
                    &&& m.files@.len() == 1
                    &&& m.files@[0].path == old(self).dbpath
                    &&& m.ros_distro@ == "rosbags"@
                }
            },
    {
        let taken = self.conn.take();
        let mut c = match taken {
            None => {
                return Err(Error::BagNotOpen);
            },
            Some(c) => c,
        };
        let (dur_opt, start_opt, cnt) = match query_aggregates(&c) {
            Ok(t) => t,
            Err(e) => {
                return Err(e);
            },
        };
        match optimize_database(&mut c) {
            Ok(()) => (),
            Err(e) => {
                return Err(e);
            },
        }
        if cnt > i32::MAX as i64 {
            return Err(Error::Storage);
        }
        let count = cnt as i32;
        let duration: i64;
        let start: i64;
        if count == 0 {
            duration = 0;
            start = i64::MAX;
        } else {
            duration = match dur_opt {
                Some(d) => d,
                None => 0,
            };
            start = match start_opt {
                Some(s) => s,
                None => i64::MAX,
            };
        }
        let metadata = self.generate_metadata(duration, start, count);
        Ok(BagFileInfo { rosbag2_bagfile_information: metadata })
    }
}

/// Law: connection ids are the consecutive integers 1..N, in registration
/// order.
pub proof fn lemma_connection_ids_consecutive(w: Writer)
    requires
        w.wf(),
    ensures
        forall|i: int| 0 <= i < w.connections@.len() ==> (#[trigger] w.connections@[i]).id == i
            + 1,
{
}

/// Law: while a bag is open, the number of rows of the messages table
/// equals the total of the per-connection write counters, that is, the
/// number of successful `write` calls.
pub proof fn lemma_message_count_matches_writes(w: Writer)
    requires
        w.inv(),
        w.conn is Some,
    ensures
        db_messages(w.conn.unwrap()).len() == sum_counts(w.counts@),
{
}

proof fn lemma_filter_all_true<A>(s: Seq<A>, pred: spec_fn(A) -> bool)
    requires
        forall|i: int| 0 <= i < s.len() ==> pred(#[trigger] s[i]),
    ensures
        s.filter(pred) == s,
    decreases s.len(),
{
    reveal(Seq::filter);
    if s.len() > 0 {
        lemma_filter_all_true(s.drop_last(), pred);
        assert(s.drop_last().push(s.last()) =~= s);
    }
}

/// Law: while a bag is open, the topics table has unique ids and an
/// unfiltered query over the writer's own topic names selects every
/// message row — so reading the same database back with no time filter
/// yields exactly the written messages.
pub proof fn lemma_unfiltered_read_sees_all_writes(w: Writer)
    requires
        w.inv(),
        w.conn is Some,
    ensures
        ({
            let c = w.conn.unwrap();
            let names = w.connections@.map_values(|tc: TopicConnection| tc.topic@);
            &&& topic_ids_unique(db_topics(c))
            &&& forall|k: int|
                0 <= k < db_messages(c).len() ==> msg_selected(
                    db_topics(c),
                    names,
                    None,
                    None,
                    #[trigger] db_messages(c)[k],
                )
            &&& db_messages(c).filter(
                |m: (i64, i64, Seq<u8>)| msg_selected(db_topics(c), names, None, None, m),
            ) == db_messages(c)
        }),
{
    let c = w.conn.unwrap();
    let names = w.connections@.map_values(|tc: TopicConnection| tc.topic@);
    assert forall|k: int| 0 <= k < db_messages(c).len() implies msg_selected(
        db_topics(c),
        names,
        None,
        None,
        #[trigger] db_messages(c)[k],
    ) by {
        let m = db_messages(c)[k];
        let idx = m.0 - 1;
        assert(db_topics(c)[idx] == (
            (idx + 1) as i64,
            w.connections@[idx].topic@,
            w.connections@[idx].msgtype@,
            w.connections@[idx].ext.serialization_format@,
            w.connections@[idx].ext.offered_qos_profiles@,
        ));
        assert(db_topics(c)[idx].0 == m.0);
        assert(names[idx] == w.connections@[idx].topic@);
        assert(names.contains(db_topics(c)[idx].1));
    }
    lemma_filter_all_true(
        db_messages(c),
        |m: (i64, i64, Seq<u8>)| msg_selected(db_topics(c), names, None, None, m),
    );
}

} // verus!
