//! Read path: metadata validation, connection reconstruction and
//! time-filtered message iteration.
//!
//! A reader is built from an already-parsed metadata document model.  It
//! validates the document (schema version, compression, serialization
//! format, storage backend), rebuilds the connection list in document
//! order with ids 1..N, opens the bag's single database file read-only
//! and hands messages out in non-decreasing timestamp order.

use vstd::prelude::*;

use crate::join_path;
use crate::metadata::BagFileInfo;
use crate::metadata::Metadata;
use crate::sqlite3_storage::db_messages;
use crate::sqlite3_storage::db_topics;
use crate::sqlite3_storage::max_timestamp;
use crate::sqlite3_storage::min_timestamp;
use crate::sqlite3_storage::msg_selected;
use crate::sqlite3_storage::rows_view;
use crate::sqlite3_storage::sorted_by_timestamp;
use crate::sqlite3_storage::topic_ids_unique;
use crate::sqlite3_storage::Sqlite3Reader;
use crate::writer::sum_counts;
use crate::writer::Writer;
use crate::ConnectionExt;
use crate::Error;
use crate::TopicConnection;
use crate::TopicInfo;

verus! {

/// What `start_time` reports: the document's starting time, or the
/// largest representable timestamp as an "undefined" sentinel when the
/// bag holds no message.
pub open spec fn spec_start_time(m: Metadata) -> int {
    if m.message_count > 0 {
        m.starting_time.nanoseconds_since_epoch as int
    } else {
        i64::MAX as int
    }
}

/// What `duration` reports: the document's duration plus one (the span is
/// inclusive of both extreme timestamps), or 0 when the bag holds no
/// message.
pub open spec fn spec_duration(m: Metadata) -> int {
    if m.message_count > 0 {
        m.duration.nanoseconds + 1
    } else {
        0
    }
}

/// A name for what `str::to_lowercase` returns; its output is a function
/// of the input characters alone.
pub uninterp spec fn lower_of(s: Seq<char>) -> Seq<char>;

/// Relies on `str::to_lowercase` of std; the result depends on the input
/// characters alone, so it is only given a name, beside the one short
/// fact that an empty string stays empty.
#[verifier::external_body]
fn lowercase(s: &str) -> (r: String)
    ensures
        r@ == lower_of(s@),
        s@.len() == 0 ==> r@.len() == 0,
{
    s.to_lowercase()
}

/// Reads one bag: validates its metadata document, rebuilds the
/// connection list and enumerates messages in timestamp order.
pub struct Reader {
    pub metadata: Metadata,
    pub connections: Vec<TopicConnection>,
    pub storage: Sqlite3Reader,
}

impl Reader {
    /// The connection list mirrors the validated document entry for
    /// entry, with ids assigned 1..N in document order, and exactly one
    /// database file is open.
    pub open spec fn wf(self) -> bool {
        &&& self.metadata.accepted_by_reader()
        &&& self.storage.dbconns@.len() == 1
        &&& self.connections@.len() == self.metadata.topics_with_message_count@.len()
        &&& forall|i: int|
            0 <= i < self.connections@.len() ==> {
                let c = #[trigger] self.connections@[i];
                let t = self.metadata.topics_with_message_count@[i];
                &&& c.id == i + 1
                &&& c.topic@ == t.topic_metadata.name@
                &&& c.msgtype@ == t.topic_metadata.type_@
                &&& c.msgcount == t.message_count
                &&& c.ext.serialization_format@ == t.topic_metadata.serialization_format@
                &&& c.ext.offered_qos_profiles@ == t.topic_metadata.offered_qos_profiles@
            }
    }

    /// Validates the metadata document of the bag at `path` and opens its
    /// database file.  The checks run in a fixed order: schema version at
    /// most 5, then empty compression mode, then every topic serialized
    /// as "cdr", then the "sqlite3" storage identifier; an accepted
    /// document fails only when the database file cannot be opened or
    /// lacks its tables.  Only single-file bags are implemented, hence
    /// the bound on the path list; the id-assignment rule bounds the
    /// topic count.
    pub fn new(path: &str, bag_info: BagFileInfo) -> (r: Result<Reader, Error>)
        requires
            bag_info.rosbag2_bagfile_information.relative_file_paths@.len() == 1,
            bag_info.rosbag2_bagfile_information.topics_with_message_count@.len() <= i32::MAX
                as int,
        ensures
            ({
                let m = bag_info.rosbag2_bagfile_information;
                &&& (m.version > 5 ==> (r matches Err(e) && e == Error::UnsupportedVersion))
                &&& (m.version <= 5 && m.compression_mode@.len() > 0 ==> (r matches Err(e) && e
                    == Error::UnsupportedCompression))
                &&& (m.version <= 5 && m.compression_mode@.len() == 0 && (exists|i: int|
                    0 <= i < m.topics_with_message_count@.len()
                        && (#[trigger] m.topics_with_message_count@[i]).topic_metadata.serialization_format@
                        != "cdr"@) ==> (r matches Err(e) && e
                    == Error::UnsupportedSerialization))
                &&& (m.version <= 5 && m.compression_mode@.len() == 0 && (forall|i: int|
                    0 <= i < m.topics_with_message_count@.len()
                        ==> (#[trigger] m.topics_with_message_count@[i]).topic_metadata.serialization_format@
                        == "cdr"@) && m.storage_identifier@ != "sqlite3"@ ==> (r matches Err(e)
                    && e == Error::UnsupportedStorage))
                &&& (m.accepted_by_reader() ==> !(r matches Err(e) && (e
                    == Error::UnsupportedVersion || e == Error::UnsupportedCompression || e
                    == Error::UnsupportedSerialization || e == Error::UnsupportedStorage)))
                &&& (r matches Err(e) ==> e == Error::UnsupportedVersion || e
                    == Error::UnsupportedCompression || e == Error::UnsupportedSerialization
                    || e == Error::UnsupportedStorage || e == Error::Storage || e
                    == Error::CorruptOrUnsupported)
                &&& (r matches Ok(reader) ==> {
                    &&& m.accepted_by_reader()
                    &&& reader.wf()
                    &&& reader.metadata == m
                    &&& reader.storage.paths@.len() == 1
                    &&& reader.storage.paths@[0]@ == path@ + "/"@ + m.relative_file_paths@[0]@
                })
            }),
    {
        let metadata = bag_info.rosbag2_bagfile_information;
        if metadata.version > 5 {
            return Err(Error::UnsupportedVersion);
        }
        if metadata.compression_mode.as_str().unicode_len() > 0 {
            return Err(Error::UnsupportedCompression);
        }
        let cdr = String::from_str("cdr");
        let n = metadata.topics_with_message_count.len();
        let mut i: usize = 0;
        while i < n
            invariant
                metadata == bag_info.rosbag2_bagfile_information,
                metadata.version <= 5,
                metadata.compression_mode@.len() == 0,
                n == metadata.topics_with_message_count@.len(),
                0 <= i <= n,
                cdr@ == "cdr"@,
                forall|j: int|
                    0 <= j < i
                        ==> (#[trigger] metadata.topics_with_message_count@[j]).topic_metadata.serialization_format@
                        == "cdr"@,
            decreases n - i,
        {
            if !(metadata.topics_with_message_count[i].topic_metadata.serialization_format
                == cdr) {
                proof {
                    assert(bag_info.rosbag2_bagfile_information.topics_with_message_count@[
                        i as int
                    ].topic_metadata.serialization_format@ != "cdr"@);
                }
                return Err(Error::UnsupportedSerialization);
            }
            i = i + 1;
        }
        let sqlite3 = String::from_str("sqlite3");
        if !(metadata.storage_identifier == sqlite3) {
            return Err(Error::UnsupportedStorage);
        }
        assert(metadata.accepted_by_reader());
        let mut connections: Vec<TopicConnection> = Vec::new();
        let mut i: usize = 0;
        while i < n
            invariant
                metadata == bag_info.rosbag2_bagfile_information,
                n == metadata.topics_with_message_count@.len(),
                n <= i32::MAX as int,
                0 <= i <= n,
                connections@.len() == i as int,
                forall|j: int|
                    0 <= j < i ==> {
                        let c = #[trigger] connections@[j];
                        let t = metadata.topics_with_message_count@[j];
                        &&& c.id == j + 1
                        &&& c.topic@ == t.topic_metadata.name@
                        &&& c.msgtype@ == t.topic_metadata.type_@
                        &&& c.msgcount == t.message_count
                        &&& c.ext.serialization_format@ == t.topic_metadata.serialization_format@
                        &&& c.ext.offered_qos_profiles@ == t.topic_metadata.offered_qos_profiles@
                    },
            decreases n - i,
        {
            let t = &metadata.topics_with_message_count[i];
            connections.push(
                TopicConnection {
                    id: (i as i32) + 1,
                    topic: t.topic_metadata.name.clone(),
                    msgtype: t.topic_metadata.type_.clone(),
                    msgcount: t.message_count,
                    ext: ConnectionExt {
                        serialization_format: t.topic_metadata.serialization_format.clone(),
                        offered_qos_profiles: t.topic_metadata.offered_qos_profiles.clone(),
                    },
                },
            );
            i = i + 1;
        }
        let mut paths: Vec<String> = Vec::new();
        paths.push(join_path(path, metadata.relative_file_paths[0].as_str()));
        let mut storage = Sqlite3Reader::new(paths);
        match storage.open() {
            Ok(()) => (),
            Err(e) => {
                return Err(e);
            },
        }
        Ok(Reader { metadata, connections, storage })
    }

    /// Re-opens the storage backend after it was closed.
    pub fn open(&mut self) -> (r: Result<(), Error>)
        ensures
            final(self).metadata == old(self).metadata,
            final(self).connections == old(self).connections,
            r matches Ok(()) ==> final(self).storage.dbconns@.len()
                == old(self).storage.dbconns@.len() + old(self).storage.paths@.len(),
            r matches Err(e) ==> e == Error::Storage || e == Error::CorruptOrUnsupported,
    {
        self.storage.open()
    }

    /// The matching rows, in non-decreasing timestamp order, of the
    /// half-open time window over this reader's full connection set.
    pub fn read_messages(&self, start: Option<i64>, stop: Option<i64>) -> (r: Result<
        Vec<(i64, i64, Vec<u8>)>,
        Error,
    >)
        requires
            self.storage.dbconns@.len() <= 1,
        ensures
            self.storage.dbconns@.len() == 0 ==> (r matches Err(e) && e
                == Error::BackendNotOpen),
            (r matches Err(e) && e == Error::BackendNotOpen) ==> self.storage.dbconns@.len()
                == 0,
            r matches Err(e) ==> e == Error::BackendNotOpen || e == Error::Storage,
            r matches Ok(rows) ==> self.storage.dbconns@.len() == 1 && {
                let topics = db_topics(self.storage.dbconns@[0]);
                let names = self.connections@.map_values(|c: TopicConnection| c.topic@);
                &&& sorted_by_timestamp(rows_view(rows@))
                &&& forall|i: int|
                    0 <= i < rows@.len() ==> msg_selected(
                        topics,
                        names,
                        start,
                        stop,
                        #[trigger] rows_view(rows@)[i],
                    )
                &&& topic_ids_unique(topics) ==> rows_view(rows@).to_multiset() == db_messages(
                    self.storage.dbconns@[0],
                ).filter(
                    |m: (i64, i64, Seq<u8>)| msg_selected(topics, names, start, stop, m),
                ).to_multiset()
            },
    {
        self.storage.read_messages(&self.connections, start, stop)
    }

    /// Runs `handle_func` on every matching row, in non-decreasing
    /// timestamp order.  A callback failure is not fatal: the scan goes
    /// on with the next row.
    pub fn handle_messages<E, F: Fn((i64, i64, Vec<u8>)) -> Result<(), E>>(
        &self,
        handle_func: F,
        start: Option<i64>,
        stop: Option<i64>,
    ) -> (r: Result<(), Error>)
        requires
            self.storage.dbconns@.len() <= 1,
            forall|m: (i64, i64, Vec<u8>)| #[trigger] call_requires(handle_func, (m,)),
        ensures
            self.storage.dbconns@.len() == 0 ==> (r matches Err(e) && e
                == Error::BackendNotOpen),
            (r matches Err(e) && e == Error::BackendNotOpen) ==> self.storage.dbconns@.len()
                == 0,
            r matches Err(e) ==> e == Error::BackendNotOpen || e == Error::Storage,
    {
        let rows = match self.read_messages(start, stop) {
            Ok(rows) => rows,
            Err(e) => {
                return Err(e);
            },
        };
        crate::sqlite3_storage::handle_messages(rows, handle_func)
    }

    /// The bag's time span: duration of the document plus one nanosecond
    /// (both extreme timestamps are inside the span), 0 for an empty bag.
    pub fn duration(&self) -> (r: i64)
        requires
            self.metadata.message_count > 0 ==> self.metadata.duration.nanoseconds < i64::MAX,
        ensures
            r as int == spec_duration(self.metadata),
    {
        if self.message_count() > 0 {
            self.metadata.duration.nanoseconds + 1
        } else {
            0
        }
    }

    /// The earliest message timestamp, or the largest representable
    /// timestamp as an "undefined" sentinel for an empty bag.
    pub fn start_time(&self) -> (r: i64)
        ensures
            r as int == spec_start_time(self.metadata),
    {
        if self.message_count() > 0 {
            self.metadata.starting_time.nanoseconds_since_epoch
        } else {
            i64::MAX
        }
    }

    /// The first instant after the bag's span.
    pub fn end_time(&self) -> (r: i64)
        requires
            self.metadata.message_count > 0 ==> self.metadata.duration.nanoseconds < i64::MAX,
            self.metadata.message_count > 0 ==> i64::MIN
                <= self.metadata.starting_time.nanoseconds_since_epoch
                + self.metadata.duration.nanoseconds + 1 <= i64::MAX,
        ensures
            r as int == spec_start_time(self.metadata) + spec_duration(self.metadata),
    {
        self.start_time() + self.duration()
    }

    /// Total number of messages across all topics.
    pub fn message_count(&self) -> (r: i32)
        ensures
            r == self.metadata.message_count,
    {
        self.metadata.message_count
    }

    /// The document's compression format tag.
    pub fn compression_format(&self) -> (r: String)
        ensures
            r == self.metadata.compression_format,
    {
        self.metadata.compression_format.clone()
    }

    /// The lowercased compression mode, or nothing when that mode reads
    /// "none".
    pub fn compression_mode(&self) -> (r: Option<String>)
        ensures
            lower_of(self.metadata.compression_mode@) == "none"@ ==> r is None,
            lower_of(self.metadata.compression_mode@) != "none"@ ==> (r matches Some(s) && s@
                == lower_of(self.metadata.compression_mode@)),
            self.metadata.compression_mode@.len() == 0 ==> (r matches Some(s) && s@.len()
                == 0),
    {
        let mode = lowercase(self.metadata.compression_mode.as_str());
        let none_word = String::from_str("none");
        proof {
            if self.metadata.compression_mode@.len() == 0 {
                reveal_strlit("none");
                assert(lower_of(self.metadata.compression_mode@) != "none"@);
            }
        }
        if !(mode == none_word) {
            Some(mode)
        } else {
            None
        }
    }

    /// One (topic name, summary) entry per connection, in registration
    /// order; each summary carries that one connection.
    pub fn topics(&self) -> (r: Vec<(String, TopicInfo)>)
        ensures
            r@.len() == self.connections@.len(),
            forall|i: int|
                0 <= i < self.connections@.len() ==> {
                    let entry = #[trigger] r@[i];
                    &&& entry.0@ == self.connections@[i].topic@
                    &&& entry.1.msgtype@ == self.connections@[i].msgtype@
                    &&& entry.1.msgcount == self.connections@[i].msgcount
                    &&& entry.1.connections@.len() == 1
                    &&& entry.1.connections@[0] == self.connections@[i]
                },
    {
        let mut r: Vec<(String, TopicInfo)> = Vec::new();
        let n = self.connections.len();
        let mut i: usize = 0;
        while i < n
            invariant
                n == self.connections@.len(),
                0 <= i <= n,
                r@.len() == i as int,
                forall|j: int|
                    0 <= j < i ==> {
                        let entry = #[trigger] r@[j];
                        &&& entry.0@ == self.connections@[j].topic@
                        &&& entry.1.msgtype@ == self.connections@[j].msgtype@
                        &&& entry.1.msgcount == self.connections@[j].msgcount
                        &&& entry.1.connections@.len() == 1
                        &&& entry.1.connections@[0] == self.connections@[j]
                    },
            decreases n - i,
        {
            let conn = &self.connections[i];
            let mut one: Vec<TopicConnection> = Vec::new();
            one.push(conn.clone());
            r.push((conn.topic.clone(), TopicInfo::new(conn.msgtype.clone(), conn.msgcount, one)));
            i = i + 1;
        }
        r
    }

    /// The document's provenance tag.
    pub fn ros_distro(&self) -> (r: String)
        ensures
            r == self.metadata.ros_distro,
    {
        self.metadata.ros_distro.clone()
    }
}

/// Law: a reader built from the document a writer produced at close
/// reports the writer's totals — the document's message count is the sum
/// of the per-connection write counters, each rebuilt connection carries
/// its topic's final count under the writer's topic name, and for a
/// non-empty bag the reported duration spans both extreme timestamps.
pub proof fn lemma_round_trip_counts(
    w: Writer,
    m: Metadata,
    rd: Reader,
    msgs: Seq<(i64, i64, Seq<u8>)>,
)
    requires
        w.wf(),
        m.topics_with_message_count@.len() == w.connections@.len(),
        forall|i: int|
            0 <= i < w.connections@.len() ==> {
                let t = #[trigger] m.topics_with_message_count@[i];
                &&& t.message_count == w.counts@[i]
                &&& t.topic_metadata.name@ == w.connections@[i].topic@
            },
        m.message_count as int == sum_counts(w.counts@),
        m.message_count as int == msgs.len(),
        msgs.len() > 0 ==> m.duration.nanoseconds as int == max_timestamp(msgs) - min_timestamp(
            msgs,
        ),
        rd.metadata == m,
        rd.wf(),
    ensures
        rd.metadata.message_count as int == sum_counts(w.counts@),
        rd.connections@.len() == w.connections@.len(),
        forall|i: int|
            0 <= i < w.connections@.len() ==> (#[trigger] rd.connections@[i]).msgcount
                == w.counts@[i] && rd.connections@[i].topic@ == w.connections@[i].topic@,
        msgs.len() > 0 ==> spec_duration(rd.metadata) == max_timestamp(msgs) - min_timestamp(msgs)
            + 1,
{
}

} // verus!
