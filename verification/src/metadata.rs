//! Typed model of the bag-level metadata document.
//!
//! The document is built exactly once when a writer closes and is parsed
//! and validated exactly once when a reader is constructed.  How the model
//! is turned into document text (and back) is the business of the
//! surrounding application; the library only defines the model and what a
//! valid instance looks like.

use vstd::prelude::*;

verus! {

/// Timestamp of the earliest message, in nanoseconds since the epoch.
#[derive(Debug)]
pub struct StartingTime {
    pub nanoseconds_since_epoch: i64,
}

/// Span between the earliest and the latest message, in nanoseconds.
#[derive(Debug)]
pub struct BagDuration {
    pub nanoseconds: i64,
}

/// Descriptive fields of one topic as recorded in the document.
#[derive(Debug)]
pub struct TopicMetadata {
    pub name: String,
    pub type_: String,
    pub serialization_format: String,
    pub offered_qos_profiles: String,
}

/// One topic together with its final message count.
#[derive(Debug)]
pub struct TopicWithMessageCount {
    pub message_count: i32,
    pub topic_metadata: TopicMetadata,
}

/// Per-database-file timing and count summary.
#[derive(Debug)]
pub struct FileInformation {
    pub path: String,
    pub starting_time: StartingTime,
    pub duration: BagDuration,
    pub message_count: i32,
}

/// The bag-level descriptor: the single source of truth once a bag is
/// closed.
#[derive(Debug)]
pub struct Metadata {
    pub version: i32,
    pub storage_identifier: String,
    pub relative_file_paths: Vec<String>,
    pub starting_time: StartingTime,
    pub duration: BagDuration,
    pub message_count: i32,
    pub compression_format: String,
    pub compression_mode: String,
    pub topics_with_message_count: Vec<TopicWithMessageCount>,
    pub files: Vec<FileInformation>,
    pub custom_data: Vec<(String, String)>,
    pub ros_distro: String,
}

/// The document's top-level wrapper: the whole descriptor sits under one
/// fixed namespacing key.
#[derive(Debug)]
pub struct BagFileInfo {
    pub rosbag2_bagfile_information: Metadata,
}

impl Metadata {
    /// Whether a reader may accept this document: schema version at most
    /// 5, no compression, every topic serialized as "cdr", and the
    /// storage backend named "sqlite3".
    pub open spec fn accepted_by_reader(self) -> bool {
        &&& self.version <= 5
        &&& self.compression_mode@.len() == 0
        &&& forall|i: int|
            0 <= i < self.topics_with_message_count@.len()
                ==> (#[trigger] self.topics_with_message_count@[i]).topic_metadata.serialization_format@
                == "cdr"@
        &&& self.storage_identifier@ == "sqlite3"@
    }
}

} // verus!
