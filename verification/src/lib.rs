//! Reader and writer for timestamped binary-message logs ("bags").
//!
//! A bag is a directory holding one metadata document and one SQLite
//! database file.  A writer registers named channels ("topics"), appends
//! opaque byte records tagged with a nanosecond timestamp, and finishes by
//! producing the bag-level metadata.  A reader validates that metadata,
//! opens the database read-only and enumerates the records in timestamp
//! order, optionally restricted to a half-open time range.

use vstd::prelude::*;

pub mod metadata;
pub mod reader;
pub mod sqlite3_storage;
pub mod writer;

verus! {

/// Everything that can go wrong while writing or reading a bag.
#[derive(Clone, Copy, Debug, PartialEq, Eq, Structural)]
pub enum Error {
    /// The writer's target database file is already present.
    AlreadyExists,
    /// An operation that needs an open bag was called before `open` or
    /// after `close`.
    BagNotOpen,
    /// A (topic, msgtype) pair was registered twice.
    DuplicateConnection,
    /// `write` was handed a connection this writer never issued.
    UnknownConnection,
    /// The metadata document declares a schema version newer than 5.
    UnsupportedVersion,
    /// The metadata document declares a compression mode.
    UnsupportedCompression,
    /// A topic uses a serialization format other than "cdr".
    UnsupportedSerialization,
    /// The metadata document names a storage backend other than "sqlite3".
    UnsupportedStorage,
    /// A database file lacks the required tables.
    CorruptOrUnsupported,
    /// A query was attempted before any database file was opened.
    BackendNotOpen,
    /// The storage engine reported a failure.
    Storage,
}

/// A registered (topic, message type) pair with its assigned id: the unit
/// of write authorization and of read-side filtering.
#[derive(Debug)]
pub struct TopicConnection {
    pub id: i32,
    pub topic: String,
    pub msgtype: String,
    pub msgcount: i32,
    pub ext: ConnectionExt,
}

/// The parts of a connection specific to bag format version 2 and later.
#[derive(Debug)]
pub struct ConnectionExt {
    pub serialization_format: String,
    pub offered_qos_profiles: String,
}

/// Per-topic summary handed out by `Reader::topics`.
#[derive(Debug)]
pub struct TopicInfo {
    pub msgtype: String,
    pub msgcount: i32,
    pub connections: Vec<TopicConnection>,
}

impl Clone for ConnectionExt {
    fn clone(&self) -> (r: Self)
        ensures
            r == *self,
    {
        ConnectionExt {
            serialization_format: self.serialization_format.clone(),
            offered_qos_profiles: self.offered_qos_profiles.clone(),
        }
    }
}

impl Clone for TopicConnection {
    fn clone(&self) -> (r: Self)
        ensures
            r == *self,
    {
        TopicConnection {
            id: self.id,
            topic: self.topic.clone(),
            msgtype: self.msgtype.clone(),
            msgcount: self.msgcount,
            ext: self.ext.clone(),
        }
    }
}

impl TopicInfo {
    pub fn new(msgtype: String, msgcount: i32, connections: Vec<TopicConnection>) -> (r: Self)
        ensures
            r.msgtype == msgtype,
            r.msgcount == msgcount,
            r.connections == connections,
    {
        TopicInfo { msgtype, msgcount, connections }
    }
}

/// The string without its trailing `/` separators.
pub open spec fn drop_trailing_slashes(s: Seq<char>) -> Seq<char>
    decreases s.len(),
{
    if s.len() > 0 && s.last() == '/' {
        drop_trailing_slashes(s.drop_last())
    } else {
        s
    }
}

/// Everything after the final `/` (the whole string when there is none).
pub open spec fn suffix_after_last_slash(s: Seq<char>) -> Seq<char>
    decreases s.len(),
{
    if s.len() == 0 {
        s
    } else if s.last() == '/' {
        Seq::empty()
    } else {
        suffix_after_last_slash(s.drop_last()).push(s.last())
    }
}

/// The path's last component: trailing separators are skipped, then
/// everything after the final `/` is taken.  A final `.` or `..`
/// component is treated as a plain name.
pub open spec fn basename_of(s: Seq<char>) -> Seq<char> {
    suffix_after_last_slash(drop_trailing_slashes(s))
}

proof fn lemma_suffix_after_last_slash(s: Seq<char>, k: int)
    requires
        0 <= k <= s.len(),
        forall|i: int| k <= i < s.len() ==> s[i] != '/',
        k > 0 ==> s[k - 1] == '/',
    ensures
        suffix_after_last_slash(s) == s.subrange(k, s.len() as int),
    decreases s.len(),
{
    if s.len() == 0 {
        assert(s.subrange(0, 0) =~= s);
    } else if k == s.len() {
        assert(s.last() == s[k - 1]);
        assert(suffix_after_last_slash(s) =~= s.subrange(k, s.len() as int));
    } else {
        assert(s.last() == s[s.len() - 1]);
        lemma_suffix_after_last_slash(s.drop_last(), k);
        assert(s.drop_last().subrange(k, s.len() - 1).push(s.last()) =~= s.subrange(
            k,
            s.len() as int,
        ));
    }
}

/// The path's last component, per [`basename_of`].
pub fn basename(s: &str) -> (r: &str)
    ensures
        r@ == basename_of(s@),
{
    let n = s.unicode_len();
    let mut e: usize = n;
    proof {
        assert(s@.subrange(0, n as int) =~= s@);
    }
    loop
        invariant_except_break
            e <= n,
            n == s@.len(),
            drop_trailing_slashes(s@) == drop_trailing_slashes(s@.subrange(0, e as int)),
        ensures
            e <= n,
            n == s@.len(),
            drop_trailing_slashes(s@) == s@.subrange(0, e as int),
        decreases e,
    {
        if e == 0 {
            proof {
                assert(s@.subrange(0, 0) =~= Seq::<char>::empty());
            }
            break;
        }
        if s.get_char(e - 1) != '/' {
            break;
        }
        proof {
            assert(s@.subrange(0, e as int).drop_last() =~= s@.subrange(0, e - 1));
        }
        e = e - 1;
    }
    let mut k: usize = e;
    loop
        invariant_except_break
            k <= e <= n,
            n == s@.len(),
            forall|i: int| k <= i < e ==> s@[i] != '/',
        ensures
            k <= e <= n,
            n == s@.len(),
            forall|i: int| k <= i < e ==> s@[i] != '/',
            k == 0 || s@[k - 1] == '/',
        decreases k,
    {
        if k == 0 {
            break;
        }
        if s.get_char(k - 1) == '/' {
            break;
        }
        k = k - 1;
    }
    let r = s.substring_char(k, e);
    proof {
        let t = s@.subrange(0, e as int);
        lemma_suffix_after_last_slash(t, k as int);
        assert(t.subrange(k as int, e as int) =~= s@.subrange(k as int, e as int));
    }
    r
}

/// Joins a directory path and a name inside it with a `/` separator.
pub fn join_path(dir: &str, name: &str) -> (r: String)
    ensures
        r@ == dir@ + "/"@ + name@,
{
    let mut r = String::from_str(dir);
    r.append("/");
    r.append(name);
    proof {
        assert(r@ =~= dir@ + "/"@ + name@);
    }
    r
}

} // verus!
