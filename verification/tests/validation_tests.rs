use rosbag2_rs::metadata::BagDuration;
use rosbag2_rs::metadata::BagFileInfo;
use rosbag2_rs::metadata::Metadata;
use rosbag2_rs::metadata::StartingTime;
use rosbag2_rs::metadata::TopicMetadata;
use rosbag2_rs::metadata::TopicWithMessageCount;
use rosbag2_rs::reader::Reader;
use rosbag2_rs::sqlite3_storage::Sqlite3Reader;
use rosbag2_rs::writer::Writer;
use rosbag2_rs::Error;

fn make_metadata() -> Metadata {
    Metadata {
        version: 5,
        storage_identifier: String::from("sqlite3"),
        relative_file_paths: vec![String::from("bag.db3")],
        starting_time: StartingTime {
            nanoseconds_since_epoch: 0,
        },
        duration: BagDuration { nanoseconds: 0 },
        message_count: 1,
        compression_format: String::new(),
        compression_mode: String::new(),
        topics_with_message_count: vec![TopicWithMessageCount {
            message_count: 1,
            topic_metadata: TopicMetadata {
                name: String::from("topic1"),
                type_: String::from("msgtype1"),
                serialization_format: String::from("cdr"),
                offered_qos_profiles: String::new(),
            },
        }],
        files: vec![],
        custom_data: vec![],
        ros_distro: String::from("rosbags"),
    }
}

#[test]
fn test_unsupported_version_rejected() {
    let mut m = make_metadata();
    m.version = 6;
    let r = Reader::new("/nonexistent", BagFileInfo {
        rosbag2_bagfile_information: m,
    });
    assert_eq!(r.err().unwrap(), Error::UnsupportedVersion);
}

#[test]
fn test_unsupported_compression_rejected() {
    let mut m = make_metadata();
    m.compression_mode = String::from("file");
    let r = Reader::new("/nonexistent", BagFileInfo {
        rosbag2_bagfile_information: m,
    });
    assert_eq!(r.err().unwrap(), Error::UnsupportedCompression);
}

#[test]
fn test_unsupported_serialization_rejected() {
    let mut m = make_metadata();
    m.topics_with_message_count[0]
        .topic_metadata
        .serialization_format = String::from("raw");
    let r = Reader::new("/nonexistent", BagFileInfo {
        rosbag2_bagfile_information: m,
    });
    assert_eq!(r.err().unwrap(), Error::UnsupportedSerialization);
}

#[test]
fn test_unsupported_storage_rejected() {
    let mut m = make_metadata();
    m.storage_identifier = String::from("mcap");
    let r = Reader::new("/nonexistent", BagFileInfo {
        rosbag2_bagfile_information: m,
    });
    assert_eq!(r.err().unwrap(), Error::UnsupportedStorage);
}

#[test]
fn test_missing_database_file_rejected() {
    let dir = tempfile::tempdir().unwrap();
    let m = make_metadata();
    let r = Reader::new(dir.path().to_str().unwrap(), BagFileInfo {
        rosbag2_bagfile_information: m,
    });
    assert_eq!(r.err().unwrap(), Error::Storage);
}

#[test]
fn test_database_missing_tables_rejected() {
    let dir = tempfile::tempdir().unwrap();
    // A real database file under the expected name, but without the
    // required tables.
    let db_path = dir.path().join("bag.db3");
    let conn = rusqlite::Connection::open(&db_path).unwrap();
    conn.execute_batch("CREATE TABLE unrelated(x INTEGER);").unwrap();
    drop(conn);

    let m = make_metadata();
    let r = Reader::new(dir.path().to_str().unwrap(), BagFileInfo {
        rosbag2_bagfile_information: m,
    });
    assert_eq!(r.err().unwrap(), Error::CorruptOrUnsupported);
}

fn reader_without_storage(m: Metadata) -> Reader {
    Reader {
        metadata: m,
        connections: vec![],
        storage: Sqlite3Reader {
            paths: vec![],
            dbconns: vec![],
            schema: 0,
        },
    }
}

#[test]
fn test_compression_mode_lowercases_and_filters_none() {
    let mut m = make_metadata();
    m.compression_mode = String::from("NoNe");
    let reader = reader_without_storage(m);
    assert_eq!(reader.compression_mode(), None);

    let mut m = make_metadata();
    m.compression_mode = String::from("ZSTD");
    let reader = reader_without_storage(m);
    assert_eq!(reader.compression_mode(), Some(String::from("zstd")));

    // The validated case: an empty mode is not "none".
    let reader = reader_without_storage(make_metadata());
    assert_eq!(reader.compression_mode(), Some(String::new()));
}

#[test]
fn test_reader_without_open_backend() {
    let reader = reader_without_storage(make_metadata());
    assert_eq!(
        reader.read_messages(None, None).err().unwrap(),
        Error::BackendNotOpen
    );
}

#[test]
fn test_schema_version_inferred_from_topic_columns() {
    // A file without a schema table: the version comes from probing the
    // topics table's columns.
    let dir = tempfile::tempdir().unwrap();
    let v2_path = dir.path().join("v2.db3");
    let conn = rusqlite::Connection::open(&v2_path).unwrap();
    conn.execute_batch(
        "CREATE TABLE topics(id INTEGER PRIMARY KEY, name TEXT NOT NULL, type TEXT NOT NULL, serialization_format TEXT NOT NULL, offered_qos_profiles TEXT NOT NULL);
         CREATE TABLE messages(id INTEGER PRIMARY KEY, topic_id INTEGER NOT NULL, timestamp INTEGER NOT NULL, data BLOB NOT NULL);",
    )
    .unwrap();
    drop(conn);
    let mut storage = Sqlite3Reader::new(vec![v2_path.to_str().unwrap().to_string()]);
    storage.open().unwrap();
    assert_eq!(storage.schema, 2);

    let v1_path = dir.path().join("v1.db3");
    let conn = rusqlite::Connection::open(&v1_path).unwrap();
    conn.execute_batch(
        "CREATE TABLE topics(id INTEGER PRIMARY KEY, name TEXT NOT NULL, type TEXT NOT NULL, serialization_format TEXT NOT NULL);
         CREATE TABLE messages(id INTEGER PRIMARY KEY, topic_id INTEGER NOT NULL, timestamp INTEGER NOT NULL, data BLOB NOT NULL);",
    )
    .unwrap();
    drop(conn);
    let mut storage = Sqlite3Reader::new(vec![v1_path.to_str().unwrap().to_string()]);
    storage.open().unwrap();
    assert_eq!(storage.schema, 1);
}

#[test]
fn test_schema_version_detected_from_schema_table() {
    let dir = tempfile::tempdir().unwrap();
    let path = dir.path().to_str().unwrap();

    let mut writer = Writer::new(path);
    writer.open().unwrap();
    writer.add_connection("topic1", "msgtype1", "cdr", "").unwrap();
    let bag_info = writer.close().unwrap();

    // The written schema table carries version 4.
    let reader = Reader::new(path, bag_info).unwrap();
    assert_eq!(reader.storage.schema, 4);
}
