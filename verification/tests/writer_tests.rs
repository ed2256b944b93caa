use rosbag2_rs::writer::Writer;
use rosbag2_rs::Error;

#[test]
fn test_writer_creation_and_opening() {
    let dir = tempfile::tempdir().unwrap();
    let path = dir.path().to_str().unwrap();

    let mut writer = Writer::new(path);
    assert!(writer.open().is_ok());

    // Open the SQLite database and check that the four schema tables exist.
    let conn = rusqlite::Connection::open(&writer.dbpath).unwrap();

    let tables = ["schema", "metadata", "topics", "messages"];

    for &table in &tables {
        let exists: i32 = conn
            .query_row(
                "SELECT count(*) FROM sqlite_master WHERE type='table' AND name=?1;",
                [table],
                |row| row.get(0),
            )
            .unwrap();
        assert_eq!(exists, 1, "Table {} does not exist", table);
    }
}

#[test]
fn test_open_existing_db() {
    let dir = tempfile::tempdir().unwrap();
    let base = dir.path().file_name().unwrap().to_str().unwrap();
    let db_path = dir.path().join(format!("{}.db3", base));

    // Create a file at the target path to simulate an existing database.
    let dummy = rusqlite::Connection::open(&db_path).unwrap();
    drop(dummy);

    let mut writer = Writer::new(dir.path().to_str().unwrap());
    let result = writer.open();
    assert!(
        result.is_err(),
        "Expected error when opening existing database, but got Ok"
    );
}

#[test]
fn test_write_operations() {
    let dir = tempfile::tempdir().unwrap();

    let mut writer = Writer::new(dir.path().to_str().unwrap());
    writer.open().unwrap();

    // Add a dummy connection
    let connection = writer.add_connection("topic1", "msgtype1", "cdr", "").unwrap();

    // Write dummy messages
    for i in 0..10 {
        writer.write(&connection, i as i64, &[i as u8]).unwrap();
    }

    // Close the writer to flush all data to the database
    let dbpath = writer.dbpath.clone();
    let bag_info = writer.close().unwrap();

    // Open the SQLite database to verify the data
    let db_conn = rusqlite::Connection::open(&dbpath).unwrap();
    let mut stmt = db_conn
        .prepare("SELECT data FROM messages WHERE topic_id = ?")
        .unwrap();
    let mut rows = stmt.query([connection.id.to_string().as_str()]).unwrap();

    let mut i = 0;
    while let Some(row) = rows.next().unwrap() {
        let data: Vec<u8> = row.get(0).unwrap();
        assert_eq!(data, vec![i as u8]);
        i += 1;
    }

    assert_eq!(i, 10); // Ensure we read back 10 messages

    // Also check the closing metadata document.
    let metadata = bag_info.rosbag2_bagfile_information;
    assert_eq!(metadata.message_count, 10);
    assert_eq!(metadata.topics_with_message_count.len(), 1);
    assert_eq!(metadata.topics_with_message_count[0].message_count, 10);
}

#[test]
fn test_writer_paths_derived_from_directory() {
    let dir = tempfile::tempdir().unwrap();
    let path = dir.path().to_str().unwrap();
    let base = dir.path().file_name().unwrap().to_str().unwrap();

    let writer = Writer::new(path);
    assert_eq!(writer.metapath, format!("{}/metadata.yaml", path));
    assert_eq!(writer.dbpath, format!("{}/{}.db3", path, base));
}

#[test]
fn test_connection_ids_are_consecutive() {
    let dir = tempfile::tempdir().unwrap();
    let mut writer = Writer::new(dir.path().to_str().unwrap());
    writer.open().unwrap();

    let c1 = writer.add_connection("a", "t1", "cdr", "").unwrap();
    let c2 = writer.add_connection("b", "t1", "cdr", "").unwrap();
    let c3 = writer.add_connection("c", "t2", "cdr", "").unwrap();
    assert_eq!(c1.id, 1);
    assert_eq!(c2.id, 2);
    assert_eq!(c3.id, 3);
}

#[test]
fn test_duplicate_connection_rejected() {
    let dir = tempfile::tempdir().unwrap();
    let mut writer = Writer::new(dir.path().to_str().unwrap());
    writer.open().unwrap();

    writer.add_connection("topic1", "msgtype1", "cdr", "").unwrap();
    let dup = writer.add_connection("topic1", "msgtype1", "cdr", "");
    assert_eq!(dup.unwrap_err(), Error::DuplicateConnection);

    // The same topic with a different msgtype is a second connection.
    let other = writer.add_connection("topic1", "msgtype2", "cdr", "").unwrap();
    assert_eq!(other.id, 2);
}

#[test]
fn test_operations_before_open_fail() {
    let dir = tempfile::tempdir().unwrap();
    let mut writer = Writer::new(dir.path().to_str().unwrap());

    let r = writer.add_connection("topic1", "msgtype1", "cdr", "");
    assert_eq!(r.unwrap_err(), Error::BagNotOpen);

    let stale = rosbag2_rs::TopicConnection {
        id: 1,
        topic: String::from("topic1"),
        msgtype: String::from("msgtype1"),
        msgcount: 0,
        ext: rosbag2_rs::ConnectionExt {
            serialization_format: String::from("cdr"),
            offered_qos_profiles: String::new(),
        },
    };
    assert_eq!(writer.write(&stale, 0, &[1]).unwrap_err(), Error::BagNotOpen);
    assert_eq!(writer.close().unwrap_err(), Error::BagNotOpen);
}

#[test]
fn test_write_unknown_connection_rejected() {
    let dir = tempfile::tempdir().unwrap();
    let mut writer = Writer::new(dir.path().to_str().unwrap());
    writer.open().unwrap();
    writer.add_connection("topic1", "msgtype1", "cdr", "").unwrap();

    // A connection value from some other bag: same id, different topic.
    let stale = rosbag2_rs::TopicConnection {
        id: 1,
        topic: String::from("other_topic"),
        msgtype: String::from("msgtype1"),
        msgcount: 0,
        ext: rosbag2_rs::ConnectionExt {
            serialization_format: String::from("cdr"),
            offered_qos_profiles: String::new(),
        },
    };
    assert_eq!(
        writer.write(&stale, 0, &[1]).unwrap_err(),
        Error::UnknownConnection
    );
}

#[test]
fn test_existing_file_left_untouched() {
    let dir = tempfile::tempdir().unwrap();
    let base = dir.path().file_name().unwrap().to_str().unwrap();
    let db_path = dir.path().join(format!("{}.db3", base));

    // Put a database with a marker table at the target path.
    let pre = rusqlite::Connection::open(&db_path).unwrap();
    pre.execute_batch("CREATE TABLE marker(x INTEGER); INSERT INTO marker VALUES (7);")
        .unwrap();
    drop(pre);

    let mut writer = Writer::new(dir.path().to_str().unwrap());
    assert_eq!(writer.open().unwrap_err(), Error::AlreadyExists);

    // The pre-existing file still holds exactly what it held before.
    let conn = rusqlite::Connection::open(&db_path).unwrap();
    let x: i64 = conn
        .query_row("SELECT x FROM marker", [], |row| row.get(0))
        .unwrap();
    assert_eq!(x, 7);
    let schema_tables: i64 = conn
        .query_row(
            "SELECT count(*) FROM sqlite_master WHERE type='table' AND name IN ('messages', 'topics')",
            [],
            |row| row.get(0),
        )
        .unwrap();
    assert_eq!(schema_tables, 0);
}

#[test]
fn test_empty_bag_close() {
    let dir = tempfile::tempdir().unwrap();
    let mut writer = Writer::new(dir.path().to_str().unwrap());
    writer.open().unwrap();
    let bag_info = writer.close().unwrap();
    let m = bag_info.rosbag2_bagfile_information;
    assert_eq!(m.message_count, 0);
    assert_eq!(m.duration.nanoseconds, 0);
    assert_eq!(m.starting_time.nanoseconds_since_epoch, i64::MAX);
    assert_eq!(m.version, 5);
    assert_eq!(m.storage_identifier, "sqlite3");
    assert_eq!(m.compression_format, "");
    assert_eq!(m.compression_mode, "");
    assert_eq!(m.ros_distro, "rosbags");
}
