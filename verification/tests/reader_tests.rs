use std::cell::RefCell;
use std::rc::Rc;

use rosbag2_rs::reader::Reader;
use rosbag2_rs::writer::Writer;

#[test]
fn test_messages_iterator_initialization() {
    // Initialize with mock data and verify properties

    let dir = tempfile::tempdir().unwrap();
    let path = dir.path().to_str().unwrap();

    let mut writer = Writer::new(path);
    writer.open().unwrap();

    // Add a dummy connection
    let connection = writer.add_connection("topic1", "msgtype1", "cdr", "").unwrap();

    // Write dummy messages
    for i in 0..10 {
        writer.write(&connection, i as i64, &[(i * 2 + 1) as u8]).unwrap();
    }

    // Add a dummy connection
    let connection = writer.add_connection("topic2", "msgtype2", "cdr", "").unwrap();

    // Write dummy messages
    for i in 0..10 {
        writer.write(&connection, i as i64, &[(i * 2) as u8]).unwrap();
    }

    let bag_info = writer.close().unwrap();

    let reader = Reader::new(path, bag_info).unwrap();

    assert_eq!(reader.connections.len(), 2);
    assert_eq!(reader.connections[0].topic, "topic1");
    assert_eq!(reader.connections[0].msgtype, "msgtype1");
    assert_eq!(reader.connections[0].msgcount, 10);

    assert_eq!(reader.duration(), 10);

    let msg_data: Vec<(i64, i64, Vec<u8>)> = vec![];
    let msg_data = Rc::new(RefCell::new(msg_data)); // Wrap the vector in Rc and RefCell

    reader
        .handle_messages(
            |(id, timestamp, data): (i64, i64, Vec<u8>)| -> Result<(), ()> {
                println!("processed message: {:?} {:?} {:?}", id, timestamp, data);

                msg_data.borrow_mut().push((id, timestamp, data));
                Ok(())
            },
            None,
            None,
        )
        .unwrap();

    assert_eq!(msg_data.borrow().len(), 20);
}

#[test]
fn test_half_open_time_filter() {
    let dir = tempfile::tempdir().unwrap();
    let path = dir.path().to_str().unwrap();

    let mut writer = Writer::new(path);
    writer.open().unwrap();
    let connection = writer.add_connection("topic1", "msgtype1", "cdr", "").unwrap();
    for i in 0..10 {
        writer.write(&connection, i as i64, &[i as u8]).unwrap();
    }
    let bag_info = writer.close().unwrap();

    let reader = Reader::new(path, bag_info).unwrap();
    let stamps: Rc<RefCell<Vec<i64>>> = Rc::new(RefCell::new(vec![]));
    reader
        .handle_messages(
            |(_, timestamp, _): (i64, i64, Vec<u8>)| -> Result<(), ()> {
                stamps.borrow_mut().push(timestamp);
                Ok(())
            },
            Some(3),
            Some(7),
        )
        .unwrap();
    assert_eq!(*stamps.borrow(), vec![3, 4, 5, 6]);
}

#[test]
fn test_read_back_sorted_regardless_of_write_order() {
    let dir = tempfile::tempdir().unwrap();
    let path = dir.path().to_str().unwrap();

    let mut writer = Writer::new(path);
    writer.open().unwrap();
    let connection = writer.add_connection("topic1", "msgtype1", "cdr", "").unwrap();
    let stamps = [5i64, 1, 9, 3, 7, 0, 8, 2, 6, 4];
    for (i, ts) in stamps.iter().enumerate() {
        writer.write(&connection, *ts, &[i as u8]).unwrap();
    }
    let bag_info = writer.close().unwrap();

    let reader = Reader::new(path, bag_info).unwrap();
    let rows = reader.read_messages(None, None).unwrap();
    assert_eq!(rows.len(), stamps.len());
    for w in rows.windows(2) {
        assert!(w[0].1 <= w[1].1);
    }
    let seen: Vec<i64> = rows.iter().map(|r| r.1).collect();
    assert_eq!(seen, vec![0, 1, 2, 3, 4, 5, 6, 7, 8, 9]);
}

#[test]
fn test_round_trip_counts_and_duration() {
    let dir = tempfile::tempdir().unwrap();
    let path = dir.path().to_str().unwrap();

    let mut writer = Writer::new(path);
    writer.open().unwrap();
    let c1 = writer.add_connection("topic1", "msgtype1", "cdr", "").unwrap();
    let c2 = writer.add_connection("topic2", "msgtype2", "cdr", "").unwrap();
    for i in 0..4 {
        writer.write(&c1, 10 + i as i64, &[i as u8]).unwrap();
    }
    for i in 0..3 {
        writer.write(&c2, 20 + i as i64, &[i as u8]).unwrap();
    }
    let bag_info = writer.close().unwrap();

    let reader = Reader::new(path, bag_info).unwrap();
    assert_eq!(reader.message_count(), 7);
    assert_eq!(reader.connections[0].msgcount, 4);
    assert_eq!(reader.connections[1].msgcount, 3);
    // Messages span timestamps 10..=22: duration is (22 - 10) + 1.
    assert_eq!(reader.duration(), 13);
    assert_eq!(reader.start_time(), 10);
    assert_eq!(reader.end_time(), 23);
}

#[test]
fn test_empty_bag_reader_sentinels() {
    let dir = tempfile::tempdir().unwrap();
    let path = dir.path().to_str().unwrap();

    let mut writer = Writer::new(path);
    writer.open().unwrap();
    let bag_info = writer.close().unwrap();

    let reader = Reader::new(path, bag_info).unwrap();
    assert_eq!(reader.message_count(), 0);
    assert_eq!(reader.start_time(), i64::MAX);
    assert_eq!(reader.duration(), 0);
    assert_eq!(reader.end_time(), i64::MAX);
}

#[test]
fn test_two_topic_scenario() {
    let dir = tempfile::tempdir().unwrap();
    let path = dir.path().to_str().unwrap();

    let mut writer = Writer::new(path);
    writer.open().unwrap();
    let c1 = writer.add_connection("topic1", "msgtype1", "cdr", "").unwrap();
    for i in 0..10 {
        writer.write(&c1, i as i64, &[(2 * i + 1) as u8]).unwrap();
    }
    let c2 = writer.add_connection("topic2", "msgtype2", "cdr", "").unwrap();
    for i in 0..10 {
        writer.write(&c2, i as i64, &[(2 * i) as u8]).unwrap();
    }
    let bag_info = writer.close().unwrap();

    let reader = Reader::new(path, bag_info).unwrap();
    let topics = reader.topics();
    assert_eq!(topics.len(), 2);
    assert_eq!(topics[0].0, "topic1");
    assert_eq!(topics[0].1.msgcount, 10);
    assert_eq!(topics[0].1.msgtype, "msgtype1");
    assert_eq!(topics[1].0, "topic2");
    assert_eq!(topics[1].1.msgcount, 10);
    assert_eq!(topics[1].1.msgtype, "msgtype2");

    let rows = reader.read_messages(None, None).unwrap();
    assert_eq!(rows.len(), 20);

    assert_eq!(reader.ros_distro(), "rosbags");
    assert_eq!(reader.compression_format(), "");
}
