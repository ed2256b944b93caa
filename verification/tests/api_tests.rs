use std::cell::RefCell;
use std::rc::Rc;

use rosbag2_rs::basename;
use rosbag2_rs::join_path;
use rosbag2_rs::reader::Reader;
use rosbag2_rs::sqlite3_storage::handle_messages;
use rosbag2_rs::writer::Writer;
use rosbag2_rs::Error;

#[test]
fn test_path_helpers() {
    assert_eq!(basename("a/b/c"), "c");
    assert_eq!(basename("abc"), "abc");
    assert_eq!(basename("a/"), "a");
    assert_eq!(basename("a/b//"), "b");
    assert_eq!(basename("///"), "");
    assert_eq!(basename(""), "");
    assert_eq!(join_path("a/b", "c.db3"), "a/b/c.db3");
}

#[test]
fn test_handle_messages_continues_after_callback_error() {
    let rows: Vec<(i64, i64, Vec<u8>)> = vec![
        (1, 0, vec![0]),
        (1, 1, vec![1]),
        (1, 2, vec![2]),
    ];
    let seen: Rc<RefCell<Vec<i64>>> = Rc::new(RefCell::new(vec![]));
    let r = handle_messages(rows, |(_, timestamp, _): (i64, i64, Vec<u8>)| -> Result<(), ()> {
        seen.borrow_mut().push(timestamp);
        if timestamp == 1 {
            Err(())
        } else {
            Ok(())
        }
    });
    // A per-row callback failure does not abort the scan.
    assert!(r.is_ok());
    assert_eq!(*seen.borrow(), vec![0, 1, 2]);
}

#[test]
fn test_reader_backend_close_and_reopen() {
    let dir = tempfile::tempdir().unwrap();
    let path = dir.path().to_str().unwrap();

    let mut writer = Writer::new(path);
    writer.open().unwrap();
    let c = writer.add_connection("topic1", "msgtype1", "cdr", "").unwrap();
    writer.write(&c, 1, &[1]).unwrap();
    let bag_info = writer.close().unwrap();

    let mut reader = Reader::new(path, bag_info).unwrap();
    assert_eq!(reader.read_messages(None, None).unwrap().len(), 1);

    reader.storage.close();
    assert_eq!(
        reader.read_messages(None, None).err().unwrap(),
        Error::BackendNotOpen
    );

    reader.open().unwrap();
    assert_eq!(reader.read_messages(None, None).unwrap().len(), 1);
}
