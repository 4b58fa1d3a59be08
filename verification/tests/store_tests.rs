use bytes::Bytes;
use mini_redis::Frame;
use tokio_playground::request_response::RequestSender;
use tokio_playground::sharded::{new_sharded_db, shard_for_key, shard_index, shard_of_command};
use tokio_playground::store::{Command, Db, ProcessError, ReplyFrame};

fn bulk(s: &str) -> Frame {
    Frame::Bulk(Bytes::from(s.to_string()))
}

fn command_frame(parts: &[&str]) -> Frame {
    Frame::Array(parts.iter().map(|p| bulk(p)).collect())
}

fn is_ok(frame: &ReplyFrame) -> bool {
    matches!(frame, ReplyFrame::Simple(s) if s == "OK")
}

fn bulk_of(frame: &ReplyFrame) -> Option<Vec<u8>> {
    match frame {
        ReplyFrame::Bulk(v) => Some(v.clone()),
        _ => None,
    }
}

#[test]
fn get_on_empty_store_is_null() {
    let mut db = Db::new();
    let reply = db.apply(Command::Get { key: "hello".to_string() });
    assert!(matches!(reply, ReplyFrame::Null));
}

#[test]
fn set_replies_ok() {
    let mut db = Db::new();
    let reply = db.apply(Command::Put { key: "hello".to_string(), value: b"world".to_vec() });
    assert!(is_ok(&reply));
}

#[test]
fn get_after_set_gives_value() {
    let mut db = Db::new();
    db.apply(Command::Put { key: "hello".to_string(), value: b"world".to_vec() });
    let reply = db.apply(Command::Get { key: "hello".to_string() });
    assert_eq!(bulk_of(&reply), Some(b"world".to_vec()));
}

#[test]
fn second_set_replaces_first() {
    let mut db = Db::new();
    db.apply(Command::Put { key: "k".to_string(), value: b"one".to_vec() });
    db.apply(Command::Put { key: "k".to_string(), value: b"two".to_vec() });
    let reply = db.apply(Command::Get { key: "k".to_string() });
    assert_eq!(bulk_of(&reply), Some(b"two".to_vec()));
}

#[test]
fn set_of_other_key_leaves_get() {
    let mut db = Db::new();
    db.apply(Command::Put { key: "a".to_string(), value: b"1".to_vec() });
    let reply = db.apply(Command::Get { key: "b".to_string() });
    assert!(matches!(reply, ReplyFrame::Null));
}

#[test]
fn process_set_then_get_frames() {
    let mut db = Db::new();
    let set = db.process_frame(command_frame(&["set", "hello", "world"])).unwrap();
    assert!(is_ok(&set));
    let get = db.process_frame(command_frame(&["GET", "hello"])).unwrap();
    assert_eq!(bulk_of(&get), Some(b"world".to_vec()));
}

#[test]
fn process_get_of_missing_key_is_null() {
    let mut db = Db::new();
    let get = db.process_frame(command_frame(&["get", "nothing"])).unwrap();
    assert!(matches!(get, ReplyFrame::Null));
}

#[test]
fn process_unknown_command_is_unimplemented() {
    let mut db = Db::new();
    let out = db.process_frame(command_frame(&["ping"]));
    assert!(matches!(out, Err(ProcessError::Unimplemented(_))));
}

#[test]
fn process_non_array_frame_is_invalid() {
    let mut db = Db::new();
    let out = db.process_frame(Frame::Simple("get".to_string()));
    assert!(matches!(out, Err(ProcessError::Invalid(_))));
}

#[test]
fn process_publish_is_unimplemented() {
    let mut db = Db::new();
    let out = db.process_frame(command_frame(&["publish", "chan", "msg"]));
    assert!(matches!(out, Err(ProcessError::Unimplemented(_))));
}

#[test]
fn new_sharded_db_has_the_shards_asked_for() {
    let db = new_sharded_db(4);
    assert_eq!(db.num_shards(), 4);
    let empty = new_sharded_db(0);
    assert_eq!(empty.num_shards(), 0);
}

#[test]
fn sharded_get_after_set_gives_value() {
    let mut db = new_sharded_db(4);
    for (k, v) in [("a", "1"), ("b", "2"), ("c", "3"), ("hello", "world")] {
        let r = db.apply(Command::Put { key: k.to_string(), value: v.as_bytes().to_vec() });
        assert!(is_ok(&r));
    }
    for (k, v) in [("a", "1"), ("b", "2"), ("c", "3"), ("hello", "world")] {
        let r = db.apply(Command::Get { key: k.to_string() });
        assert_eq!(bulk_of(&r), Some(v.as_bytes().to_vec()));
    }
    let r = db.apply(Command::Get { key: "missing".to_string() });
    assert!(matches!(r, ReplyFrame::Null));
}

#[test]
fn sharded_process_frames() {
    let mut db = new_sharded_db(3);
    assert!(is_ok(&db.process_frame(command_frame(&["set", "hello", "world"])).unwrap()));
    let get = db.process_frame(command_frame(&["get", "hello"])).unwrap();
    assert_eq!(bulk_of(&get), Some(b"world".to_vec()));
    assert!(matches!(
        db.process_frame(command_frame(&["subscribe", "c"])),
        Err(ProcessError::Unimplemented(_))
    ));
}

#[test]
fn shard_index_is_remainder() {
    assert_eq!(shard_index(10, 4), 2);
    assert_eq!(shard_index(7, 7), 0);
    assert_eq!(shard_index(u64::MAX, 10), 5);
}

#[test]
fn shard_for_key_is_stable_and_in_range() {
    for key in ["a", "hello", "", "some longer key"] {
        let first = shard_for_key(key, 5);
        assert!(first < 5);
        assert_eq!(first, shard_for_key(key, 5));
    }
}

#[test]
fn get_leaves_the_store_as_it_is() {
    let mut db = Db::new();
    db.apply(Command::Put { key: "k".to_string(), value: b"v".to_vec() });
    let first = db.apply(Command::Get { key: "k".to_string() });
    let second = db.apply(Command::Get { key: "k".to_string() });
    assert_eq!(bulk_of(&first), bulk_of(&second));
    assert_eq!(bulk_of(&second), Some(b"v".to_vec()));
}

#[test]
fn sharded_store_answers_as_one_store() {
    let script: Vec<(&str, Option<&str>)> = vec![
        ("a", Some("1")),
        ("b", None),
        ("a", None),
        ("b", Some("2")),
        ("a", Some("3")),
        ("a", None),
        ("b", None),
        ("c", None),
        ("x", Some("")),
        ("x", None),
    ];
    let mut single = Db::new();
    let mut sharded = new_sharded_db(3);
    for (key, value) in script {
        let cmd = || match value {
            Some(v) => Command::Put { key: key.to_string(), value: v.as_bytes().to_vec() },
            None => Command::Get { key: key.to_string() },
        };
        let a = single.apply(cmd());
        let b = sharded.apply(cmd());
        assert_eq!(is_ok(&a), is_ok(&b));
        assert_eq!(bulk_of(&a), bulk_of(&b));
        assert_eq!(matches!(a, ReplyFrame::Null), matches!(b, ReplyFrame::Null));
    }
}

#[test]
fn keys_sit_in_their_own_shard_only() {
    let mut db = new_sharded_db(4);
    let keys = ["a", "b", "c", "hello", "world", "k1", "k2"];
    for k in keys {
        db.apply(Command::Put { key: k.to_string(), value: k.as_bytes().to_vec() });
    }
    let mut shards = db.into_shards();
    assert_eq!(shards.len(), 4);
    for k in keys {
        let home = shard_of_command(&Command::Get { key: k.to_string() }, 4);
        assert_eq!(home, shard_for_key(k, 4));
        for (i, shard) in shards.iter_mut().enumerate() {
            let reply = shard.apply(Command::Get { key: k.to_string() });
            if i == home {
                assert_eq!(bulk_of(&reply), Some(k.as_bytes().to_vec()));
            } else {
                assert!(matches!(reply, ReplyFrame::Null));
            }
        }
    }
}

#[test]
fn take_pending_gives_the_paired_receiver() {
    let (payload, mut waiting) = RequestSender::<String, String>::prepare("q".to_string());
    let (_req, responder) = payload;
    assert!(responder.send("a".to_string()).is_ok());
    let mut rx = waiting.take_pending().unwrap();
    assert_eq!(rx.try_recv().unwrap(), "a");
}
