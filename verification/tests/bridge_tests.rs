use rocksdb_bridge::engine::Db;
use rocksdb_bridge::reader::{AsyncOperationHandle, AsyncReader, PollOutcome, ReadOptions};
use rocksdb_bridge::status::StatusCode;

/// Polls every handle in a spin loop, letting the modelled kernel finish
/// one submission whenever a full round made no progress, until all
/// handles resolved: the shape of a join-all combinator on a spinning
/// executor.
fn drive_all(
    reader: &mut AsyncReader,
    handles: &[AsyncOperationHandle],
) -> Vec<(String, StatusCode)> {
    let mut results: Vec<Option<(String, StatusCode)>> = Vec::new();
    for _ in handles {
        results.push(None);
    }
    let mut unresolved = handles.len();
    while unresolved > 0 {
        let mut progressed = false;
        for i in 0..handles.len() {
            if results[i].is_none() {
                match reader.poll_read(&handles[i]) {
                    PollOutcome::Ready(value, status) => {
                        results[i] = Some((value, status.err().0));
                        unresolved -= 1;
                        progressed = true;
                    }
                    PollOutcome::Pending => {}
                    PollOutcome::Misuse => panic!("poll reported misuse"),
                }
            }
        }
        if unresolved > 0 && !progressed {
            reader.deliver_completions(1);
        }
    }
    let mut out: Vec<(String, StatusCode)> = Vec::new();
    for r in results {
        match r {
            Some(pair) => out.push(pair),
            None => unreachable!(),
        }
    }
    out
}

fn populate() -> Db {
    let mut db = Db::new();
    for i in 1..1001 {
        if i == 3 {
            continue;
        }
        let k = format!("k{}", i);
        let v = format!("v{}", i);
        db.put(k, v);
    }
    db
}

#[test]
fn async_get_key_test() {
    let db = populate();
    let mut ropts = ReadOptions::new();
    let mut reader = AsyncReader::create(db, 2);
    reader.setup_submission_handler(&mut ropts);

    let mut handles = Vec::new();
    for i in 1..1001 {
        let k = format!("k{}", i);
        handles.push(reader.submit_read(&ropts, k));
    }

    let results = drive_all(&mut reader, &handles);
    assert_eq!(results.len(), 1000);
    let mut hits = 0;
    let mut misses = 0;
    for i in 1..1001 {
        let (value, code) = &results[i - 1];
        if i == 3 {
            assert_eq!(*code, StatusCode::kNotFound);
            assert_eq!(value, "");
            misses += 1;
        } else {
            assert_eq!(*code, StatusCode::kOk);
            assert_eq!(*value, format!("v{}", i));
            hits += 1;
        }
    }
    assert_eq!(hits, 999);
    assert_eq!(misses, 1);
}

#[test]
fn present_key_resolves_to_its_value() {
    let mut db = Db::new();
    db.put(String::from("alpha"), String::from("one"));
    let mut ropts = ReadOptions::new();
    let mut reader = AsyncReader::create(db, 4);
    reader.setup_submission_handler(&mut ropts);
    let h = reader.submit_read(&ropts, String::from("alpha"));
    let results = drive_all(&mut reader, &[h]);
    assert_eq!(results[0].0, "one");
    assert_eq!(results[0].1, StatusCode::kOk);
}

#[test]
fn absent_key_resolves_to_not_found() {
    let mut db = Db::new();
    db.put(String::from("alpha"), String::from("one"));
    let mut ropts = ReadOptions::new();
    let mut reader = AsyncReader::create(db, 4);
    reader.setup_submission_handler(&mut ropts);
    let h = reader.submit_read(&ropts, String::from("beta"));
    let results = drive_all(&mut reader, &[h]);
    assert_eq!(results[0].0, "");
    assert_eq!(results[0].1, StatusCode::kNotFound);
}

#[test]
fn latest_put_wins() {
    let mut db = Db::new();
    db.put(String::from("k"), String::from("old"));
    db.put(String::from("k"), String::from("new"));
    let (value, status) = db.lookup(&String::from("k"));
    assert_eq!(value, "new");
    assert!(status.ok());
}

#[test]
fn second_consuming_poll_is_rejected() {
    let mut db = Db::new();
    db.put(String::from("alpha"), String::from("one"));
    let mut ropts = ReadOptions::new();
    let mut reader = AsyncReader::create(db, 4);
    reader.setup_submission_handler(&mut ropts);
    let h = reader.submit_read(&ropts, String::from("alpha"));
    reader.deliver_completions(1);
    let first = reader.poll_read(&h);
    assert!(matches!(first, PollOutcome::Ready(_, _)));
    let second = reader.poll_read(&h);
    assert!(matches!(second, PollOutcome::Misuse));
}

#[test]
fn foreign_handle_is_rejected() {
    let mut db_a = Db::new();
    db_a.put(String::from("alpha"), String::from("one"));
    let mut ropts_a = ReadOptions::new();
    let mut reader_a = AsyncReader::create(db_a, 4);
    reader_a.setup_submission_handler(&mut ropts_a);
    let _ = reader_a.submit_read(&ropts_a, String::from("alpha"));
    let h_far = reader_a.submit_read(&ropts_a, String::from("alpha"));

    let db_b = Db::new();
    let mut reader_b = AsyncReader::create(db_b, 4);
    let outcome = reader_b.poll_read(&h_far);
    assert!(matches!(outcome, PollOutcome::Misuse));
}

#[test]
fn join_all_resolves_every_read() {
    let mut db = Db::new();
    for i in 0..6 {
        db.put(format!("key{}", i), format!("val{}", i));
    }
    let mut ropts = ReadOptions::new();
    let mut reader = AsyncReader::create(db, 6);
    reader.setup_submission_handler(&mut ropts);
    let mut handles = Vec::new();
    for i in 0..6 {
        handles.push(reader.submit_read(&ropts, format!("key{}", i)));
    }
    assert_eq!(reader.pending_count(), 6);
    let results = drive_all(&mut reader, &handles);
    for i in 0..6 {
        assert_eq!(results[i].0, format!("val{}", i));
        assert_eq!(results[i].1, StatusCode::kOk);
    }
    assert_eq!(reader.pending_count(), 0);
}

#[test]
fn pending_count_reaches_zero_after_reaping_all() {
    let mut db = Db::new();
    for i in 0..5 {
        db.put(format!("key{}", i), format!("val{}", i));
    }
    let mut ropts = ReadOptions::new();
    let mut reader = AsyncReader::create(db, 5);
    reader.setup_submission_handler(&mut ropts);
    for i in 0..5 {
        let _ = reader.submit_read(&ropts, format!("key{}", i));
    }
    assert_eq!(reader.pending_count(), 5);
    let delivered = reader.deliver_completions(5);
    assert_eq!(delivered, 5);
    assert_eq!(reader.pending_count(), 5);
    let reaped = reader.reap_completions();
    assert_eq!(reaped, 5);
    assert_eq!(reader.pending_count(), 0);
}

#[test]
fn reap_after_peek_returns_nonzero() {
    let mut db = Db::new();
    db.put(String::from("alpha"), String::from("one"));
    let mut ropts = ReadOptions::new();
    let mut reader = AsyncReader::create(db, 2);
    reader.setup_submission_handler(&mut ropts);
    let _ = reader.submit_read(&ropts, String::from("alpha"));
    assert!(!reader.peek_completions());
    reader.deliver_completions(1);
    assert!(reader.peek_completions());
    let reaped = reader.reap_completions();
    assert!(reaped > 0);
}

#[test]
fn poll_before_any_completion_is_pending() {
    let mut db = Db::new();
    db.put(String::from("alpha"), String::from("one"));
    let mut ropts = ReadOptions::new();
    let mut reader = AsyncReader::create(db, 2);
    reader.setup_submission_handler(&mut ropts);
    let h = reader.submit_read(&ropts, String::from("alpha"));
    let outcome = reader.poll_read(&h);
    assert!(matches!(outcome, PollOutcome::Pending));
}

#[test]
fn polling_one_handle_resolves_another() {
    let mut db = Db::new();
    db.put(String::from("a"), String::from("1"));
    db.put(String::from("b"), String::from("2"));
    let mut ropts = ReadOptions::new();
    let mut reader = AsyncReader::create(db, 2);
    reader.setup_submission_handler(&mut ropts);
    let h_a = reader.submit_read(&ropts, String::from("a"));
    let h_b = reader.submit_read(&ropts, String::from("b"));
    reader.deliver_completions(2);
    // The poll of one handle drains the whole completion queue, so the
    // other handle's slot resolves as a side effect.
    let first = reader.poll_read(&h_a);
    assert!(matches!(first, PollOutcome::Ready(_, _)));
    assert_eq!(reader.pending_count(), 0);
    let second = reader.poll_read(&h_b);
    match second {
        PollOutcome::Ready(value, status) => {
            assert_eq!(value, "2");
            assert!(status.ok());
        }
        _ => panic!("expected the second handle to be ready"),
    }
}

#[test]
fn reads_without_submission_handler_resolve_synchronously() {
    let mut db = Db::new();
    db.put(String::from("alpha"), String::from("one"));
    let ropts = ReadOptions::new();
    let mut reader = AsyncReader::create(db, 2);
    let h = reader.submit_read(&ropts, String::from("alpha"));
    assert_eq!(reader.pending_count(), 0);
    let outcome = reader.poll_read(&h);
    match outcome {
        PollOutcome::Ready(value, status) => {
            assert_eq!(value, "one");
            assert!(status.ok());
        }
        _ => panic!("expected an immediate resolution"),
    }
}

#[test]
fn queue_depth_smaller_than_outstanding_loses_nothing() {
    let mut db = Db::new();
    for i in 0..5 {
        db.put(format!("key{}", i), format!("val{}", i));
    }
    let mut ropts = ReadOptions::new();
    let mut reader = AsyncReader::create(db, 2);
    reader.setup_submission_handler(&mut ropts);
    let mut handles = Vec::new();
    for i in 0..5 {
        handles.push(reader.submit_read(&ropts, format!("key{}", i)));
    }
    // Only the first two fit the submission queue; the rest fell back to
    // synchronous resolution. Nothing was lost or corrupted.
    assert_eq!(reader.pending_count(), 2);
    let results = drive_all(&mut reader, &handles);
    assert_eq!(results.len(), 5);
    for i in 0..5 {
        assert_eq!(results[i].0, format!("val{}", i));
        assert_eq!(results[i].1, StatusCode::kOk);
    }
    assert_eq!(reader.pending_count(), 0);
}
