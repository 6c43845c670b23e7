use file_share::actor::{operation, Operation, Reply, Request};
use file_share::effect::{
    close_websockets, post_websockets, Effect, Field, ShareError, CLOSE_CODE, STORAGE_DURATION,
};
use file_share::share::seconds_of;
use file_share::FileShare;

fn stored(content: &[u8], now: u64) -> FileShare {
    let mut share = FileShare::new();
    let mut out = Vec::new();
    let request = Request::SetData { content: content.to_vec(), key: None };
    assert_eq!(share.fetch(request, now, &mut out), Reply::Done);
    share
}

#[test]
fn new_entity_is_empty() {
    let share = FileShare::new();
    assert_eq!(share.content(), Err(ShareError::NotFound));
    assert_eq!(share.get_data(), Err(ShareError::NotFound));
    assert_eq!(share.get_expiry(), Err(ShareError::NotFound));
    assert_eq!(share.get_owner(), Err(ShareError::NotFound));
    assert_eq!(share.pending_alarm(), None);
    assert!(share.observers().is_empty());
    assert_eq!(share.is_active(0), None);
}

#[test]
fn restore_keeps_every_part() {
    let share = FileShare::restore(
        Some(vec![1, 2, 3]),
        Some(500),
        Some("abc:::123456789".to_string()),
        Some(450),
        vec![4, 2],
    );
    assert_eq!(share.content(), Ok(&vec![1, 2, 3]));
    assert_eq!(share.get_data(), Ok(vec![1, 2, 3]));
    assert_eq!(share.get_expiry(), Ok(500));
    assert_eq!(share.get_owner(), Ok(&"abc:::123456789".to_string()));
    assert_eq!(share.pending_alarm(), Some(450));
    assert_eq!(share.observers(), &vec![4, 2]);
}

#[test]
fn set_data_replaces_the_payload() {
    let mut share = FileShare::new();
    let mut out = Vec::new();
    share.set_data(vec![1], &mut out);
    share.set_data(vec![2, 3], &mut out);
    assert_eq!(share.get_data(), Ok(vec![2, 3]));
    assert_eq!(out, vec![Effect::Put(Field::Content), Effect::Put(Field::Content)]);
    assert_eq!(share.get_expiry(), Err(ShareError::NotFound));
    assert_eq!(share.pending_alarm(), None);
}

#[test]
fn set_ttl_adds_the_time_to_live() {
    let mut share = FileShare::new();
    let mut out = vec![Effect::DeleteAll];
    share.set_ttl(1_000, 300, &mut out);
    assert_eq!(share.get_expiry(), Ok(1_300));
    assert_eq!(out, vec![Effect::DeleteAll, Effect::Put(Field::ExpireAt)]);
    share.set_ttl(7, 0, &mut out);
    assert_eq!(share.get_expiry(), Ok(7));
    share.set_ttl(u64::MAX - 10, 300, &mut out);
    assert_eq!(share.get_expiry(), Ok(u64::MAX));
    share.set_ttl(u64::MAX - 300, 300, &mut out);
    assert_eq!(share.get_expiry(), Ok(u64::MAX));
    share.set_ttl(u64::MAX - 301, 300, &mut out);
    assert_eq!(share.get_expiry(), Ok(u64::MAX - 1));
}

#[test]
fn set_key_records_a_tag_that_came() {
    let mut share = FileShare::new();
    let mut out = Vec::new();
    share.set_key(None, &mut out);
    assert_eq!(share.get_owner(), Err(ShareError::NotFound));
    assert!(out.is_empty());
    share.set_key(Some("abc:::100000000".to_string()), &mut out);
    assert_eq!(share.get_owner(), Ok(&"abc:::100000000".to_string()));
    assert_eq!(out, vec![Effect::Put(Field::Key)]);
    share.set_key(None, &mut out);
    assert_eq!(share.get_owner(), Ok(&"abc:::100000000".to_string()));
    assert_eq!(out, vec![Effect::Put(Field::Key)]);
}

#[test]
fn force_set_alarm_needs_an_expiry() {
    let mut share = FileShare::new();
    let mut out = Vec::new();
    assert_eq!(share.force_set_alarm(10, &mut out), Err(ShareError::NotFound));
    assert_eq!(share.set_alarm(10, &mut out), Err(ShareError::NotFound));
    assert!(out.is_empty());
    assert_eq!(share.pending_alarm(), None);
}

#[test]
fn force_set_alarm_arms_for_the_remaining_time_and_tells_observers() {
    let mut share = FileShare::restore(None, Some(500), None, Some(450), vec![7, 9]);
    let mut out = Vec::new();
    assert_eq!(share.force_set_alarm(420, &mut out), Ok(()));
    assert_eq!(share.pending_alarm(), Some(500));
    assert_eq!(
        out,
        vec![
            Effect::SetAlarm { delay: 80 },
            Effect::Send { observer: 7, expire_at: 500 },
            Effect::Send { observer: 9, expire_at: 500 },
        ]
    );
}

#[test]
fn force_set_alarm_leaves_the_timer_when_the_expiry_has_passed() {
    let mut share = FileShare::restore(None, Some(500), None, Some(450), vec![7]);
    let mut out = Vec::new();
    assert_eq!(share.force_set_alarm(500, &mut out), Ok(()));
    assert_eq!(share.pending_alarm(), Some(450));
    assert_eq!(out, vec![Effect::Send { observer: 7, expire_at: 500 }]);
    let mut share = FileShare::restore(None, Some(500), None, None, vec![]);
    let mut out = Vec::new();
    assert_eq!(share.force_set_alarm(501, &mut out), Ok(()));
    assert_eq!(share.pending_alarm(), None);
    assert!(out.is_empty());
}

#[test]
fn set_alarm_does_nothing_while_a_timer_is_pending() {
    let mut share = FileShare::restore(None, Some(900), None, Some(450), vec![7]);
    let mut out = Vec::new();
    assert_eq!(share.set_alarm(100, &mut out), Ok(()));
    assert_eq!(share.pending_alarm(), Some(450));
    assert!(out.is_empty());
    let mut share = FileShare::restore(None, None, None, Some(450), vec![]);
    assert_eq!(share.set_alarm(100, &mut out), Ok(()));
    assert!(out.is_empty());
}

#[test]
fn set_alarm_arms_when_none_is_pending() {
    let mut share = FileShare::restore(None, Some(900), None, None, vec![3]);
    let mut out = Vec::new();
    assert_eq!(share.set_alarm(100, &mut out), Ok(()));
    assert_eq!(share.pending_alarm(), Some(900));
    assert_eq!(
        out,
        vec![Effect::SetAlarm { delay: 800 }, Effect::Send { observer: 3, expire_at: 900 }]
    );
}

#[test]
fn store_request_writes_arms_and_tags() {
    let mut share = FileShare::new();
    let mut out = Vec::new();
    let request =
        Request::SetData { content: b"hello".to_vec(), key: Some("abc:::123456789".to_string()) };
    assert_eq!(share.fetch(request, 1_000, &mut out), Reply::Done);
    assert_eq!(
        out,
        vec![
            Effect::Put(Field::Content),
            Effect::Put(Field::ExpireAt),
            Effect::SetAlarm { delay: 300 },
            Effect::Put(Field::Key),
        ]
    );
    assert_eq!(share.get_data(), Ok(b"hello".to_vec()));
    assert_eq!(share.get_expiry(), Ok(1_300));
    assert_eq!(share.pending_alarm(), Some(1_300));
    assert_eq!(share.get_owner(), Ok(&"abc:::123456789".to_string()));
    assert_eq!(STORAGE_DURATION, 300);
}

#[test]
fn second_store_keeps_the_pending_timer() {
    let mut share = stored(b"one", 1_000);
    let mut out = Vec::new();
    let request = Request::SetData { content: b"two".to_vec(), key: None };
    assert_eq!(share.fetch(request, 1_100, &mut out), Reply::Done);
    assert_eq!(out, vec![Effect::Put(Field::Content), Effect::Put(Field::ExpireAt)]);
    assert_eq!(share.get_data(), Ok(b"two".to_vec()));
    assert_eq!(share.get_expiry(), Ok(1_400));
    assert_eq!(share.pending_alarm(), Some(1_300));
}

#[test]
fn renew_moves_expiry_and_timer_and_tells_every_observer() {
    let mut share = stored(b"x", 1_000);
    let mut out = Vec::new();
    assert_eq!(share.fetch(Request::Websocket { observer: 5 }, 1_001, &mut out), Reply::Websocket);
    assert_eq!(share.fetch(Request::Websocket { observer: 6 }, 1_002, &mut out), Reply::Websocket);
    let mut out = Vec::new();
    assert_eq!(share.fetch(Request::UpdateTtl, 1_200, &mut out), Reply::Done);
    assert_eq!(
        out,
        vec![
            Effect::Put(Field::ExpireAt),
            Effect::SetAlarm { delay: 300 },
            Effect::Send { observer: 5, expire_at: 1_500 },
            Effect::Send { observer: 6, expire_at: 1_500 },
        ]
    );
    assert_eq!(share.get_expiry(), Ok(1_500));
    assert_eq!(share.pending_alarm(), Some(1_500));
    assert_eq!(share.get_data(), Ok(b"x".to_vec()));
}

#[test]
fn renew_never_moves_the_expiry_back_while_the_clock_runs_on() {
    let mut share = stored(b"x", 1_000);
    let mut out = Vec::new();
    let mut prior = share.get_expiry().unwrap();
    for now in [1_000u64, 1_000, 1_001, 1_299, 1_300, 5_000] {
        share.fetch(Request::UpdateTtl, now, &mut out);
        let renewed = share.get_expiry().unwrap();
        assert!(renewed >= prior);
        assert_eq!(renewed, now + 300);
        prior = renewed;
    }
}

#[test]
fn renew_on_an_empty_entity_sets_expiry_and_timer() {
    let mut share = FileShare::new();
    let mut out = Vec::new();
    assert_eq!(share.fetch(Request::UpdateTtl, 50, &mut out), Reply::Done);
    assert_eq!(out, vec![Effect::Put(Field::ExpireAt), Effect::SetAlarm { delay: 300 }]);
    assert_eq!(share.get_expiry(), Ok(350));
    assert_eq!(share.pending_alarm(), Some(350));
    assert_eq!(share.fetch(Request::GetData, 50, &mut out), Reply::NotFound);
}

#[test]
fn probe_tells_the_seconds_until_the_wake_up() {
    let mut share = stored(b"x", 1_000);
    let mut out = Vec::new();
    assert_eq!(share.fetch(Request::IsActive, 1_000, &mut out), Reply::Active(300));
    assert_eq!(share.fetch(Request::IsActive, 1_299, &mut out), Reply::Active(1));
    assert_eq!(share.fetch(Request::IsActive, 1_300, &mut out), Reply::Active(0));
    assert_eq!(share.fetch(Request::IsActive, 9_999, &mut out), Reply::Active(0));
    assert_eq!(share.is_active(1_100), Some(200));
    assert!(out.is_empty());
    let mut empty = FileShare::new();
    assert_eq!(empty.fetch(Request::IsActive, 1_000, &mut out), Reply::Inactive);
}

#[test]
fn fetch_returns_the_payload_or_not_found() {
    let mut share = stored(b"hello", 1_000);
    let mut out = Vec::new();
    assert_eq!(share.fetch(Request::GetData, 1_000, &mut out), Reply::Content(b"hello".to_vec()));
    assert_eq!(share.fetch(Request::GetData, 99_999, &mut out), Reply::Content(b"hello".to_vec()));
    assert!(out.is_empty());
    let mut empty = FileShare::new();
    assert_eq!(empty.fetch(Request::GetData, 1_000, &mut out), Reply::NotFound);
    let mut blank = stored(b"", 1_000);
    assert_eq!(blank.fetch(Request::GetData, 1_000, &mut out), Reply::Content(vec![]));
}

#[test]
fn alarm_closes_observers_and_purges() {
    let mut share = stored(b"x", 1_000);
    let mut out = Vec::new();
    share.fetch(Request::Websocket { observer: 5 }, 1_001, &mut out);
    share.fetch(Request::Websocket { observer: 6 }, 1_002, &mut out);
    let mut out = Vec::new();
    share.alarm(&mut out);
    assert_eq!(
        out,
        vec![
            Effect::Close { observer: 5, code: 1000 },
            Effect::Close { observer: 6, code: 1000 },
            Effect::DeleteAll,
        ]
    );
    assert_eq!(CLOSE_CODE, 1000);
    assert_eq!(share.get_data(), Err(ShareError::NotFound));
    assert_eq!(share.get_expiry(), Err(ShareError::NotFound));
    assert_eq!(share.get_owner(), Err(ShareError::NotFound));
    assert_eq!(share.pending_alarm(), None);
    assert!(share.observers().is_empty());
}

#[test]
fn close_all_and_delete_all_touch_their_part_only() {
    let mut share = FileShare::restore(Some(vec![1]), Some(500), Some("k".to_string()), Some(500), vec![3, 4]);
    let mut out = Vec::new();
    share.close_all(&mut out);
    assert_eq!(
        out,
        vec![Effect::Close { observer: 3, code: 1000 }, Effect::Close { observer: 4, code: 1000 }]
    );
    assert!(share.observers().is_empty());
    assert_eq!(share.get_data(), Ok(vec![1]));
    assert_eq!(share.pending_alarm(), Some(500));
    let mut out = Vec::new();
    share.delete_all(&mut out);
    assert_eq!(out, vec![Effect::DeleteAll]);
    assert_eq!(share.get_data(), Err(ShareError::NotFound));
    assert_eq!(share.get_expiry(), Err(ShareError::NotFound));
    assert_eq!(share.get_owner(), Err(ShareError::NotFound));
    assert_eq!(share.pending_alarm(), Some(500));
}

#[test]
fn alarm_twice_closes_nobody_twice() {
    let mut share = stored(b"x", 1_000);
    let mut out = Vec::new();
    share.fetch(Request::Websocket { observer: 5 }, 1_001, &mut out);
    share.alarm(&mut out);
    let mut again = Vec::new();
    share.alarm(&mut again);
    assert_eq!(again, vec![Effect::DeleteAll]);
    assert_eq!(share.fetch(Request::GetData, 2_000, &mut again), Reply::NotFound);
    assert_eq!(share.fetch(Request::IsActive, 2_000, &mut again), Reply::Inactive);
    assert_eq!(share.pending_alarm(), None);
}

#[test]
fn delete_closes_purges_and_cancels() {
    let mut share = stored(b"x", 1_000);
    let mut out = Vec::new();
    share.fetch(Request::Websocket { observer: 5 }, 1_001, &mut out);
    let mut out = Vec::new();
    assert_eq!(share.fetch(Request::Delete, 1_010, &mut out), Reply::Done);
    assert_eq!(
        out,
        vec![Effect::Close { observer: 5, code: 1000 }, Effect::DeleteAll, Effect::DeleteAlarm]
    );
    assert_eq!(share.fetch(Request::GetData, 1_010, &mut out), Reply::NotFound);
    assert_eq!(share.fetch(Request::IsActive, 1_010, &mut out), Reply::Inactive);
    let mut out = Vec::new();
    assert_eq!(share.fetch(Request::Delete, 1_020, &mut out), Reply::Done);
    assert_eq!(out, vec![Effect::DeleteAll]);
}

#[test]
fn purged_entity_stays_empty_until_a_new_store() {
    let mut share = stored(b"x", 1_000);
    let mut out = Vec::new();
    share.alarm(&mut out);
    for now in [1_300u64, 1_301, 2_000] {
        assert_eq!(share.fetch(Request::GetData, now, &mut out), Reply::NotFound);
        assert_eq!(share.fetch(Request::IsActive, now, &mut out), Reply::Inactive);
        assert_eq!(share.fetch(Request::Websocket { observer: 1 }, now, &mut out), Reply::Rejected);
        assert_eq!(share.fetch(Request::Other, now, &mut out), Reply::Done);
        assert_eq!(share.fetch(Request::Delete, now, &mut out), Reply::Done);
        assert_eq!(share.websocket_message(1, &mut out), Err(ShareError::NotFound));
        share.websocket_close(1);
        share.alarm(&mut out);
    }
    let request = Request::SetData { content: b"y".to_vec(), key: None };
    assert_eq!(share.fetch(request, 3_000, &mut out), Reply::Done);
    assert_eq!(share.fetch(Request::GetData, 3_000, &mut out), Reply::Content(b"y".to_vec()));
    assert_eq!(share.fetch(Request::IsActive, 3_000, &mut out), Reply::Active(300));
}

#[test]
fn subscribe_attaches_and_pushes_the_expiry() {
    let mut share = stored(b"x", 1_000);
    let mut out = Vec::new();
    assert_eq!(share.subscribe(5, 1_100, &mut out), Ok(()));
    assert_eq!(
        out,
        vec![Effect::Accept { observer: 5 }, Effect::Send { observer: 5, expire_at: 1_300 }]
    );
    assert_eq!(share.observers(), &vec![5]);
    assert_eq!(share.pending_alarm(), Some(1_300));
}

#[test]
fn subscribe_arms_a_missing_timer_first() {
    let mut share = FileShare::restore(Some(vec![1]), Some(1_300), None, None, vec![4]);
    let mut out = Vec::new();
    assert_eq!(share.fetch(Request::Websocket { observer: 5 }, 1_100, &mut out), Reply::Websocket);
    assert_eq!(
        out,
        vec![
            Effect::SetAlarm { delay: 200 },
            Effect::Send { observer: 4, expire_at: 1_300 },
            Effect::Accept { observer: 5 },
            Effect::Send { observer: 5, expire_at: 1_300 },
        ]
    );
    assert_eq!(share.pending_alarm(), Some(1_300));
    assert_eq!(share.observers(), &vec![4, 5]);
}

#[test]
fn subscribe_is_rejected_without_a_live_expiry() {
    let mut out = Vec::new();
    let mut empty = FileShare::new();
    assert_eq!(empty.subscribe(5, 10, &mut out), Err(ShareError::Rejected));
    let mut expired = FileShare::restore(Some(vec![1]), Some(1_300), None, None, vec![]);
    assert_eq!(expired.subscribe(5, 1_300, &mut out), Err(ShareError::Rejected));
    assert_eq!(expired.subscribe(5, 1_301, &mut out), Err(ShareError::Rejected));
    let mut no_expiry = FileShare::restore(None, None, None, Some(1_300), vec![]);
    assert_eq!(no_expiry.subscribe(5, 10, &mut out), Err(ShareError::Rejected));
    assert!(out.is_empty());
    assert!(expired.observers().is_empty());
    let mut due = FileShare::restore(Some(vec![1]), Some(1_300), None, Some(1_300), vec![]);
    assert_eq!(due.subscribe(5, 1_400, &mut out), Ok(()));
}

#[test]
fn message_is_answered_with_the_expiry() {
    let mut share = stored(b"x", 1_000);
    let mut out = Vec::new();
    share.subscribe(5, 1_000, &mut out).unwrap();
    let mut out = Vec::new();
    assert_eq!(share.websocket_message(5, &mut out), Ok(()));
    assert_eq!(out, vec![Effect::Send { observer: 5, expire_at: 1_300 }]);
    assert_eq!(share.get_websocket_message(), Ok("1300".to_string()));
    let empty = FileShare::new();
    assert_eq!(empty.get_websocket_message(), Err(ShareError::NotFound));
    assert_eq!(empty.websocket_message(5, &mut out), Err(ShareError::NotFound));
    assert_eq!(out.len(), 1);
}

#[test]
fn closed_connection_is_detached() {
    let mut share = FileShare::restore(None, Some(10), None, None, vec![1, 2, 1, 3]);
    share.websocket_close(1);
    assert_eq!(share.observers(), &vec![2, 3]);
    share.websocket_close(9);
    assert_eq!(share.observers(), &vec![2, 3]);
    share.websocket_close(3);
    share.websocket_close(2);
    assert!(share.observers().is_empty());
    assert_eq!(share.get_expiry(), Ok(10));
}

#[test]
fn detached_observer_gets_no_broadcast() {
    let mut share = stored(b"x", 1_000);
    let mut out = Vec::new();
    share.subscribe(5, 1_000, &mut out).unwrap();
    share.subscribe(6, 1_000, &mut out).unwrap();
    share.websocket_close(5);
    let mut out = Vec::new();
    share.fetch(Request::UpdateTtl, 1_010, &mut out);
    assert_eq!(
        out,
        vec![
            Effect::Put(Field::ExpireAt),
            Effect::SetAlarm { delay: 300 },
            Effect::Send { observer: 6, expire_at: 1_310 },
        ]
    );
}

#[test]
fn fully_qualified_id_prefers_the_name() {
    let share = FileShare::restore(None, None, Some("tag".to_string()), None, vec![]);
    assert_eq!(share.get_fully_qualified_id(Some("name".to_string())), "name");
    assert_eq!(share.get_fully_qualified_id(None), "tag");
    assert_eq!(FileShare::new().get_fully_qualified_id(None), "null");
}

#[test]
fn broadcast_and_closing_append_in_order() {
    let mut out = vec![Effect::DeleteAlarm];
    post_websockets(&vec![3, 1], 77, &mut out);
    close_websockets(&vec![3, 1], &mut out);
    post_websockets(&vec![], 78, &mut out);
    assert_eq!(
        out,
        vec![
            Effect::DeleteAlarm,
            Effect::Send { observer: 3, expire_at: 77 },
            Effect::Send { observer: 1, expire_at: 77 },
            Effect::Close { observer: 3, code: 1000 },
            Effect::Close { observer: 1, code: 1000 },
        ]
    );
}

#[test]
fn paths_name_operations() {
    assert_eq!(operation("/set_data"), Operation::SetData);
    assert_eq!(operation("/delete"), Operation::Delete);
    assert_eq!(operation("/update_ttl"), Operation::UpdateTtl);
    assert_eq!(operation("/is_active"), Operation::IsActive);
    assert_eq!(operation("/get_data"), Operation::GetData);
    assert_eq!(operation("/websocket"), Operation::Websocket);
    assert_eq!(operation("/"), Operation::Other);
    assert_eq!(operation(""), Operation::Other);
    assert_eq!(operation("/set_data/"), Operation::Other);
    assert_eq!(operation("set_data"), Operation::Other);
    for op in [
        Operation::SetData,
        Operation::Delete,
        Operation::UpdateTtl,
        Operation::IsActive,
        Operation::GetData,
        Operation::Websocket,
        Operation::Other,
    ] {
        assert_eq!(operation(op.path()), op);
    }
    assert_eq!(Operation::IsActive.path(), "/is_active");
}

#[test]
fn unknown_request_changes_nothing() {
    let mut share = stored(b"x", 1_000);
    let mut out = Vec::new();
    assert_eq!(share.fetch(Request::Other, 1_000, &mut out), Reply::Done);
    assert!(out.is_empty());
    assert_eq!(share.get_data(), Ok(b"x".to_vec()));
    assert_eq!(share.pending_alarm(), Some(1_300));
}

#[test]
fn replies_carry_status_and_text() {
    assert_eq!(Reply::Done.status(), 200);
    assert_eq!(Reply::Done.text(), Some("ok".to_string()));
    assert_eq!(Reply::NotFound.status(), 404);
    assert_eq!(Reply::NotFound.text(), Some(String::new()));
    assert_eq!(Reply::Rejected.status(), 404);
    assert_eq!(Reply::Rejected.text(), Some("Not found".to_string()));
    assert_eq!(Reply::Active(299).status(), 200);
    assert_eq!(Reply::Active(299).text(), Some("299".to_string()));
    assert_eq!(Reply::Inactive.status(), 200);
    assert_eq!(Reply::Inactive.text(), Some("false".to_string()));
    assert_eq!(Reply::Content(vec![1]).status(), 200);
    assert_eq!(Reply::Content(vec![1]).text(), None);
    assert_eq!(Reply::Websocket.status(), 101);
    assert_eq!(Reply::Websocket.text(), None);
}

#[test]
fn host_milliseconds_become_whole_seconds() {
    assert_eq!(seconds_of(0), 0);
    assert_eq!(seconds_of(999), 0);
    assert_eq!(seconds_of(1_000), 1);
    assert_eq!(seconds_of(1_700_000_300_999), 1_700_000_300);
    assert_eq!(seconds_of(-1), 0);
    assert_eq!(seconds_of(i64::MIN), 0);
    assert_eq!(seconds_of(i64::MAX), 9_223_372_036_854_775);
}

#[test]
fn store_with_another_time_to_live() {
    let mut share = FileShare::new();
    let mut out = Vec::new();
    share.store(b"x".to_vec(), Some("k".to_string()), 1_000, 60, &mut out);
    assert_eq!(
        out,
        vec![
            Effect::Put(Field::Content),
            Effect::Put(Field::ExpireAt),
            Effect::SetAlarm { delay: 60 },
            Effect::Put(Field::Key),
        ]
    );
    assert_eq!(share.get_expiry(), Ok(1_060));
    assert_eq!(share.pending_alarm(), Some(1_060));
    let mut out = Vec::new();
    share.renew(1_030, 10, &mut out);
    assert_eq!(out, vec![Effect::Put(Field::ExpireAt), Effect::SetAlarm { delay: 10 }]);
    assert_eq!(share.get_expiry(), Ok(1_040));
    assert_eq!(share.pending_alarm(), Some(1_040));
}

#[test]
fn store_without_time_to_live_arms_nothing() {
    let mut share = FileShare::new();
    let mut out = Vec::new();
    share.store(b"x".to_vec(), None, 1_000, 0, &mut out);
    assert_eq!(out, vec![Effect::Put(Field::Content), Effect::Put(Field::ExpireAt)]);
    assert_eq!(share.get_expiry(), Ok(1_000));
    assert_eq!(share.pending_alarm(), None);
    assert_eq!(share.is_active(1_000), None);
    assert_eq!(share.subscribe(1, 1_000, &mut out), Err(ShareError::Rejected));
    assert_eq!(share.subscribe(1, 999, &mut out), Ok(()));
    assert_eq!(share.pending_alarm(), Some(1_000));
}

#[test]
fn store_at_the_last_second_arms_nothing() {
    let mut share = FileShare::new();
    let mut out = Vec::new();
    share.store(b"x".to_vec(), None, u64::MAX, 300, &mut out);
    assert_eq!(share.get_expiry(), Ok(u64::MAX));
    assert_eq!(share.pending_alarm(), None);
    let mut share = FileShare::new();
    let mut out = Vec::new();
    share.store(b"x".to_vec(), None, u64::MAX - 1, 300, &mut out);
    assert_eq!(share.pending_alarm(), Some(u64::MAX));
    assert_eq!(out[2], Effect::SetAlarm { delay: 1 });
}
