use chatbridge::bridge::{Bridge, ChatData, ChatListItem, SummaryData};
use chatbridge::errors::ErrorKind;

fn sample_chat() -> ChatData {
    ChatData {
        id: 12,
        chat_type: 100,
        name: "group".to_string(),
        subtitle: "3 members".to_string(),
        profile_image: Some("avatars/group.png".to_string()),
        visibility: 1,
        color: 0xff00ff,
        unpromoted: true,
        self_talk: false,
        verified: true,
        sending_locations: false,
    }
}

fn sample_summary(n: i64) -> SummaryData {
    SummaryData {
        text1: "Alice".to_string(),
        text2: "hi there".to_string(),
        timestamp: 1000 + n,
        state: 10,
    }
}

#[test]
fn wrap_reports_count_and_items() {
    let mut b = Bridge::new();
    let h = b.wrap_ids(vec![7, 3, 9], false);
    assert_eq!(b.length(h), Ok(3));
    assert_eq!(b.get_id(h, 0), Ok(7));
    assert_eq!(b.get_id(h, 1), Ok(3));
    assert_eq!(b.get_id(h, 2), Ok(9));
    assert_eq!(b.get_uint(h, 2), Ok(9u64));
}

#[test]
fn wrap_empty_collection_has_count_zero() {
    let mut b = Bridge::new();
    let h = b.wrap_ids(Vec::new(), false);
    assert_eq!(b.length(h), Ok(0));
    assert_eq!(b.get_id(h, 0), Err(ErrorKind::IndexOutOfRange));
}

#[test]
fn out_of_range_fails_and_handle_stays_usable() {
    let mut b = Bridge::new();
    let h = b.wrap_ids(vec![5, 6], false);
    assert_eq!(b.get_id(h, 2), Err(ErrorKind::IndexOutOfRange));
    assert_eq!(b.get_id(h, 99), Err(ErrorKind::IndexOutOfRange));
    // the failed accesses harmed nothing
    assert_eq!(b.length(h), Ok(2));
    assert_eq!(b.get_id(h, 1), Ok(6));
}

#[test]
fn released_handle_rejects_every_operation() {
    let mut b = Bridge::new();
    let h = b.wrap_ids(vec![1, 2], false);
    assert_eq!(b.release(h), Ok(()));
    assert_eq!(b.length(h), Err(ErrorKind::UseAfterRelease));
    assert_eq!(b.get_id(h, 0), Err(ErrorKind::UseAfterRelease));
    assert_eq!(b.search_id(h, 1), Err(ErrorKind::UseAfterRelease));
    assert_eq!(b.add_id(h, 4), Err(ErrorKind::UseAfterRelease));
    // double release is a detected hard failure, not a silent no-op
    assert_eq!(b.release(h), Err(ErrorKind::UseAfterRelease));
}

#[test]
fn release_leaves_other_handles_alone() {
    let mut b = Bridge::new();
    let h1 = b.wrap_ids(vec![1], false);
    let h2 = b.wrap_ids(vec![2], false);
    assert_eq!(b.release(h1), Ok(()));
    assert_eq!(b.get_id(h2, 0), Ok(2));
}

#[test]
fn unknown_handle_counts_as_released() {
    let b = Bridge::new();
    assert_eq!(b.length(123), Err(ErrorKind::UseAfterRelease));
}

#[test]
fn accessor_of_wrong_kind_is_type_mismatch() {
    let mut b = Bridge::new();
    let ids = b.wrap_ids(vec![1], false);
    let ts = b.wrap_timestamps(vec![-5, 10]);
    let ms = b.wrap_markers(vec!["m1".to_string()]);
    assert_eq!(b.get_timestamp(ids, 0), Err(ErrorKind::TypeMismatch));
    assert_eq!(b.get_id(ts, 0), Err(ErrorKind::TypeMismatch));
    assert_eq!(b.get_marker(ids, 0), Err(ErrorKind::TypeMismatch));
    assert_eq!(b.get_timestamp(ts, 0), Ok(-5));
    assert_eq!(b.get_timestamp(ts, 1), Ok(10));
    assert_eq!(b.get_marker(ms, 0), Ok("m1".to_string()));
    assert_eq!(b.search_id(ts, 1), Err(ErrorKind::TypeMismatch));
    let chat = b.wrap_chat(sample_chat());
    assert_eq!(b.length(chat), Err(ErrorKind::TypeMismatch));
}

#[test]
fn linear_search_finds_first_occurrence() {
    let mut b = Bridge::new();
    let h = b.wrap_ids(vec![4, 8, 8, 2], false);
    assert_eq!(b.search_id(h, 8), Ok(Some(1)));
    assert_eq!(b.search_id(h, 4), Ok(Some(0)));
    // not found is a definite signal distinct from index 0
    assert_eq!(b.search_id(h, 77), Ok(None));
}

#[test]
fn binary_search_on_sorted_collection() {
    let mut b = Bridge::new();
    let h = b.wrap_ids(vec![2, 4, 8, 16, 32], true);
    for needle in [2u32, 4, 8, 16, 32] {
        let hit = b.search_id(h, needle).unwrap().unwrap();
        assert_eq!(b.get_id(h, hit), Ok(needle));
    }
    assert_eq!(b.search_id(h, 3), Ok(None));
    assert_eq!(b.search_id(h, 100), Ok(None));
    assert_eq!(b.search_id(h, 1), Ok(None));
}

#[test]
fn add_id_appends_and_respects_declared_order() {
    let mut b = Bridge::new();
    let plain = b.wrap_ids(vec![9, 1], false);
    assert_eq!(b.add_id(plain, 5), Ok(()));
    assert_eq!(b.length(plain), Ok(3));
    assert_eq!(b.get_id(plain, 2), Ok(5));

    let sorted = b.wrap_ids(vec![10, 20], true);
    assert_eq!(b.add_id(sorted, 30), Ok(()));
    // an id below the last element would break the declared order
    assert_eq!(b.add_id(sorted, 25), Err(ErrorKind::InvalidInput));
    assert_eq!(b.length(sorted), Ok(3));
    assert_eq!(b.search_id(sorted, 30), Ok(Some(2)));
}

#[test]
fn chatlist_entries_and_summary() {
    let mut b = Bridge::new();
    let items = vec![
        ChatListItem { chat_id: 11, msg_id: 101, summary: sample_summary(1) },
        ChatListItem { chat_id: 22, msg_id: 0, summary: sample_summary(2) },
    ];
    let h = b.wrap_chatlist(items);
    assert_eq!(b.length(h), Ok(2));
    assert_eq!(b.chatlist_get_chat_id(h, 0), Ok(11));
    assert_eq!(b.chatlist_get_msg_id(h, 1), Ok(0));
    assert_eq!(b.chatlist_get_chat_id(h, 2), Err(ErrorKind::IndexOutOfRange));

    // the summary comes out as a fresh handle of its own
    let s = b.chatlist_get_summary(h, 1).unwrap();
    assert_eq!(b.summary_get_text1(s), Ok("Alice".to_string()));
    assert_eq!(b.summary_get_text2(s), Ok("hi there".to_string()));
    assert_eq!(b.summary_get_timestamp(s), Ok(1002));
    assert_eq!(b.summary_get_state(s), Ok(10));

    // releasing the summary leaves the chat list usable, and the other
    // way round
    assert_eq!(b.release(s), Ok(()));
    assert_eq!(b.chatlist_get_chat_id(h, 0), Ok(11));
    let s2 = b.chatlist_get_summary(h, 0).unwrap();
    assert_eq!(b.release(h), Ok(()));
    assert_eq!(b.summary_get_timestamp(s2), Ok(1001));
}

#[test]
fn chat_record_accessors() {
    let mut b = Bridge::new();
    let h = b.wrap_chat(sample_chat());
    assert_eq!(b.chat_get_id(h), Ok(12));
    assert_eq!(b.chat_get_type(h), Ok(100));
    assert_eq!(b.chat_get_name(h), Ok("group".to_string()));
    assert_eq!(b.chat_get_subtitle(h), Ok("3 members".to_string()));
    assert_eq!(b.chat_get_profile_image(h), Ok(Some("avatars/group.png".to_string())));
    assert_eq!(b.chat_get_visibility(h), Ok(1));
    assert_eq!(b.chat_get_color(h), Ok(0xff00ff));
    assert_eq!(b.chat_is_unpromoted(h), Ok(true));
    assert_eq!(b.chat_is_self_talk(h), Ok(false));
    assert_eq!(b.chat_is_verified(h), Ok(true));
    assert_eq!(b.chat_is_sending_locations(h), Ok(false));
    assert_eq!(b.release(h), Ok(()));
    assert_eq!(b.chat_get_id(h), Err(ErrorKind::UseAfterRelease));
}
