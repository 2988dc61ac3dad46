use chatbridge::account::CoreOutcome;
use chatbridge::dispatch::{
    build_chatlist_entries, build_draft, collect_fetch, first_unread_message,
    flatten_chat_items, media_chat_filter, media_type_filter, route, attach_quote, Call,
    ChatItem, ChatListEntry, MessageViewtype, MsgState, Route, Viewtype, MSG_ID_DAYMARKER,
};
use chatbridge::email::{check_email_validity, domain_part};
use chatbridge::errors::ErrorKind;

#[test]
fn routing_separates_the_lock_classes() {
    assert_eq!(route(&Call::AddAccount), Route::RegistryWrite);
    assert_eq!(route(&Call::RemoveAccount { account_id: 3 }), Route::RegistryWrite);
    assert_eq!(route(&Call::SelectAccount { account_id: 3 }), Route::RegistryWrite);
    assert_eq!(route(&Call::GetAllAccountIds), Route::RegistryRead);
    assert_eq!(route(&Call::GetSelectedAccountId), Route::RegistryRead);
    assert_eq!(route(&Call::GetAllAccounts), Route::RegistryRead);
    assert_eq!(route(&Call::MaybeNetwork), Route::RegistryRead);
    assert_eq!(route(&Call::GetSystemInfo), Route::Standalone);
    assert_eq!(
        route(&Call::CheckEmailValidity { email: "x@y.example".to_string() }),
        Route::Standalone
    );
    // an account call is scoped to the account named first
    assert_eq!(route(&Call::Configure { account_id: 7 }), Route::Account(7));
    assert_eq!(
        route(&Call::SetConfig { account_id: 9, key: "addr".to_string(), value: None }),
        Route::Account(9)
    );
    assert_eq!(
        route(&Call::MiscSendTextMessage { account_id: 4, text: "hi".to_string(), chat_id: 12 }),
        Route::Account(4)
    );
    assert_eq!(
        route(&Call::GetFirstUnreadMessageOfChat { account_id: 2, chat_id: 5 }),
        Route::Account(2)
    );
}

#[test]
fn flattening_keeps_order_and_marks_days() {
    let items = vec![
        ChatItem::DayMarker,
        ChatItem::Message(31),
        ChatItem::Message(32),
        ChatItem::DayMarker,
        ChatItem::Message(40),
    ];
    let ids = flatten_chat_items(&items);
    assert_eq!(ids, vec![MSG_ID_DAYMARKER, 31, 32, MSG_ID_DAYMARKER, 40]);
    assert_eq!(MSG_ID_DAYMARKER, 9);
}

#[test]
fn chatlist_entries_use_zero_for_chats_without_messages() {
    let raw = vec![(10, Some(100)), (11, None), (12, Some(102))];
    let entries = build_chatlist_entries(&raw);
    assert_eq!(
        entries,
        vec![ChatListEntry(10, 100), ChatListEntry(11, 0), ChatListEntry(12, 102)]
    );
}

#[test]
fn first_unread_is_oldest_after_the_last_seen() {
    let items = vec![
        (1, MsgState::InSeen),
        (2, MsgState::InFresh),
        (3, MsgState::Other),
        (4, MsgState::InNoticed),
    ];
    assert_eq!(first_unread_message(&items), Some(2));

    // a seen message cuts off everything older than it
    let items = vec![
        (1, MsgState::InFresh),
        (2, MsgState::InSeen),
        (3, MsgState::InFresh),
    ];
    assert_eq!(first_unread_message(&items), Some(3));

    // nothing unread after the newest seen message
    let items = vec![(1, MsgState::InFresh), (2, MsgState::InSeen)];
    assert_eq!(first_unread_message(&items), None);

    assert_eq!(first_unread_message(&Vec::new()), None);
}

#[test]
fn draft_viewtype_follows_the_attachment() {
    let d = build_draft(Some("hello".to_string()), None);
    assert_eq!(d.viewtype, Viewtype::Text);
    assert_eq!(d.text, Some("hello".to_string()));
    assert_eq!(d.quote_of, None);

    let d = build_draft(None, Some("photo.jpg".to_string()));
    assert_eq!(d.viewtype, Viewtype::File);
    assert_eq!(d.file, Some("photo.jpg".to_string()));
}

#[test]
fn quote_attaches_only_when_its_message_loads() {
    let mut d = build_draft(Some("reply".to_string()), None);
    attach_quote(&mut d, 55, CoreOutcome::Done).unwrap();
    assert_eq!(d.quote_of, Some(55));

    let mut d = build_draft(Some("reply".to_string()), None);
    let err = attach_quote(&mut d, 56, CoreOutcome::Failed("no row".to_string())).unwrap_err();
    assert_eq!(err.kind, ErrorKind::NotFound);
    assert_eq!(err.message, "message to quote could not be loaded");
    assert_eq!(d.quote_of, None);
    assert_eq!(d.text, Some("reply".to_string()));
}

#[test]
fn fetch_results_embed_failures_per_id() {
    let ids = vec![5, 6, 7];
    let replies: Vec<Result<String, String>> = vec![
        Ok("five".to_string()),
        Err("gone".to_string()),
        Ok("seven".to_string()),
    ];
    let out = collect_fetch(&ids, replies);
    assert_eq!(out.len(), 3);
    assert_eq!(out[0], (5, Ok("five".to_string())));
    // the failed fetch keeps its id and message instead of aborting the rest
    assert_eq!(out[1], (6, Err("gone".to_string())));
    assert_eq!(out[2], (7, Ok("seven".to_string())));
}

#[test]
fn media_query_arguments_are_normalised() {
    assert_eq!(
        media_type_filter(MessageViewtype::Image, Some(MessageViewtype::Gif), None),
        (MessageViewtype::Image, MessageViewtype::Gif, MessageViewtype::Unknown)
    );
    assert_eq!(
        media_type_filter(MessageViewtype::Video, None, None),
        (MessageViewtype::Video, MessageViewtype::Unknown, MessageViewtype::Unknown)
    );
    // absent or zero chat means "any chat of the account"
    assert_eq!(media_chat_filter(None), None);
    assert_eq!(media_chat_filter(Some(0)), None);
    assert_eq!(media_chat_filter(Some(17)), Some(17));
}

#[test]
fn email_validity_heuristic() {
    assert!(check_email_validity("a@example.org"));
    assert!(check_email_validity("first.last@sub.example.org"));
    assert!(!check_email_validity(""));
    assert!(!check_email_validity("no-at-sign.example"));
    assert!(!check_email_validity("@example.org"));
    assert!(!check_email_validity("a@"));
    assert!(!check_email_validity("a@nodot"));
}

#[test]
fn provider_lookup_key_is_the_text_after_the_last_at() {
    assert_eq!(domain_part("a@example.org"), "example.org");
    assert_eq!(domain_part("weird@local@example.org"), "example.org");
    // a bare domain passes through whole
    assert_eq!(domain_part("example.org"), "example.org");
    assert_eq!(domain_part(""), "");
}
