use vantis::broadcasting::{BroadcasterId, DefaultBroadcasterService, StreamId};
use vantis::chat::{screen_chat_message, ChatFacts, ChatGate, ChatMode};
use vantis::chat_service::{ChatMessageId, DefaultChatService, SendMessageRequest};
use vantis::stream_types::ModerationActionType;
use vantis::live_streaming::LiveStreamingError;
use vantis::stream_types::StreamCategory;
use vantis::viewers::{DefaultViewerService, ViewerId};

#[test]
fn test_create_viewer() {
    let mut service = DefaultViewerService::new();
    let id = service.create_viewer("testviewer".to_string(), "Test Viewer".to_string());
    assert_eq!(service.get_viewer(&id).unwrap().username, "testviewer");
}

#[test]
fn test_follow_broadcaster() {
    let mut broadcaster_service = DefaultBroadcasterService::new();
    let mut service = DefaultViewerService::new();
    let viewer = service.create_viewer("viewer".to_string(), "Viewer".to_string());
    let broadcaster = broadcaster_service.create_broadcaster("streamer".to_string(), "Streamer".to_string()).unwrap();
    service.follow_broadcaster(&viewer, &broadcaster, &broadcaster_service).unwrap();
    let is_following = service.is_following(&viewer, &broadcaster).unwrap();
    assert!(is_following);
}

#[test]
fn slow_mode_screening() {
    let mut facts = ChatFacts {
        stream_live: true,
        chat_enabled: true,
        restriction: None,
        seconds_since_last: None,
        mode: Some(ChatMode { slow_mode: Some(10), ..ChatMode::default() }),
    };
    // The first message goes through.
    assert_eq!(screen_chat_message(&facts, "Message 1"), Ok(ChatGate::Admit));
    // An immediate second one does not.
    facts.seconds_since_last = Some(0);
    assert_eq!(screen_chat_message(&facts, "Message 2"), Err(LiveStreamingError::SlowModeActive(10)));
}

#[test]
fn follows_and_live_streams() {
    let mut b = DefaultBroadcasterService::new();
    let mut v = DefaultViewerService::new();
    let viewer = v.create_viewer_at("v".to_string(), "V".to_string(), ViewerId("v1".to_string()), 5);
    assert_eq!(v.get_viewer(&viewer).unwrap().first_seen, 5);
    assert!(matches!(v.get_viewer(&ViewerId("x".to_string())), Err(LiveStreamingError::ViewerNotFound(n)) if n == "x"));
    let b1 = b.create_broadcaster_at("a".to_string(), "A".to_string(), BroadcasterId("b1".to_string()), "k1".to_string(), 0).unwrap();
    let b2 = b.create_broadcaster_at("c".to_string(), "C".to_string(), BroadcasterId("b2".to_string()), "k2".to_string(), 0).unwrap();
    assert!(matches!(
        v.follow_broadcaster(&ViewerId("x".to_string()), &b1, &b),
        Err(LiveStreamingError::ViewerNotFound(_))
    ));
    assert!(matches!(
        v.follow_broadcaster(&viewer, &BroadcasterId("none".to_string()), &b),
        Err(LiveStreamingError::BroadcasterNotFound(_))
    ));
    v.follow_broadcaster(&viewer, &b1, &b).unwrap();
    v.follow_broadcaster(&viewer, &b2, &b).unwrap();
    v.follow_broadcaster(&viewer, &b1, &b).unwrap();
    assert_eq!(v.get_followed_broadcasters(&viewer).unwrap(), vec![b1.clone(), b2.clone()]);
    let s2 = b.create_stream_at(&b2, "Live".to_string(), StreamCategory::new("a", "A"), StreamId("s2".to_string()), 0).unwrap();
    b.start_stream_at(&s2, "k2", 1).unwrap();
    let live: Vec<String> = v.get_followed_live_streams(&viewer, &b).unwrap().iter().map(|s| s.id.0.clone()).collect();
    assert_eq!(live, vec!["s2"]);
    v.unfollow_broadcaster(&viewer, &b2).unwrap();
    assert!(!v.is_following(&viewer, &b2).unwrap());
    assert!(v.is_following(&viewer, &b1).unwrap());
    assert!(v.get_followed_live_streams(&viewer, &b).unwrap().is_empty());
    v.unfollow_broadcaster(&ViewerId("nobody".to_string()), &b1).unwrap();
}

fn setup_services() -> (DefaultBroadcasterService, DefaultViewerService, DefaultChatService) {
    (DefaultBroadcasterService::new(), DefaultViewerService::new(), DefaultChatService::new())
}

#[test]
fn test_send_message() {
    let (mut broadcaster, mut viewer, mut chat) = setup_services();

    let b = broadcaster.create_broadcaster("streamer".to_string(), "Streamer".to_string()).unwrap();
    let stream = broadcaster.create_stream(&b, "Test Stream".to_string(), StreamCategory::new("gaming", "Gaming")).unwrap();
    let key = broadcaster.get_broadcaster(&b).unwrap().stream_key.clone().unwrap();
    broadcaster.start_stream(&stream, &key).unwrap();

    let v = viewer.create_viewer("viewer".to_string(), "Viewer".to_string());
    let name = viewer.get_viewer(&v).unwrap().display_name.clone();

    let msg = chat
        .send_message(
            SendMessageRequest {
                stream_id: stream.clone(),
                sender_id: v.clone(),
                sender_name: name,
                content: "Hello chat!".to_string(),
                color: None,
                badges: vec![],
            },
            &broadcaster,
            &viewer,
        )
        .unwrap();

    assert_eq!(msg.content, "Hello chat!");
}

#[test]
fn test_slow_mode() {
    let (mut broadcaster, mut viewer, mut chat) = setup_services();

    let b = broadcaster.create_broadcaster("streamer".to_string(), "Streamer".to_string()).unwrap();
    let stream = broadcaster.create_stream(&b, "Test Stream".to_string(), StreamCategory::new("gaming", "Gaming")).unwrap();
    let key = broadcaster.get_broadcaster(&b).unwrap().stream_key.clone().unwrap();
    broadcaster.start_stream(&stream, &key).unwrap();

    let v = viewer.create_viewer("viewer".to_string(), "Viewer".to_string());
    let name = viewer.get_viewer(&v).unwrap().display_name.clone();

    // Enable slow mode
    chat.enable_slow_mode(&stream, 10).unwrap();

    // First message should succeed
    chat.send_message(
        SendMessageRequest {
            stream_id: stream.clone(),
            sender_id: v.clone(),
            sender_name: name.clone(),
            content: "Message 1".to_string(),
            color: None,
            badges: vec![],
        },
        &broadcaster,
        &viewer,
    )
    .unwrap();

    // Immediate second message should fail
    let result = chat.send_message(
        SendMessageRequest {
            stream_id: stream.clone(),
            sender_id: v.clone(),
            sender_name: name,
            content: "Message 2".to_string(),
            color: None,
            badges: vec![],
        },
        &broadcaster,
        &viewer,
    );

    assert!(result.is_err());
}

fn request(stream: &StreamId, sender: &ViewerId, content: &str) -> SendMessageRequest {
    SendMessageRequest {
        stream_id: stream.clone(),
        sender_id: sender.clone(),
        sender_name: "Viewer".to_string(),
        content: content.to_string(),
        color: Some("#ff0000".to_string()),
        badges: vec![],
    }
}

#[test]
fn chat_moderation_and_history() {
    let (mut b, mut v, mut chat) = setup_services();
    let caster = b.create_broadcaster_at("s".to_string(), "S".to_string(), BroadcasterId("b1".to_string()), "k1".to_string(), 0).unwrap();
    let stream = b.create_stream_at(&caster, "Live".to_string(), StreamCategory::new("a", "A"), StreamId("s1".to_string()), 0).unwrap();
    let alice = v.create_viewer_at("alice".to_string(), "Alice".to_string(), ViewerId("a".to_string()), 0);
    let mo = v.create_viewer_at("mod".to_string(), "Mod".to_string(), ViewerId("m".to_string()), 0);

    // The stream is not live yet.
    let r = chat.send_message_at(request(&stream, &alice, "hi"), &b, &v, ChatMessageId("x".to_string()), 10000);
    assert!(matches!(r, Err(LiveStreamingError::StreamNotLive)));
    let r = chat.send_message_at(request(&StreamId("none".to_string()), &alice, "hi"), &b, &v, ChatMessageId("x".to_string()), 10000);
    assert!(matches!(r, Err(LiveStreamingError::StreamNotFound(id)) if id == "none"));
    b.start_stream_at(&stream, "k1", 1).unwrap();

    let m1 = chat.send_message_at(request(&stream, &alice, "first"), &b, &v, ChatMessageId("m1".to_string()), 100000).unwrap();
    assert_eq!((m1.created_at, m1.color.as_deref()), (100000, Some("#ff0000")));
    chat.send_message_at(request(&stream, &alice, "second"), &b, &v, ChatMessageId("m2".to_string()), 200000).unwrap();
    chat.send_message_at(request(&stream, &alice, "third"), &b, &v, ChatMessageId("m3".to_string()), 150000).unwrap();
    let long = "x".repeat(501);
    assert!(matches!(
        chat.send_message_at(request(&stream, &alice, &long), &b, &v, ChatMessageId("m4".to_string()), 300000),
        Err(LiveStreamingError::MessageTooLong { max: 500 })
    ));

    // Newest first, then paging after a message, then a limit.
    let texts: Vec<String> = chat.get_messages(&stream, 10, None).unwrap().iter().map(|m| m.content.clone()).collect();
    assert_eq!(texts, vec!["second", "third", "first"]);
    let texts: Vec<String> = chat
        .get_messages(&stream, 1, Some(ChatMessageId("m2".to_string())))
        .unwrap()
        .iter()
        .map(|m| m.content.clone())
        .collect();
    assert_eq!(texts, vec!["third"]);

    // Deleting and pinning.
    chat.delete_message(&stream, &ChatMessageId("m3".to_string()), &mo, &v).unwrap();
    assert_eq!(chat.get_messages(&stream, 10, None).unwrap().len(), 2);
    assert!(matches!(
        chat.delete_message(&stream, &ChatMessageId("nope".to_string()), &mo, &v),
        Err(LiveStreamingError::InternalError(t)) if t == "Message not found"
    ));
    chat.pin_message(&stream, &ChatMessageId("m1".to_string())).unwrap();
    assert_eq!(chat.get_pinned_message(&stream).unwrap().unwrap().content, "first");
    chat.unpin_message(&stream).unwrap();
    assert!(chat.get_pinned_message(&stream).unwrap().is_none());

    // Timeouts, bans and unbans.
    let t = chat.timeout_user_at(&stream, &alice, &mo, 60, None, &v, 1000000).unwrap();
    assert_eq!((t.action_type, t.duration_seconds, t.moderator_name.as_str()), (ModerationActionType::Timeout, Some(60), "Mod"));
    assert!(matches!(
        chat.send_message_at(request(&stream, &alice, "late"), &b, &v, ChatMessageId("m5".to_string()), 1010000),
        Err(LiveStreamingError::UserTimeout(50))
    ));
    chat.send_message_at(request(&stream, &alice, "after"), &b, &v, ChatMessageId("m6".to_string()), 1060000).unwrap();
    let ban = chat.ban_user_at(&stream, &alice, &mo, Some("spam".to_string()), &v, 2000000).unwrap();
    assert_eq!((ban.target_username.as_str(), ban.reason.as_deref()), ("Alice", Some("spam")));
    assert!(matches!(
        chat.send_message_at(request(&stream, &alice, "again"), &b, &v, ChatMessageId("m7".to_string()), 9000000),
        Err(LiveStreamingError::UserBanned)
    ));
    assert!(matches!(
        chat.ban_user_at(&stream, &ViewerId("ghost".to_string()), &mo, None, &v, 0),
        Err(LiveStreamingError::ViewerNotFound(id)) if id == "ghost"
    ));
    chat.unban_user_at(&stream, &alice, &mo, &v, 9001000).unwrap();
    chat.send_message_at(request(&stream, &alice, "back"), &b, &v, ChatMessageId("m8".to_string()), 9002000).unwrap();

    // Modes.
    chat.enable_emote_only(&stream).unwrap();
    assert!(matches!(
        chat.send_message_at(request(&stream, &alice, "x"), &b, &v, ChatMessageId("m9".to_string()), 9100000),
        Err(LiveStreamingError::EmoteOnlyMode)
    ));
    chat.disable_emote_only(&stream).unwrap();
    chat.enable_followers_only(&stream, 5).unwrap();
    assert!(matches!(
        chat.send_message_at(request(&stream, &alice, "x"), &b, &v, ChatMessageId("m10".to_string()), 9200000),
        Err(LiveStreamingError::FollowersOnlyMode)
    ));
    v.follow_broadcaster(&alice, &caster, &b).unwrap();
    chat.send_message_at(request(&stream, &alice, "fan"), &b, &v, ChatMessageId("m11".to_string()), 9300000).unwrap();
    chat.disable_followers_only(&stream).unwrap();
    chat.enable_subscribers_only(&stream).unwrap();
    assert!(matches!(
        chat.send_message_at(request(&stream, &alice, "x"), &b, &v, ChatMessageId("m12".to_string()), 9400000),
        Err(LiveStreamingError::SubscribersOnlyMode)
    ));
    chat.disable_subscribers_only(&stream).unwrap();
    chat.enable_slow_mode(&stream, 30).unwrap();
    assert!(matches!(
        chat.send_message_at(request(&stream, &alice, "x"), &b, &v, ChatMessageId("m13".to_string()), 9310000),
        Err(LiveStreamingError::SlowModeActive(20))
    ));
    chat.disable_slow_mode(&stream).unwrap();

    // Clearing hides every message of the stream.
    chat.clear_chat(&stream, &mo).unwrap();
    assert!(chat.get_messages(&stream, 10, None).unwrap().is_empty());
}

#[test]
fn test_health_check() {
    let services = vantis::live_services::LiveStreamingServices::with_defaults();
    let health = services.health_check().unwrap();

    assert!(health.healthy);
    assert_eq!(health.active_streams, 0);
}

#[test]
fn services_share_settings_counters_and_categories() {
    let mut services = vantis::live_services::LiveStreamingServices::with_defaults();
    let mut config = services.config();
    config.enable_polls = false;
    services.update_config(config);
    let mut stats = services.stats();
    stats.active_streams = 3;
    stats.total_viewers = 40;
    services.update_stats(stats);
    let health = services.health_check().unwrap();
    assert_eq!((health.active_streams, health.total_viewers, health.features_enabled.polls), (3, 40, false));

    let categories = services.discovery.get_categories().unwrap();
    assert_eq!(categories.len(), 8);
    assert_eq!((categories[3].id.as_str(), categories[3].name.as_str()), ("irl", "Just Chatting"));
    assert!(services.discovery.get_featured_streams(10, &services.broadcaster).unwrap().is_empty());
    assert!(services.discovery.get_top_streams(5).unwrap().is_empty());
}

#[test]
fn slow_mode_counts_whole_seconds_between_instants() {
    let (mut b, v, mut chat) = setup_services();
    let mut v = v;
    let caster = b.create_broadcaster_at("s".to_string(), "S".to_string(), BroadcasterId("b1".to_string()), "k1".to_string(), 0).unwrap();
    let stream = b.create_stream_at(&caster, "Live".to_string(), StreamCategory::new("a", "A"), StreamId("s1".to_string()), 0).unwrap();
    let alice = v.create_viewer_at("alice".to_string(), "Alice".to_string(), ViewerId("a".to_string()), 0);
    b.start_stream_at(&stream, "k1", 1).unwrap();
    chat.enable_slow_mode(&stream, 3).unwrap();
    chat.send_message_at(request(&stream, &alice, "one"), &b, &v, ChatMessageId("m1".to_string()), 10_900).unwrap();
    assert!(matches!(
        chat.send_message_at(request(&stream, &alice, "two"), &b, &v, ChatMessageId("m2".to_string()), 13_100),
        Err(LiveStreamingError::SlowModeActive(1))
    ));
    chat.send_message_at(request(&stream, &alice, "three"), &b, &v, ChatMessageId("m3".to_string()), 13_900).unwrap();
}
