use vantis::broadcasting::{BroadcasterId, DefaultBroadcasterService, StreamId};
use vantis::live_streaming::{LiveStreamingError, ProfileUpdate, StreamInfoUpdate};
use vantis::stream_types::{IngestionProtocol, StreamCategory, StreamStatus};

#[test]
fn test_create_broadcaster() {
    let mut service = DefaultBroadcasterService::new();
    let id = service.create_broadcaster("testuser".to_string(), "Test User".to_string()).unwrap();
    let profile = service.get_broadcaster(&id).unwrap();
    assert_eq!(profile.username, "testuser");
    assert!(profile.stream_key.is_some());
}

#[test]
fn test_create_and_start_stream() {
    let mut service = DefaultBroadcasterService::new();
    let id = service.create_broadcaster("streamer".to_string(), "Streamer".to_string()).unwrap();
    let stream = service
        .create_stream(&id, "My First Stream".to_string(), StreamCategory::new("gaming", "Gaming"))
        .unwrap();
    assert_eq!(service.get_stream(&stream).unwrap().status, StreamStatus::Created);
    let stream_key = service.get_broadcaster(&id).unwrap().stream_key.clone().unwrap();
    service.start_stream(&stream, &stream_key).unwrap();
    assert_eq!(service.get_stream(&stream).unwrap().status, StreamStatus::Live);
}

#[test]
fn test_end_stream() {
    let mut service = DefaultBroadcasterService::new();
    let id = service.create_broadcaster("streamer".to_string(), "Streamer".to_string()).unwrap();
    let stream = service
        .create_stream(&id, "Test Stream".to_string(), StreamCategory::new("gaming", "Gaming"))
        .unwrap();
    let stream_key = service.get_broadcaster(&id).unwrap().stream_key.clone().unwrap();
    service.start_stream(&stream, &stream_key).unwrap();
    service.end_stream(&stream).unwrap();
    let ended = service.get_stream(&stream).unwrap();
    assert_eq!(ended.status, StreamStatus::Ended);
    assert!(ended.ended_at.is_some());
}

fn fixed_id(s: &str) -> BroadcasterId {
    BroadcasterId(s.to_string())
}

#[test]
fn broadcaster_accounts() {
    let mut service = DefaultBroadcasterService::new();
    let id = service
        .create_broadcaster_at("alice".to_string(), "Alice".to_string(), fixed_id("b1"), "live_k1".to_string(), 100)
        .unwrap();
    assert_eq!(id, fixed_id("b1"));
    let p = service.get_broadcaster(&id).unwrap();
    assert_eq!(p.created_at, 100);
    assert_eq!(p.ingestion_endpoint.as_deref(), Some("rtmp://ingest.vantis.media:1935"));
    assert_eq!(p.follower_count, 0);
    assert!(p.settings.chat_enabled);
    match service.create_broadcaster("alice".to_string(), "Other".to_string()) {
        Err(LiveStreamingError::InternalError(m)) => assert_eq!(m, "Username already taken"),
        other => panic!("unexpected {:?}", other.is_ok()),
    }
    assert_eq!(service.get_broadcaster_by_username("alice").unwrap().display_name, "Alice");
    assert!(matches!(service.get_broadcaster_by_username("bob"), Err(LiveStreamingError::BroadcasterNotFound(n)) if n == "bob"));
    assert!(matches!(service.get_broadcaster(&fixed_id("zz")), Err(LiveStreamingError::BroadcasterNotFound(n)) if n == "zz"));
    service
        .update_profile(&id, ProfileUpdate { display_name: Some("Alice B".to_string()), avatar_url: None, bio: Some("hi".to_string()) })
        .unwrap();
    let p = service.get_broadcaster(&id).unwrap();
    assert_eq!(p.display_name, "Alice B");
    assert_eq!(p.bio.as_deref(), Some("hi"));
    assert_eq!(p.avatar_url, None);
    let key = service.regenerate_stream_key(&id).unwrap();
    assert!(key.starts_with("live_"));
    assert_eq!(key.len(), 37);
    assert_eq!(service.get_broadcaster(&id).unwrap().stream_key.as_deref(), Some(key.as_str()));
    let ep = service.get_ingestion_endpoint(&id).unwrap();
    assert_eq!(ep.url, "rtmp://ingest.vantis.media:1935");
    assert_eq!(ep.server, "ingest.vantis.media");
    assert_eq!(ep.rtmp_port, 1935);
    assert_eq!(ep.protocol, IngestionProtocol::RTMPS);
    assert_eq!(ep.backup_servers, vec!["ingest-eu.vantis.media".to_string(), "ingest-as.vantis.media".to_string()]);
    assert_eq!(ep.stream_key, key);
}

#[test]
fn stream_lifecycle_refusals() {
    let mut service = DefaultBroadcasterService::new();
    let id = service
        .create_broadcaster_at("alice".to_string(), "Alice".to_string(), fixed_id("b1"), "live_k1".to_string(), 0)
        .unwrap();
    assert!(matches!(
        service.create_stream(&fixed_id("nobody"), "x".to_string(), StreamCategory::new("a", "A")),
        Err(LiveStreamingError::BroadcasterNotFound(_))
    ));
    let s = service
        .create_stream_at(&id, "Show".to_string(), StreamCategory::new("music", "Music"), StreamId("s1".to_string()), 10)
        .unwrap();
    let stream = service.get_stream(&s).unwrap();
    assert_eq!(stream.language, "en");
    assert_eq!(stream.created_at, 10);
    assert_eq!(service.start_stream_at(&s, "wrong", 20), Err(LiveStreamingError::InvalidStreamKey));
    assert_eq!(service.end_stream_at(&s, 20), Err(LiveStreamingError::StreamNotLive));
    assert!(service.get_active_stream(&id).unwrap().is_none());
    assert_eq!(service.start_stream_at(&s, "live_k1", 20), Ok(()));
    assert_eq!(service.start_stream_at(&s, "live_k1", 21), Err(LiveStreamingError::StreamAlreadyLive));
    assert_eq!(service.get_active_stream(&id).unwrap().unwrap().id, s);
    assert_eq!(service.end_stream_at(&s, 95), Ok(()));
    let done = service.get_stream(&s).unwrap();
    assert_eq!(done.started_at, Some(20));
    assert_eq!(done.ended_at, Some(95));
    assert_eq!(done.duration_seconds, 75);
    assert!(matches!(service.start_stream_at(&StreamId("none".to_string()), "k", 0), Err(LiveStreamingError::StreamNotFound(n)) if n == "none"));
    service
        .update_stream_info(
            &s,
            StreamInfoUpdate {
                title: Some("Renamed".to_string()),
                description: None,
                category: None,
                tags: Some(vec!["chill".to_string()]),
                language: Some("pl".to_string()),
                is_mature: Some(true),
            },
        )
        .unwrap();
    let st = service.get_stream(&s).unwrap();
    assert_eq!(st.title, "Renamed");
    assert_eq!(st.tags, vec!["chill".to_string()]);
    assert_eq!(st.language, "pl");
    assert!(st.is_mature);
}

#[test]
fn past_streams_latest_first_and_stats() {
    let mut service = DefaultBroadcasterService::new();
    let id = service
        .create_broadcaster_at("alice".to_string(), "Alice".to_string(), fixed_id("b1"), "k".to_string(), 0)
        .unwrap();
    let other = service
        .create_broadcaster_at("bob".to_string(), "Bob".to_string(), fixed_id("b2"), "k2".to_string(), 0)
        .unwrap();
    let mut ids = Vec::new();
    for (n, (start, end)) in [(0i64, 50i64), (100, 400), (10, 50)].iter().enumerate() {
        let s = service
            .create_stream_at(&id, format!("S{}", n), StreamCategory::new("a", "A"), StreamId(format!("s{}", n)), 0)
            .unwrap();
        service.start_stream_at(&s, "k", *start).unwrap();
        service.end_stream_at(&s, *end).unwrap();
        ids.push(s);
    }
    let live = service
        .create_stream_at(&id, "Live".to_string(), StreamCategory::new("a", "A"), StreamId("s9".to_string()), 0)
        .unwrap();
    service.start_stream_at(&live, "k", 500).unwrap();
    let theirs = service
        .create_stream_at(&other, "Bob's".to_string(), StreamCategory::new("a", "A"), StreamId("t0".to_string()), 0)
        .unwrap();
    service.start_stream_at(&theirs, "k2", 0).unwrap();
    service.end_stream_at(&theirs, 1000).unwrap();
    let past: Vec<String> = service.get_past_streams(&id, 10, 0).unwrap().iter().map(|s| s.id.0.clone()).collect();
    assert_eq!(past, vec!["s1", "s0", "s2"]);
    let page: Vec<String> = service.get_past_streams(&id, 1, 1).unwrap().iter().map(|s| s.id.0.clone()).collect();
    assert_eq!(page, vec!["s0"]);
    assert!(service.get_past_streams(&id, 5, 9).unwrap().is_empty());
    let stats = service.get_broadcaster_stats(&id).unwrap();
    assert_eq!(stats.total_streams, 4);
    assert_eq!(stats.total_stream_seconds, 50 + 300 + 40);
    assert_eq!(stats.total_views, 0);
    assert_eq!(stats.peak_viewers, 0);
}

#[test]
fn fresh_identifiers_are_version_4() {
    let a = StreamId::new().0;
    let b = BroadcasterId::new().0;
    for id in [&a, &b] {
        let c: Vec<char> = id.chars().collect();
        assert_eq!(c.len(), 36);
        for (i, ch) in c.iter().enumerate() {
            if [8, 13, 18, 23].contains(&i) {
                assert_eq!(*ch, '-');
            } else {
                assert!(ch.is_ascii_hexdigit() && !ch.is_ascii_uppercase());
            }
        }
        assert_eq!(c[14], '4');
        assert!(['8', '9', 'a', 'b'].contains(&c[19]));
    }
    assert_ne!(a, b);
}
